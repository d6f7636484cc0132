//! Driver logic for the Steam Controller: HID packet construction, decoding of
//! button reports into controller inputs, the channel that links a controller
//! thread with the front end, and the decisions of the supervising loops.

pub mod virtual_controller;
pub mod devices;
pub mod steam_controller;
pub mod command_channel;
pub mod shared_properties;
pub mod multi_threading;
pub mod supervision;
