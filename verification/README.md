# open_steam_controller

Driver logic for the Steam Controller, verified with Verus.

- `src/steam_controller.rs`: the packets sent to the controller (feature
  report framing, the packet that disables "lizard mode") and the decoding of
  button events into controller inputs, with the laws of that decoding.
- `src/devices.rs`: device events, device properties, and the device state
  that collects the HID reports to send.
- `src/virtual_controller.rs`: back-end independent inputs, their mapping onto
  virtual gamepad keys, and the trait a virtual controller back end implements.
- `src/command_channel.rs`, `src/shared_properties.rs`: the std channel and
  mutex behind trusted items, with the pairing of the channel halves, the
  commands a sender handed over, the cell's starting value and what a
  controller thread last published.
- `src/multi_threading.rs`: the channel between a controller thread and the
  front end.
- `src/supervision.rs`: the decisions of the supervising loop and of each
  controller loop.
- `app/`: the Linux tray program: hidraw access, the uinput virtual
  controller, the ksni tray and the threads.
