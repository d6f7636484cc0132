//! Back-end independent controller inputs and their mapping onto the keys of
//! a virtual gamepad.

use vstd::prelude::*;

verus! {

/// Back-end independent controller inputs.
#[derive(Debug, Clone, Copy, PartialEq, Eq, PartialOrd, Ord, Structural)]
pub enum ControllerInput {
    South,
    A,
    East,
    B,
    C,
    North,
    X,
    West,
    Y,
    Z,
    TL,
    TR,
    TL2,
    TR2,
    Select,
    Start,
    Mode,
    ThumbL,
    ThumbR,
    Up,
    Down,
    Left,
    Right,
    Menu,
    Home,
    LeftThumb,
    RightThumb,
    LeftBumper,
    RightBumper,
    LeftTrigger,
    RightTrigger,
}

/// Gamepad buttons of a virtual controller.
#[derive(Debug, Clone, Copy, PartialEq, Eq, Structural)]
pub enum GamePadKey {
    South,
    A,
    East,
    B,
    C,
    North,
    X,
    West,
    Y,
    Z,
    TL,
    TR,
    TL2,
    TR2,
    Select,
    Start,
    Mode,
    ThumbL,
    ThumbR,
}

/// Directional pad buttons of a virtual controller.
#[derive(Debug, Clone, Copy, PartialEq, Eq, Structural)]
pub enum DPadKey {
    Up,
    Down,
    Left,
    Right,
}

/// A digital key of a virtual controller.
#[derive(Debug, Clone, Copy, PartialEq, Eq, Structural)]
pub enum VirtualKey {
    GamePad(GamePadKey),
    DPad(DPadKey),
}

/// The inputs that a virtual controller can emit as a digital key press.
pub open spec fn spec_is_digital_input(input: ControllerInput) -> bool {
    match input {
        ControllerInput::TL | ControllerInput::TR | ControllerInput::TL2 | ControllerInput::TR2
        | ControllerInput::ThumbL | ControllerInput::ThumbR | ControllerInput::Menu
        | ControllerInput::Home | ControllerInput::LeftTrigger | ControllerInput::RightTrigger => false,
        _ => true,
    }
}

/// The virtual key that a digital input is emitted as, laid out like an XBox
/// controller: the bumpers on the shoulder buttons TL and TR.
pub open spec fn spec_digital_key(input: ControllerInput) -> VirtualKey
    recommends
        spec_is_digital_input(input),
{
    match input {
        ControllerInput::South => VirtualKey::GamePad(GamePadKey::South),
        ControllerInput::A => VirtualKey::GamePad(GamePadKey::A),
        ControllerInput::East => VirtualKey::GamePad(GamePadKey::East),
        ControllerInput::B => VirtualKey::GamePad(GamePadKey::B),
        ControllerInput::C => VirtualKey::GamePad(GamePadKey::C),
        ControllerInput::North => VirtualKey::GamePad(GamePadKey::North),
        ControllerInput::X => VirtualKey::GamePad(GamePadKey::X),
        ControllerInput::West => VirtualKey::GamePad(GamePadKey::West),
        ControllerInput::Y => VirtualKey::GamePad(GamePadKey::Y),
        ControllerInput::Z => VirtualKey::GamePad(GamePadKey::Z),
        ControllerInput::LeftBumper => VirtualKey::GamePad(GamePadKey::TL),
        ControllerInput::RightBumper => VirtualKey::GamePad(GamePadKey::TR),
        ControllerInput::Select => VirtualKey::GamePad(GamePadKey::Select),
        ControllerInput::Start => VirtualKey::GamePad(GamePadKey::Start),
        ControllerInput::Mode => VirtualKey::GamePad(GamePadKey::Mode),
        ControllerInput::LeftThumb => VirtualKey::GamePad(GamePadKey::ThumbL),
        ControllerInput::RightThumb => VirtualKey::GamePad(GamePadKey::ThumbR),
        ControllerInput::Up => VirtualKey::DPad(DPadKey::Up),
        ControllerInput::Down => VirtualKey::DPad(DPadKey::Down),
        ControllerInput::Left => VirtualKey::DPad(DPadKey::Left),
        _ => VirtualKey::DPad(DPadKey::Right),
    }
}

/// Whether `input` can be emitted as a digital key press.
pub fn is_digital_input(input: ControllerInput) -> (res: bool)
    ensures
        res == spec_is_digital_input(input),
{
    match input {
        ControllerInput::TL | ControllerInput::TR | ControllerInput::TL2 | ControllerInput::TR2
        | ControllerInput::ThumbL | ControllerInput::ThumbR | ControllerInput::Menu
        | ControllerInput::Home | ControllerInput::LeftTrigger | ControllerInput::RightTrigger => false,
        _ => true,
    }
}

/// Maps a digital controller input onto the virtual key that emits it.
pub fn map_digital_controller_input(input: ControllerInput) -> (key: VirtualKey)
    requires
        spec_is_digital_input(input),
    ensures
        key == spec_digital_key(input),
{
    match input {
        ControllerInput::South => VirtualKey::GamePad(GamePadKey::South),
        ControllerInput::A => VirtualKey::GamePad(GamePadKey::A),
        ControllerInput::East => VirtualKey::GamePad(GamePadKey::East),
        ControllerInput::B => VirtualKey::GamePad(GamePadKey::B),
        ControllerInput::C => VirtualKey::GamePad(GamePadKey::C),
        ControllerInput::North => VirtualKey::GamePad(GamePadKey::North),
        ControllerInput::X => VirtualKey::GamePad(GamePadKey::X),
        ControllerInput::West => VirtualKey::GamePad(GamePadKey::West),
        ControllerInput::Y => VirtualKey::GamePad(GamePadKey::Y),
        ControllerInput::Z => VirtualKey::GamePad(GamePadKey::Z),
        ControllerInput::LeftBumper => VirtualKey::GamePad(GamePadKey::TL),
        ControllerInput::RightBumper => VirtualKey::GamePad(GamePadKey::TR),
        ControllerInput::Select => VirtualKey::GamePad(GamePadKey::Select),
        ControllerInput::Start => VirtualKey::GamePad(GamePadKey::Start),
        ControllerInput::Mode => VirtualKey::GamePad(GamePadKey::Mode),
        ControllerInput::LeftThumb => VirtualKey::GamePad(GamePadKey::ThumbL),
        ControllerInput::RightThumb => VirtualKey::GamePad(GamePadKey::ThumbR),
        ControllerInput::Up => VirtualKey::DPad(DPadKey::Up),
        ControllerInput::Down => VirtualKey::DPad(DPadKey::Down),
        ControllerInput::Left => VirtualKey::DPad(DPadKey::Left),
        _ => VirtualKey::DPad(DPadKey::Right),
    }
}

/// Each digital input is emitted on the key of the same name: the
/// directions on the d-pad keys of the same direction, the bumpers on the
/// shoulder keys TL and TR, the thumbsticks on ThumbL and ThumbR, and every
/// other gamepad input on the gamepad key it names.
pub proof fn lemma_digital_keys_by_name()
    ensures
        spec_digital_key(ControllerInput::Up) == VirtualKey::DPad(DPadKey::Up),
        spec_digital_key(ControllerInput::Down) == VirtualKey::DPad(DPadKey::Down),
        spec_digital_key(ControllerInput::Left) == VirtualKey::DPad(DPadKey::Left),
        spec_digital_key(ControllerInput::Right) == VirtualKey::DPad(DPadKey::Right),
        spec_digital_key(ControllerInput::South) == VirtualKey::GamePad(GamePadKey::South),
        spec_digital_key(ControllerInput::A) == VirtualKey::GamePad(GamePadKey::A),
        spec_digital_key(ControllerInput::East) == VirtualKey::GamePad(GamePadKey::East),
        spec_digital_key(ControllerInput::B) == VirtualKey::GamePad(GamePadKey::B),
        spec_digital_key(ControllerInput::C) == VirtualKey::GamePad(GamePadKey::C),
        spec_digital_key(ControllerInput::North) == VirtualKey::GamePad(GamePadKey::North),
        spec_digital_key(ControllerInput::X) == VirtualKey::GamePad(GamePadKey::X),
        spec_digital_key(ControllerInput::West) == VirtualKey::GamePad(GamePadKey::West),
        spec_digital_key(ControllerInput::Y) == VirtualKey::GamePad(GamePadKey::Y),
        spec_digital_key(ControllerInput::Z) == VirtualKey::GamePad(GamePadKey::Z),
        spec_digital_key(ControllerInput::LeftBumper) == VirtualKey::GamePad(GamePadKey::TL),
        spec_digital_key(ControllerInput::RightBumper) == VirtualKey::GamePad(GamePadKey::TR),
        spec_digital_key(ControllerInput::Select) == VirtualKey::GamePad(GamePadKey::Select),
        spec_digital_key(ControllerInput::Start) == VirtualKey::GamePad(GamePadKey::Start),
        spec_digital_key(ControllerInput::Mode) == VirtualKey::GamePad(GamePadKey::Mode),
        spec_digital_key(ControllerInput::LeftThumb) == VirtualKey::GamePad(GamePadKey::ThumbL),
        spec_digital_key(ControllerInput::RightThumb) == VirtualKey::GamePad(GamePadKey::ThumbR),
{
}

/// Two different digital inputs never press the same virtual key.
pub proof fn lemma_digital_keys_distinct(a: ControllerInput, b: ControllerInput)
    requires
        spec_is_digital_input(a),
        spec_is_digital_input(b),
        a != b,
    ensures
        spec_digital_key(a) != spec_digital_key(b),
{
}

/// The error type of the `anyhow` crate, which virtual controller back ends
/// report their failures with.
#[verifier::external_type_specification]
#[verifier::external_body]
pub struct ExAnyhowError(anyhow::Error);

/// Implemented by each operating-system specific virtual controller.
pub trait AbstractVirtualController {
    /// Simulate a button press.
    fn press_button(&mut self, input: ControllerInput) -> anyhow::Result<()>;

    /// Simulate a button release.
    fn release_button(&mut self, input: ControllerInput) -> anyhow::Result<()>;

    /// Simulate joystick movement.
    fn joystick(&mut self, input: ControllerInput) -> anyhow::Result<()>;
}

} // verus!
