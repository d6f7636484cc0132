//! The Steam Controller: the packets sent to it and the decoding of the
//! reports it sends back.

use vstd::prelude::*;

use crate::devices::{DeviceEvent, DeviceState};
use crate::virtual_controller::ControllerInput;

verus! {

/// USB vendor ids of the Steam Controller.
pub const VENDOR_IDS: [u16; 1] = [0x28de];

/// USB product ids of the Steam Controller: connected directly, and
/// connected through the puck.
pub const PRODUCT_IDS: [u16; 2] = [0x1302, 0x1304];

/// Flag to start a feature report.
pub const FEATURE_REPORT: u8 = 0x01;

/// Command to set a setting.
pub const SET_SETTING_CMD: u8 = 0x87;

/// Response prefix for a button event.
pub const RESPONSE_BUTTON_EVENT: u8 = 0x45;

/// Every packet sent to the controller is this long.
pub const PACKET_LEN: usize = 64;

/// The largest payload that fits a packet behind its three header bytes.
pub const MAX_PAYLOAD_LEN: usize = 61;

/// The number of buttons that a button event reports, one bit each.
pub const BUTTON_COUNT: u32 = 30;

/// Mask of the bits of a button event that stand for a button.
pub const BUTTON_MASK: u32 = 0x3fff_ffff;

/// Mask of the buttons that give an input: all but the capacitive touches
/// of the thumbsticks (bits 20 and 24) and of the pads (bits 21 and 25).
pub const INPUT_BUTTON_MASK: u32 = 0x3ccf_ffff;

/// Whether a HID device with these ids is a Steam Controller: its vendor id
/// is one of `VENDOR_IDS` and its product id one of `PRODUCT_IDS`.
pub fn is_compatible_device(vendor_id: u16, product_id: u16) -> (compatible: bool)
    ensures
        compatible == (VENDOR_IDS@.contains(vendor_id) && PRODUCT_IDS@.contains(product_id)),
{
    let mut vendor_found = false;
    let mut i: usize = 0;
    while i < VENDOR_IDS.len()
        invariant
            i <= VENDOR_IDS@.len(),
            vendor_found == (exists|j: int| 0 <= j < i && VENDOR_IDS@[j] == vendor_id),
        decreases VENDOR_IDS@.len() - i,
    {
        if VENDOR_IDS[i] == vendor_id {
            vendor_found = true;
        }
        i = i + 1;
    }
    let mut product_found = false;
    let mut k: usize = 0;
    while k < PRODUCT_IDS.len()
        invariant
            k <= PRODUCT_IDS@.len(),
            product_found == (exists|j: int| 0 <= j < k && PRODUCT_IDS@[j] == product_id),
        decreases PRODUCT_IDS@.len() - k,
    {
        if PRODUCT_IDS[k] == product_id {
            product_found = true;
        }
        k = k + 1;
    }
    vendor_found && product_found
}

/// A packet: feature report flag, command, size of the payload, the payload,
/// and zeros up to the packet length.
pub open spec fn spec_decorate_packet(command: u8, payload: Seq<u8>) -> Seq<u8> {
    seq![FEATURE_REPORT, command, payload.len() as u8] + payload
        + Seq::new((MAX_PAYLOAD_LEN - payload.len()) as nat, |i: int| 0u8)
}

/// The packet that disables "lizard mode".
pub open spec fn spec_disable_lizard_mode_packet() -> Seq<u8> {
    spec_decorate_packet(SET_SETTING_CMD, seq![0x09u8, 0x00u8, 0x00u8])
}

/// Whether button `index` is pressed in the button bits of an event.
pub open spec fn button_bit_set(bits: u32, index: u32) -> bool {
    (bits >> index) & 1u32 == 1u32
}

/// The controller input that button `index` is reported as, mapped like an
/// XBox controller with the paddles on the shoulder buttons; `None` for the
/// capacitive touches (thumbsticks and pads), which are disabled.
pub open spec fn spec_button_input(index: u32) -> Option<ControllerInput> {
    match index {
        0 => Some(ControllerInput::A),
        1 => Some(ControllerInput::B),
        2 => Some(ControllerInput::X),
        3 => Some(ControllerInput::Y),
        4 => Some(ControllerInput::Menu),
        5 => Some(ControllerInput::RightThumb),
        6 => Some(ControllerInput::Select),
        7 => Some(ControllerInput::RightBumper),
        8 => Some(ControllerInput::RightTrigger),
        9 => Some(ControllerInput::RightBumper),
        10 => Some(ControllerInput::Down),
        11 => Some(ControllerInput::Right),
        12 => Some(ControllerInput::Left),
        13 => Some(ControllerInput::Up),
        14 => Some(ControllerInput::Start),
        15 => Some(ControllerInput::LeftThumb),
        16 => Some(ControllerInput::Home),
        17 => Some(ControllerInput::LeftBumper),
        18 => Some(ControllerInput::LeftTrigger),
        19 => Some(ControllerInput::LeftBumper),
        20 => None,
        21 => None,
        22 => Some(ControllerInput::RightThumb),
        23 => Some(ControllerInput::RightTrigger),
        24 => None,
        25 => None,
        26 => Some(ControllerInput::LeftThumb),
        27 => Some(ControllerInput::LeftTrigger),
        28 => Some(ControllerInput::RightThumb),
        _ => Some(ControllerInput::LeftThumb),
    }
}

/// The inputs of the pressed buttons among the first `n`, in button order;
/// pressed buttons without an input give none.
pub open spec fn spec_buttons_below(bits: u32, n: nat) -> Seq<ControllerInput>
    decreases n,
{
    if n == 0 {
        Seq::empty()
    } else {
        let prev = spec_buttons_below(bits, (n - 1) as nat);
        let index = (n - 1) as u32;
        if button_bit_set(bits, index) && spec_button_input(index) is Some {
            prev.push(spec_button_input(index).unwrap())
        } else {
            prev
        }
    }
}

/// The inputs of all pressed buttons, in button order.
pub open spec fn spec_get_buttons(bits: u32) -> Seq<ControllerInput> {
    spec_buttons_below(bits, BUTTON_COUNT as nat)
}

/// The button bits of a button event: bytes 2 to 5, little endian.
pub open spec fn spec_response_button_bits(response: Seq<u8>) -> u32 {
    (response[2] + 0x100 * response[3] + 0x1_0000 * response[4] + 0x100_0000 * response[5]) as u32
}

/// The events that a response of the controller reports.
pub open spec fn spec_events_from_response(response: Seq<u8>) -> Option<Seq<DeviceEvent>> {
    if response[0] == RESPONSE_BUTTON_EVENT {
        let inputs = spec_get_buttons(spec_response_button_bits(response));
        if inputs.len() == 0 {
            None
        } else {
            Some(inputs.map_values(|input: ControllerInput| DeviceEvent::ButtonPressed(input)))
        }
    } else {
        None
    }
}

/// Whether a response can be decoded: it is not
/// empty, and a button event holds its four button bytes.
pub open spec fn spec_response_well_formed(response: Seq<u8>) -> bool {
    &&& response.len() >= 1
    &&& response[0] == RESPONSE_BUTTON_EVENT ==> response.len() >= 6
}

/// The controller input that button `index` is reported as, if any.
fn button_input(index: u32) -> (input: Option<ControllerInput>)
    requires
        index < BUTTON_COUNT,
    ensures
        input == spec_button_input(index),
{
    match index {
        0 => Some(ControllerInput::A),
        1 => Some(ControllerInput::B),
        2 => Some(ControllerInput::X),
        3 => Some(ControllerInput::Y),
        4 => Some(ControllerInput::Menu),
        5 => Some(ControllerInput::RightThumb),
        6 => Some(ControllerInput::Select),
        7 => Some(ControllerInput::RightBumper),
        8 => Some(ControllerInput::RightTrigger),
        9 => Some(ControllerInput::RightBumper),
        10 => Some(ControllerInput::Down),
        11 => Some(ControllerInput::Right),
        12 => Some(ControllerInput::Left),
        13 => Some(ControllerInput::Up),
        14 => Some(ControllerInput::Start),
        15 => Some(ControllerInput::LeftThumb),
        16 => Some(ControllerInput::Home),
        17 => Some(ControllerInput::LeftBumper),
        18 => Some(ControllerInput::LeftTrigger),
        19 => Some(ControllerInput::LeftBumper),
        20 => None,
        21 => None,
        22 => Some(ControllerInput::RightThumb),
        23 => Some(ControllerInput::RightTrigger),
        24 => None,
        25 => None,
        26 => Some(ControllerInput::LeftThumb),
        27 => Some(ControllerInput::LeftTrigger),
        28 => Some(ControllerInput::RightThumb),
        _ => Some(ControllerInput::LeftThumb),
    }
}

proof fn lemma_buttons_below_masked(bits: u32, n: nat)
    requires
        n <= BUTTON_COUNT,
    ensures
        spec_buttons_below(bits & BUTTON_MASK, n) == spec_buttons_below(bits, n),
    decreases n,
{
    if n > 0 {
        lemma_buttons_below_masked(bits, (n - 1) as nat);
        let i = (n - 1) as u32;
        assert(button_bit_set(bits & BUTTON_MASK, i) == button_bit_set(bits, i)) by (bit_vector)
            requires
                i < 30u32,
                BUTTON_MASK == 0x3fff_ffffu32,
        ;
    }
}

/// Bits of a button event that stand for no button change nothing: the
/// decoded buttons are those of the bits cut down to the defined buttons.
pub proof fn lemma_undefined_button_bits_ignored(bits: u32)
    ensures
        spec_get_buttons(bits & BUTTON_MASK) == spec_get_buttons(bits),
{
    lemma_buttons_below_masked(bits, BUTTON_COUNT as nat);
}

/// Exactly the buttons of `INPUT_BUTTON_MASK` give an input.
pub proof fn lemma_button_input_iff_input_mask(index: u32)
    requires
        index < BUTTON_COUNT,
    ensures
        spec_button_input(index) is Some <==> button_bit_set(INPUT_BUTTON_MASK, index),
{
    let m: u32 = 0x3ccf_ffffu32;
    assert({
        &&& (m >> 0u32) & 1u32 == 1u32
        &&& (m >> 1u32) & 1u32 == 1u32
        &&& (m >> 2u32) & 1u32 == 1u32
        &&& (m >> 3u32) & 1u32 == 1u32
        &&& (m >> 4u32) & 1u32 == 1u32
        &&& (m >> 5u32) & 1u32 == 1u32
        &&& (m >> 6u32) & 1u32 == 1u32
        &&& (m >> 7u32) & 1u32 == 1u32
        &&& (m >> 8u32) & 1u32 == 1u32
        &&& (m >> 9u32) & 1u32 == 1u32
        &&& (m >> 10u32) & 1u32 == 1u32
        &&& (m >> 11u32) & 1u32 == 1u32
        &&& (m >> 12u32) & 1u32 == 1u32
        &&& (m >> 13u32) & 1u32 == 1u32
        &&& (m >> 14u32) & 1u32 == 1u32
        &&& (m >> 15u32) & 1u32 == 1u32
        &&& (m >> 16u32) & 1u32 == 1u32
        &&& (m >> 17u32) & 1u32 == 1u32
        &&& (m >> 18u32) & 1u32 == 1u32
        &&& (m >> 19u32) & 1u32 == 1u32
        &&& (m >> 20u32) & 1u32 == 0u32
        &&& (m >> 21u32) & 1u32 == 0u32
        &&& (m >> 22u32) & 1u32 == 1u32
        &&& (m >> 23u32) & 1u32 == 1u32
        &&& (m >> 24u32) & 1u32 == 0u32
        &&& (m >> 25u32) & 1u32 == 0u32
        &&& (m >> 26u32) & 1u32 == 1u32
        &&& (m >> 27u32) & 1u32 == 1u32
        &&& (m >> 28u32) & 1u32 == 1u32
        &&& (m >> 29u32) & 1u32 == 1u32
    }) by (bit_vector)
        requires
            m == 0x3ccf_ffffu32,
    ;
    if index == 0 {
    } else if index == 1 {
    } else if index == 2 {
    } else if index == 3 {
    } else if index == 4 {
    } else if index == 5 {
    } else if index == 6 {
    } else if index == 7 {
    } else if index == 8 {
    } else if index == 9 {
    } else if index == 10 {
    } else if index == 11 {
    } else if index == 12 {
    } else if index == 13 {
    } else if index == 14 {
    } else if index == 15 {
    } else if index == 16 {
    } else if index == 17 {
    } else if index == 18 {
    } else if index == 19 {
    } else if index == 20 {
    } else if index == 21 {
    } else if index == 22 {
    } else if index == 23 {
    } else if index == 24 {
    } else if index == 25 {
    } else if index == 26 {
    } else if index == 27 {
    } else if index == 28 {
    } else {
        assert(index == 29);
    }
}

proof fn lemma_buttons_below_empty(bits: u32, n: u32)
    requires
        n <= BUTTON_COUNT,
    ensures
        spec_buttons_below(bits, n as nat).len() == 0 <==> bits & INPUT_BUTTON_MASK & ((1u32 << n)
            - 1u32) as u32 == 0u32,
    decreases n,
{
    if n == 0 {
        assert(bits & INPUT_BUTTON_MASK & ((1u32 << 0u32) - 1u32) as u32 == 0u32) by (bit_vector);
    } else {
        let m = (n - 1) as u32;
        lemma_buttons_below_empty(bits, m);
        lemma_button_input_iff_input_mask(m);
        let k = INPUT_BUTTON_MASK;
        assert(
            (bits & k & ((1u32 << (m + 1) as u32) - 1u32) as u32 == 0u32) <==> (bits & k & ((1u32
                << m) - 1u32) as u32 == 0u32 && !((bits >> m) & 1u32 == 1u32 && (k >> m) & 1u32
                == 1u32))
        ) by (bit_vector)
            requires
                m < 30u32,
        ;
        assert((m + 1) as u32 == n);
    }
}

/// A button event decodes to no input exactly when none of the bits of the
/// buttons that give an input is set.
pub proof fn lemma_no_buttons_iff_no_bits(bits: u32)
    ensures
        spec_get_buttons(bits).len() == 0 <==> bits & INPUT_BUTTON_MASK == 0,
{
    lemma_buttons_below_empty(bits, BUTTON_COUNT);
    assert(bits & INPUT_BUTTON_MASK & ((1u32 << 30u32) - 1u32) as u32 == bits & INPUT_BUTTON_MASK)
        by (bit_vector)
        requires
            INPUT_BUTTON_MASK == 0x3ccf_ffffu32,
    ;
}

proof fn lemma_buttons_below_members(bits: u32, n: nat)
    requires
        n <= BUTTON_COUNT,
    ensures
        forall|i: u32| #![trigger button_bit_set(bits, i)]
            i < n && button_bit_set(bits, i) && spec_button_input(i) is Some
                ==> spec_buttons_below(bits, n).contains(spec_button_input(i).unwrap()),
        forall|k: int|
            0 <= k < spec_buttons_below(bits, n).len() ==> exists|i: u32|
                i < n && button_bit_set(bits, i) && spec_button_input(i) == Some(
                    #[trigger] spec_buttons_below(bits, n)[k],
                ),
    decreases n,
{
    if n > 0 {
        let m = (n - 1) as nat;
        lemma_buttons_below_members(bits, m);
        let prev = spec_buttons_below(bits, m);
        let cur = spec_buttons_below(bits, n);
        let last = (n - 1) as u32;
        assert forall|i: u32| #![trigger button_bit_set(bits, i)]
            i < n && button_bit_set(bits, i) && spec_button_input(i) is Some implies cur.contains(
            spec_button_input(i).unwrap(),
        ) by {
            if i < m {
                let k = choose|k: int|
                    0 <= k < prev.len() && prev[k] == spec_button_input(i).unwrap();
                assert(cur[k] == prev[k]);
            } else {
                assert(i == last);
                assert(cur[cur.len() - 1] == spec_button_input(i).unwrap());
            }
        }
        assert forall|k: int| 0 <= k < cur.len() implies exists|i: u32|
            i < n && button_bit_set(bits, i) && spec_button_input(i) == Some(#[trigger] cur[k]) by {
            if k < prev.len() {
                assert(cur[k] == prev[k]);
                let i = choose|i: u32|
                    i < m && button_bit_set(bits, i) && spec_button_input(i) == Some(
                        #[trigger] prev[k],
                    );
                assert(i < n && button_bit_set(bits, i) && spec_button_input(i) == Some(cur[k]));
            } else {
                assert(button_bit_set(bits, last) && spec_button_input(last) == Some(cur[k]));
            }
        }
    }
}

/// Every pressed button that gives an input is reported, and only pressed
/// buttons that give an input are reported.
pub proof fn lemma_buttons_reported_exactly(bits: u32)
    ensures
        forall|i: u32| #![trigger button_bit_set(bits, i)]
            i < BUTTON_COUNT && button_bit_set(bits, i) && spec_button_input(i) is Some
                ==> spec_get_buttons(bits).contains(spec_button_input(i).unwrap()),
        forall|k: int|
            0 <= k < spec_get_buttons(bits).len() ==> exists|i: u32|
                i < BUTTON_COUNT && button_bit_set(bits, i) && spec_button_input(i) == Some(
                    #[trigger] spec_get_buttons(bits)[k],
                ),
{
    lemma_buttons_below_members(bits, BUTTON_COUNT as nat);
}

proof fn lemma_buttons_below_concat(a: u32, b: u32, k: u32, n: nat)
    requires
        k <= 32,
        (a as u64) >> (k as u64) == 0u64,
        (b as u64) & (((1u64 << (k as u64)) - 1u64) as u64) == 0u64,
        n <= BUTTON_COUNT,
    ensures
        spec_buttons_below(a | b, n) == spec_buttons_below(a, n) + spec_buttons_below(b, n),
        n <= k ==> spec_buttons_below(b, n).len() == 0,
    decreases n,
{
    if n > 0 {
        let m = (n - 1) as nat;
        let i = m as u32;
        lemma_buttons_below_concat(a, b, k, m);
        let pa = spec_buttons_below(a, m);
        let pb = spec_buttons_below(b, m);
        if i < k {
            assert(!button_bit_set(b, i) && button_bit_set(a | b, i) == button_bit_set(a, i))
                by (bit_vector)
                requires
                    i < k,
                    k <= 32u32,
                    (b as u64) & (((1u64 << (k as u64)) - 1u64) as u64) == 0u64,
            ;
            assert(spec_buttons_below(b, n) == pb);
            assert(pb.len() == 0);
            if button_bit_set(a, i) && spec_button_input(i) is Some {
                assert(spec_buttons_below(a | b, n) =~= (pa + pb).push(spec_button_input(i).unwrap()));
                assert(spec_buttons_below(a | b, n) =~= spec_buttons_below(a, n) + spec_buttons_below(b, n));
            } else {
                assert(spec_buttons_below(a | b, n) =~= spec_buttons_below(a, n) + spec_buttons_below(b, n));
            }
        } else {
            assert(!button_bit_set(a, i) && button_bit_set(a | b, i) == button_bit_set(b, i))
                by (bit_vector)
                requires
                    k <= i,
                    i < 32u32,
                    (a as u64) >> (k as u64) == 0u64,
            ;
            assert(spec_buttons_below(a, n) == pa);
            if button_bit_set(b, i) && spec_button_input(i) is Some {
                assert(spec_buttons_below(a | b, n) =~= pa + pb.push(spec_button_input(i).unwrap()));
            } else {
                assert(spec_buttons_below(a | b, n) =~= spec_buttons_below(a, n) + spec_buttons_below(b, n));
            }
        }
    }
}

/// When every set bit of `a` lies below bit `k` and every set bit of `b`
/// at or above it, decoding `a | b` gives the inputs of `a` followed by
/// those of `b`.
pub proof fn lemma_buttons_concat(a: u32, b: u32, k: u32)
    requires
        k <= 32,
        (a as u64) >> (k as u64) == 0u64,
        (b as u64) & (((1u64 << (k as u64)) - 1u64) as u64) == 0u64,
    ensures
        spec_get_buttons(a | b) == spec_get_buttons(a) + spec_get_buttons(b),
{
    lemma_buttons_below_concat(a, b, k, BUTTON_COUNT as nat);
}

/// A response yields events exactly when it is a button event in which some
/// button that gives an input is pressed.
pub proof fn lemma_events_iff_button_pressed(response: Seq<u8>)
    requires
        spec_response_well_formed(response),
    ensures
        spec_events_from_response(response) is Some <==> (response[0] == RESPONSE_BUTTON_EVENT
            && spec_response_button_bits(response) & INPUT_BUTTON_MASK != 0),
{
    lemma_no_buttons_iff_no_bits(spec_response_button_bits(response));
}

/// The button bits of a button event are bytes 2 to 5 of the response read
/// as a little-endian `u32`: byte 2 holds bits 0 to 7, byte 3 bits 8 to 15,
/// byte 4 bits 16 to 23 and byte 5 bits 24 to 31.
pub proof fn lemma_button_bits_little_endian(response: Seq<u8>)
    requires
        response.len() >= 6,
    ensures
        spec_response_button_bits(response) == (response[2] as u32) | ((response[3] as u32)
            << 8u32) | ((response[4] as u32) << 16u32) | ((response[5] as u32) << 24u32),
{
    let b2 = response[2];
    let b3 = response[3];
    let b4 = response[4];
    let b5 = response[5];
    assert((b2 + 0x100 * b3 + 0x1_0000 * b4 + 0x100_0000 * b5) as u32 == (b2 as u32) | ((
    b3 as u32) << 8u32) | ((b4 as u32) << 16u32) | ((b5 as u32) << 24u32)) by (bit_vector);
}

/// A button event is decoded from its four button bytes read little
/// endian: its events are exactly one press per input of the pressed
/// buttons, in button order, and there are none when no button that gives
/// an input is pressed.
pub proof fn lemma_button_event_decodes_little_endian_bits(response: Seq<u8>)
    requires
        spec_response_well_formed(response),
        response[0] == RESPONSE_BUTTON_EVENT,
    ensures
        ({
            let bits = (response[2] as u32) | ((response[3] as u32) << 8u32) | ((response[4] as u32)
                << 16u32) | ((response[5] as u32) << 24u32);
            let inputs = spec_get_buttons(bits);
            &&& inputs.len() == 0 ==> spec_events_from_response(response) is None
            &&& inputs.len() != 0 ==> spec_events_from_response(response) == Some(
                inputs.map_values(|input: ControllerInput| DeviceEvent::ButtonPressed(input)),
            )
        }),
{
    lemma_button_bits_little_endian(response);
}

/// Each pressed button that gives an input, in whichever of the four button
/// bytes its bit lies, is reported as a press of its input.
pub proof fn lemma_pressed_button_reported(response: Seq<u8>, byte: u32, bit: u32)
    requires
        spec_response_well_formed(response),
        response[0] == RESPONSE_BUTTON_EVENT,
        byte < 4,
        bit < 8,
        8 * byte + bit < BUTTON_COUNT,
        (response[2 + byte as int] >> bit) & 1u8 == 1u8,
        spec_button_input((8 * byte + bit) as u32) is Some,
    ensures
        spec_events_from_response(response) matches Some(events) && events.contains(
            DeviceEvent::ButtonPressed(spec_button_input((8 * byte + bit) as u32).unwrap()),
        ),
{
    lemma_button_bits_little_endian(response);
    let b2 = response[2];
    let b3 = response[3];
    let b4 = response[4];
    let b5 = response[5];
    let bits = spec_response_button_bits(response);
    let index = (8 * byte + bit) as u32;
    assert(button_bit_set(bits, index)) by {
        let bb = response[2 + byte as int];
        assert(bb == if byte == 0 { b2 } else if byte == 1 { b3 } else if byte == 2 { b4 } else { b5 });
        assert(
            bits == (b2 as u32) | ((b3 as u32) << 8u32) | ((b4 as u32) << 16u32) | ((b5 as u32) << 24u32)
            && byte < 4u32 && bit < 8u32 && index == 8u32 * byte + bit
            && bb == (if byte == 0u32 { b2 } else if byte == 1u32 { b3 } else if byte == 2u32 { b4 } else { b5 })
            && (bb >> bit) & 1u8 == 1u8
            ==> (bits >> index) & 1u32 == 1u32
        ) by (bit_vector);
    }
    lemma_buttons_reported_exactly(bits);
    let inputs = spec_get_buttons(bits);
    assert(inputs.contains(spec_button_input(index).unwrap()));
    let k = choose|k: int| 0 <= k < inputs.len() && inputs[k] == spec_button_input(index).unwrap();
    let events = inputs.map_values(|input: ControllerInput| DeviceEvent::ButtonPressed(input));
    assert(events[k] == DeviceEvent::ButtonPressed(spec_button_input(index).unwrap()));
}

/// A Steam Controller and the state of its HID device.
pub struct SteamController {
    state: DeviceState,
}

impl SteamController {
    pub closed spec fn spec_state(&self) -> &DeviceState {
        &self.state
    }

    /// Returns the complete packet to disable "lizard mode".
    /// Has to be sent frequently to keep it disabled.
    pub fn get_disable_lizard_mode_packet() -> (packet: Vec<u8>)
        ensures
            packet@ == spec_disable_lizard_mode_packet(),
    {
        Self::decorate_packet(SET_SETTING_CMD, vec![0x09, 0x00, 0x00])
    }

    /// Initially disables the "lizard mode" and constructs the controller.
    pub fn new_from_state(state: DeviceState) -> (res: Self)
        ensures
            res.spec_state().spec_properties() == state.spec_properties(),
            res.spec_state().pending_reports() == state.pending_reports().push(
                spec_disable_lizard_mode_packet(),
            ),
    {
        let mut state = state;
        let packet = SteamController::get_disable_lizard_mode_packet();
        state.write_hid_report(packet.as_slice());
        Self { state }
    }

    /// Builds a packet based on a given command and a payload.
    /// Basic structure: feature report flag, command, size of payload, payload.
    pub fn decorate_packet(command: u8, payload: Vec<u8>) -> (packet: Vec<u8>)
        requires
            payload@.len() <= MAX_PAYLOAD_LEN,
        ensures
            packet@ == spec_decorate_packet(command, payload@),
            packet@.len() == PACKET_LEN,
    {
        let ghost original = payload@;
        let mut payload = payload;
        let mut packet = vec![FEATURE_REPORT, command, payload.len() as u8];
        packet.append(&mut payload);
        let ghost filled = packet@;
        assert(filled =~= seq![FEATURE_REPORT, command, original.len() as u8] + original);
        while packet.len() < PACKET_LEN
            invariant
                filled == seq![FEATURE_REPORT, command, original.len() as u8] + original,
                original.len() <= MAX_PAYLOAD_LEN,
                filled.len() <= packet@.len() <= PACKET_LEN,
                packet@.subrange(0, filled.len() as int) == filled,
                forall|i: int| filled.len() <= i < packet@.len() ==> packet@[i] == 0u8,
            decreases PACKET_LEN - packet@.len(),
        {
            packet.push(0x00);
            assert(packet@.subrange(0, filled.len() as int) =~= filled);
        }
        assert(packet@ =~= spec_decorate_packet(command, original));
        packet
    }

    /// The inputs of the pressed buttons, in button order; bits that stand
    /// for no button, and the capacitive touches, give no input.
    pub fn get_buttons(buttons_bits: u32) -> (inputs: Vec<ControllerInput>)
        ensures
            inputs@ == spec_get_buttons(buttons_bits),
    {
        let mut inputs: Vec<ControllerInput> = Vec::new();
        let mut index: u32 = 0;
        while index < BUTTON_COUNT
            invariant
                index <= BUTTON_COUNT,
                inputs@ == spec_buttons_below(buttons_bits, index as nat),
            decreases BUTTON_COUNT - index,
        {
            if (buttons_bits >> index) & 1u32 == 1u32 {
                if let Some(input) = button_input(index) {
                    inputs.push(input);
                }
            }
            index = index + 1;
        }
        inputs
    }

    /// The events that a response of the controller reports: a button
    /// event reports one press per pressed button, anything else nothing.
    pub fn get_event_from_device_response(&self, response: &[u8]) -> (events: Option<Vec<DeviceEvent>>)
        requires
            spec_response_well_formed(response@),
        ensures
            match events {
                Some(e) => spec_events_from_response(response@) == Some(e@),
                None => spec_events_from_response(response@) is None,
            },
    {
        let mut events: Vec<DeviceEvent> = Vec::new();
        if response[0] == RESPONSE_BUTTON_EVENT {
            let button_bits: u32 = response[2] as u32 + 0x100u32 * (response[3] as u32)
                + 0x1_0000u32 * (response[4] as u32) + 0x100_0000u32 * (response[5] as u32);
            let inputs = Self::get_buttons(button_bits);
            let mut i: usize = 0;
            while i < inputs.len()
                invariant
                    i <= inputs@.len(),
                    events@ == inputs@.subrange(0, i as int).map_values(
                        |input: ControllerInput| DeviceEvent::ButtonPressed(input),
                    ),
                decreases inputs@.len() - i,
            {
                events.push(DeviceEvent::ButtonPressed(inputs[i]));
                i = i + 1;
                assert(events@ =~= inputs@.subrange(0, i as int).map_values(
                    |input: ControllerInput| DeviceEvent::ButtonPressed(input),
                ));
            }
            assert(inputs@.subrange(0, inputs@.len() as int) =~= inputs@);
        }
        if events.len() == 0 {
            None
        } else {
            Some(events)
        }
    }

    pub fn get_device_state(&self) -> (state: &DeviceState)
        ensures
            state == self.spec_state(),
    {
        &self.state
    }

    pub fn get_device_state_mut(&mut self) -> (state: &mut DeviceState)
        ensures
            *state == *old(self).spec_state(),
            *final(self).spec_state() == *final(state),
    {
        &mut self.state
    }

    /// The controller may be refreshed by only reading what it sends.
    pub fn allow_passive_refresh(&mut self) -> (allowed: bool)
        ensures
            allowed,
            *final(self) == *old(self),
    {
        true
    }
}

} // verus!
