//! The data a device thread keeps about one physical controller.

use vstd::prelude::*;

use crate::virtual_controller::ControllerInput;

verus! {

/// An event reported by a device, or a command handed to a device thread.
#[derive(Debug, Clone, Copy, PartialEq, Eq, Structural)]
pub enum DeviceEvent {
    ButtonPressed(ControllerInput),
}

/// What the front end shows about one controller.
#[derive(Debug, Clone, Copy, PartialEq, Eq, Structural)]
pub struct DeviceProperties {
    pub battery_level: u8,
    pub charging_state: u8,
    /// `Some(true)` while the controller is connected, `Some(false)` while
    /// it is not, `None` when the state is unknown.
    pub connected: Option<bool>,
}

impl DeviceProperties {
    pub open spec fn new_spec(battery_level: u8, charging_state: u8, connected: Option<bool>) -> Self {
        DeviceProperties { battery_level, charging_state, connected }
    }

    pub fn new(battery_level: u8, charging_state: u8, connected: Option<bool>) -> (res: Self)
        ensures
            res == Self::new_spec(battery_level, charging_state, connected),
    {
        DeviceProperties { battery_level, charging_state, connected }
    }

    /// Whether the controller is known to be connected.
    pub open spec fn is_connected(self) -> bool {
        self.connected == Some(true)
    }
}

/// The state of one HID device: its properties, and the HID reports that
/// were written to it and wait to be sent out.
pub struct DeviceState {
    properties: DeviceProperties,
    outgoing_reports: Vec<Vec<u8>>,
}

impl DeviceState {
    /// The reports written so far and not yet sent, oldest first.
    pub closed spec fn pending_reports(&self) -> Seq<Seq<u8>> {
        self.outgoing_reports@.map_values(|r: Vec<u8>| r@)
    }

    pub closed spec fn spec_properties(&self) -> DeviceProperties {
        self.properties
    }

    /// A device state with the given properties and nothing written yet.
    pub fn new(properties: DeviceProperties) -> (res: Self)
        ensures
            res.spec_properties() == properties,
            res.pending_reports() == Seq::<Seq<u8>>::empty(),
    {
        let res = DeviceState { properties, outgoing_reports: Vec::new() };
        assert(res.pending_reports() =~= Seq::<Seq<u8>>::empty());
        res
    }

    pub fn properties(&self) -> (res: DeviceProperties)
        ensures
            res == self.spec_properties(),
    {
        self.properties
    }

    pub fn set_properties(&mut self, properties: DeviceProperties)
        ensures
            final(self).spec_properties() == properties,
            final(self).pending_reports() == old(self).pending_reports(),
    {
        self.properties = properties;
    }

    /// Writes a HID report to the device; it is sent out in the order written.
    pub fn write_hid_report(&mut self, report: &[u8])
        ensures
            final(self).spec_properties() == old(self).spec_properties(),
            final(self).pending_reports() == old(self).pending_reports().push(report@),
    {
        let mut copy: Vec<u8> = Vec::new();
        let mut i: usize = 0;
        while i < report.len()
            invariant
                i <= report@.len(),
                copy@ == report@.subrange(0, i as int),
            decreases report@.len() - i,
        {
            copy.push(report[i]);
            i = i + 1;
        }
        assert(copy@ =~= report@);
        self.outgoing_reports.push(copy);
        assert(self.pending_reports() =~= old(self).pending_reports().push(report@));
    }

    /// Hands out the reports that wait to be sent, oldest first, and forgets them.
    pub fn take_pending_reports(&mut self) -> (res: Vec<Vec<u8>>)
        ensures
            res@.map_values(|r: Vec<u8>| r@) == old(self).pending_reports(),
            final(self).pending_reports() == Seq::<Seq<u8>>::empty(),
            final(self).spec_properties() == old(self).spec_properties(),
    {
        let mut res: Vec<Vec<u8>> = Vec::new();
        std::mem::swap(&mut res, &mut self.outgoing_reports);
        assert(self.pending_reports() =~= Seq::<Seq<u8>>::empty());
        res
    }
}

} // verus!
