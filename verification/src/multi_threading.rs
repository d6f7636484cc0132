//! The channel between a controller thread and the front end: commands go
//! to the controller thread, the latest properties come back.

use std::sync::Arc;

use vstd::prelude::*;

use crate::command_channel::{new_command_channel, CommandReceiver, CommandSender};
use crate::devices::{DeviceEvent, DeviceProperties};
use crate::shared_properties::{
    load_properties, new_properties_cell, share_cell, PropertiesCell, PropertiesPublisher,
};

verus! {

/// Used by a controller thread to receive commands from the front end and
/// to publish its properties.
pub struct ControllerReceiver {
    command_rx: CommandReceiver,
    state: PropertiesPublisher,
}

/// Used by the front end to send commands to a controller thread and to
/// read the properties it published.
pub struct ControllerSender {
    command_tx: CommandSender,
    state: Arc<PropertiesCell>,
}

impl ControllerReceiver {
    /// The properties cell that this receiver publishes to.
    pub closed spec fn properties_cell(&self) -> Arc<PropertiesCell> {
        self.state.cell()
    }

    /// The pairing tag of the command channel that this receiver receives from.
    pub closed spec fn command_channel(&self) -> int {
        self.command_rx.pairing_tag()
    }

    /// The properties this receiver last published; before any, the value
    /// the cell started with.
    pub closed spec fn last_published(&self) -> DeviceProperties {
        self.state.last_published()
    }

    /// Receives the commands that wait, without blocking.
    pub fn receive_commands(&mut self) -> (commands: Vec<DeviceEvent>)
        ensures
            final(self).properties_cell() == old(self).properties_cell(),
            final(self).command_channel() == old(self).command_channel(),
            final(self).last_published() == old(self).last_published(),
    {
        self.command_rx.drain()
    }

    /// Publishes `properties` for the front end without blocking: when the
    /// cell is locked elsewhere, nothing is published; the result tells which.
    pub fn try_update_state(&mut self, properties: &DeviceProperties) -> (published: bool)
        ensures
            final(self).properties_cell() == old(self).properties_cell(),
            final(self).command_channel() == old(self).command_channel(),
            published ==> final(self).last_published() == *properties,
            !published ==> final(self).last_published() == old(self).last_published(),
    {
        self.state.try_publish(*properties)
    }
}

impl ControllerSender {
    /// The properties cell that this sender reads from.
    pub closed spec fn properties_cell(&self) -> Arc<PropertiesCell> {
        self.state
    }

    /// The pairing tag of the command channel that this sender sends on.
    pub closed spec fn command_channel(&self) -> int {
        self.command_tx.pairing_tag()
    }

    /// The commands the channel accepted from this sender, in send order.
    pub closed spec fn sent_commands(&self) -> Seq<DeviceEvent> {
        self.command_tx.sent()
    }

    /// Sends a command to the controller thread; when that thread is gone,
    /// the command comes back as the error.
    pub fn send_command(&mut self, command: DeviceEvent) -> (res: Result<(), DeviceEvent>)
        ensures
            res is Ok ==> final(self).sent_commands() == old(self).sent_commands().push(command),
            res matches Err(returned) ==> returned == command && final(self).sent_commands()
                == old(self).sent_commands(),
            final(self).properties_cell() == old(self).properties_cell(),
            final(self).command_channel() == old(self).command_channel(),
    {
        self.command_tx.send(command)
    }

    /// The latest properties that the controller thread published, waiting
    /// for the lock; `None` when a thread panicked while holding it.
    pub fn get_latest_properties(&self) -> (properties: Option<DeviceProperties>) {
        load_properties(&self.state)
    }
}

/// Creates a sender and receiver pair that are linked: commands sent on the
/// sender reach the receiver, and both share one properties cell, which
/// starts with no known state.
pub fn create_controller_channel() -> (pair: (ControllerSender, ControllerReceiver))
    ensures
        pair.0.command_channel() == pair.1.command_channel(),
        pair.0.sent_commands() == Seq::<DeviceEvent>::empty(),
        pair.0.properties_cell() == pair.1.properties_cell(),
        pair.0.properties_cell().initial_value() == DeviceProperties::new_spec(0, 0, None),
        pair.1.last_published() == DeviceProperties::new_spec(0, 0, None),
{
    let (command_tx, command_rx) = new_command_channel();
    let properties = Arc::new(new_properties_cell(DeviceProperties::new(0, 0, None)));
    let sender_state = share_cell(&properties);
    let receiver_state = share_cell(&properties);
    (
        ControllerSender { command_tx, state: sender_state },
        ControllerReceiver { command_rx, state: PropertiesPublisher::new(receiver_state) },
    )
}

} // verus!
