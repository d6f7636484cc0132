//! The command channel of one controller thread: the two halves of one std
//! channel, each carrying the same pairing tag, and the sender with the
//! commands it handed to the channel.

use std::sync::mpsc::{Receiver, Sender};

use vstd::prelude::*;

use crate::devices::DeviceEvent;

verus! {

/// The sending half of a std channel.
#[verifier::external_type_specification]
#[verifier::external_body]
#[verifier::reject_recursive_types(T)]
pub struct ExSender<T>(Sender<T>);

/// The receiving half of a std channel.
#[verifier::external_type_specification]
#[verifier::external_body]
#[verifier::reject_recursive_types(T)]
pub struct ExReceiver<T>(Receiver<T>);

/// The sending half of a command channel.
pub struct CommandSender {
    tx: Sender<DeviceEvent>,
    pairing: Ghost<int>,
    sent: Ghost<Seq<DeviceEvent>>,
}

/// The receiving half of a command channel.
pub struct CommandReceiver {
    rx: Receiver<DeviceEvent>,
    pairing: Ghost<int>,
}

impl CommandSender {
    /// The pairing tag of this half: the two halves made by one call of
    /// `new_command_channel` carry the same tag.
    pub closed spec fn pairing_tag(&self) -> int {
        self.pairing@
    }

    /// The commands that the channel accepted from this half, in the order
    /// they were sent.
    pub closed spec fn sent(&self) -> Seq<DeviceEvent> {
        self.sent@
    }

    /// Calls `Sender::send` with `command`. When the channel accepts it, it
    /// is recorded as sent; when the receiving half is gone, the std error
    /// hands the command back, and it is returned.
    #[verifier::external_body]
    pub(crate) fn send(&mut self, command: DeviceEvent) -> (res: Result<(), DeviceEvent>)
        ensures
            final(self).pairing_tag() == old(self).pairing_tag(),
            res is Ok ==> final(self).sent() == old(self).sent().push(command),
            res matches Err(returned) ==> returned == command && final(self).sent() == old(
                self,
            ).sent(),
    {
        match self.tx.send(command) {
            Ok(()) => {
                self.sent = Ghost(self.sent@.push(command));
                Ok(())
            },
            Err(err) => Err(err.0),
        }
    }
}

impl CommandReceiver {
    /// The pairing tag of this half: the two halves made by one call of
    /// `new_command_channel` carry the same tag.
    pub closed spec fn pairing_tag(&self) -> int {
        self.pairing@
    }

    /// Calls `Receiver::try_iter` and collects what it yields: the commands
    /// that wait in the channel. Which commands wait depends on other
    /// threads, so nothing is claimed of them.
    #[verifier::external_body]
    pub(crate) fn drain(&self) -> (commands: Vec<DeviceEvent>) {
        self.rx.try_iter().collect()
    }
}

/// Calls `std::sync::mpsc::channel`: the two halves it returns belong to
/// one channel, so what the sender sends, this receiver receives; both carry
/// the same pairing tag, and nothing has been sent yet. Nothing else is
/// claimed: what a receiver gets depends on what other threads send.
#[verifier::external_body]
pub(crate) fn new_command_channel() -> (halves: (CommandSender, CommandReceiver))
    ensures
        halves.0.pairing_tag() == halves.1.pairing_tag(),
        halves.0.sent() == Seq::<DeviceEvent>::empty(),
{
    let (tx, rx) = std::sync::mpsc::channel();
    (
        CommandSender { tx, pairing: Ghost(0int), sent: Ghost(Seq::empty()) },
        CommandReceiver { rx, pairing: Ghost(0int) },
    )
}

} // verus!
