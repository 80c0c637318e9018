//! The single-slot command channel between the decision loop and the
//! actuator task.
//!
//! Capacity is exactly one pending command. Sending into an occupied slot
//! discards the new command and reports non-delivery; it never overwrites
//! the pending one. Receiving never suspends: it takes the pending command
//! if there is one and reports nothing otherwise.
use vstd::prelude::*;

verus! {

/// The desired actuator state, as posted by the decision loop.
#[derive(Clone, Copy, Debug, PartialEq, Eq, Structural)]
pub struct ActuatorCommand {
    /// True asks the actuator to beep; false asks it to fall silent.
    pub active: bool,
}

/// A mailbox holding at most one unconsumed [`ActuatorCommand`].
pub struct CommandMailbox {
    slot: Option<ActuatorCommand>,
}

impl CommandMailbox {
    /// The command currently pending in the slot, if any.
    pub closed spec fn pending(self) -> Option<ActuatorCommand> {
        self.slot
    }

    /// A fresh mailbox starts with nothing pending.
    pub fn new() -> (m: Self)
        ensures
            m.pending() is None,
    {
        CommandMailbox { slot: None }
    }

    /// Posts a command without waiting. Into an empty slot the command is
    /// stored and delivery is reported; into a full slot the new command is
    /// discarded and the pending one is left exactly as it was.
    pub fn try_send(&mut self, cmd: ActuatorCommand) -> (delivered: bool)
        ensures
            old(self).pending() is None ==> delivered && final(self).pending() == Some(cmd),
            old(self).pending() is Some ==> !delivered && final(self).pending() == old(
                self,
            ).pending(),
    {
        match self.slot {
            None => {
                self.slot = Some(cmd);
                true
            },
            Some(_) => false,
        }
    }

    /// Takes the pending command without waiting: returns it and empties the
    /// slot, or reports that nothing was pending.
    pub fn try_receive(&mut self) -> (r: Option<ActuatorCommand>)
        ensures
            r == old(self).pending(),
            final(self).pending() is None,
    {
        let r = self.slot;
        self.slot = None;
        r
    }
}

} // verus!
