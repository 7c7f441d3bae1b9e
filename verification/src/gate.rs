//! The simulation gate: a mutation that is only simulated builds its
//! command and never sends it.
use crate::command::{Command, FieldName, FieldValueView};
use vstd::prelude::*;

verus! {

/// What follows the building of a mutation's command.
#[derive(Debug, PartialEq, Eq)]
pub enum Step<T> {
    /// The command is to be sent, and its reply decides the result.
    Dispatch(Command),
    /// A dry run: the command was built and is not to be sent. The call has
    /// ended with the placeholder, which says nothing of the cluster.
    Simulated(Command, T),
}

impl<T> Step<T> {
    /// The command that was built.
    pub open spec fn command_view(self) -> Seq<(FieldName, FieldValueView)> {
        match self {
            Step::Dispatch(command) => command@,
            Step::Simulated(command, _) => command@,
        }
    }

    /// The result that the call has ended with, where nothing is sent.
    pub open spec fn placeholder(self) -> Option<T> {
        match self {
            Step::Dispatch(_) => None,
            Step::Simulated(_, value) => Some(value),
        }
    }

    /// The command that was built.
    pub fn command(&self) -> (r: &Command)
        ensures
            r@ == self.command_view(),
    {
        match self {
            Step::Dispatch(command) => command,
            Step::Simulated(command, _) => command,
        }
    }
}

/// Decides what follows the building of a mutation's command: sending it,
/// or, in a dry run, ending the call with `placeholder`.
pub fn gate<T>(command: Command, simulate: bool, placeholder: T) -> (s: Step<T>)
    ensures
        s.command_view() == command@,
        s.placeholder() == if simulate {
            Some(placeholder)
        } else {
            None
        },
{
    if simulate {
        Step::Simulated(command, placeholder)
    } else {
        Step::Dispatch(command)
    }
}

} // verus!
