//! Selectors of a call: the feature subsystem it targets and the verb within it.

use vstd::prelude::*;

verus! {

/// The feature subsystem a call targets.
#[derive(Clone, Copy, Debug, PartialEq, Eq, Structural)]
pub enum Intention {
    Socket,
    Stationary,
    Drag,
    Coordination,
}

impl Intention {
    /// The stable integer that stands for this intention on the wire.
    pub open spec fn spec_code(self) -> u32 {
        match self {
            Intention::Socket => 1,
            Intention::Stationary => 2,
            Intention::Drag => 3,
            Intention::Coordination => 4,
        }
    }

    /// The stable integer that stands for this intention on the wire.
    pub fn code(&self) -> (r: u32)
        ensures
            r == self.spec_code(),
    {
        match self {
            Intention::Socket => 1,
            Intention::Stationary => 2,
            Intention::Drag => 3,
            Intention::Coordination => 4,
        }
    }

    /// The intention that `code` stands for, if any.
    pub fn from_code(code: u32) -> (r: Option<Intention>)
        ensures
            r matches Some(i) ==> i.spec_code() == code,
            r is None ==> forall|i: Intention| i.spec_code() != code,
    {
        match code {
            1 => Some(Intention::Socket),
            2 => Some(Intention::Stationary),
            3 => Some(Intention::Drag),
            4 => Some(Intention::Coordination),
            _ => None,
        }
    }
}

/// The verb of a call. The verbs that address one watch, parameter or control
/// channel carry its numeric id; the others carry none.
#[derive(Clone, Copy, Debug, PartialEq, Eq, Structural)]
pub enum Operation {
    Enable,
    Disable,
    Start,
    Stop,
    AddWatch(u32),
    RemoveWatch(u32),
    SetParam(u32),
    GetParam(u32),
    Control(u32),
}

impl Operation {
    /// The id this operation addresses, for the verbs that take one.
    pub open spec fn spec_id(self) -> Option<u32> {
        match self {
            Operation::AddWatch(id) => Some(id),
            Operation::RemoveWatch(id) => Some(id),
            Operation::SetParam(id) => Some(id),
            Operation::GetParam(id) => Some(id),
            Operation::Control(id) => Some(id),
            _ => None,
        }
    }

    /// The id this operation addresses, for the verbs that take one.
    pub fn id(&self) -> (r: Option<u32>)
        ensures
            r == self.spec_id(),
    {
        match self {
            Operation::AddWatch(id) => Some(*id),
            Operation::RemoveWatch(id) => Some(*id),
            Operation::SetParam(id) => Some(*id),
            Operation::GetParam(id) => Some(*id),
            Operation::Control(id) => Some(*id),
            _ => None,
        }
    }
}

} // verus!
