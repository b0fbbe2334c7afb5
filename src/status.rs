use vstd::prelude::*;

verus! {

/// The stack-switch engine's process-wide indicator.
#[derive(Clone, Copy, Debug, PartialEq, Eq, Structural)]
pub enum EngineStatus {
    /// No capture or replay is under way.
    Normal,
    /// The call stack is being recorded and unwound.
    CapturingNow,
    /// A recorded call stack is being re-materialised.
    ReplayingNow,
}

pub open spec fn status_of_code(code: u32) -> Option<EngineStatus> {
    if code == 0 {
        Some(EngineStatus::Normal)
    } else if code == 1 {
        Some(EngineStatus::CapturingNow)
    } else if code == 2 {
        Some(EngineStatus::ReplayingNow)
    } else {
        None
    }
}

impl EngineStatus {
    /// Reads the engine's raw state word; `None` for a value outside the
    /// three the engine defines, which breaks its contract.
    pub fn from_code(code: u32) -> (r: Option<EngineStatus>)
        ensures
            r == status_of_code(code),
    {
        match code {
            0 => Some(EngineStatus::Normal),
            1 => Some(EngineStatus::CapturingNow),
            2 => Some(EngineStatus::ReplayingNow),
            _ => None,
        }
    }

    pub open spec fn spec_code(self) -> u32 {
        match self {
            EngineStatus::Normal => 0,
            EngineStatus::CapturingNow => 1,
            EngineStatus::ReplayingNow => 2,
        }
    }

    pub fn code(self) -> (r: u32)
        ensures
            r == self.spec_code(),
    {
        match self {
            EngineStatus::Normal => 0,
            EngineStatus::CapturingNow => 1,
            EngineStatus::ReplayingNow => 2,
        }
    }
}

/// Decoding the engine's state word inverts encoding it, and a word decodes
/// to a status exactly when it is one of the three codes.
pub proof fn lemma_code_round_trip(s: EngineStatus, code: u32)
    ensures
        status_of_code(s.spec_code()) == Some(s),
        status_of_code(code) is Some <==> code <= 2,
        status_of_code(code) is Some ==> status_of_code(code).unwrap().spec_code() == code,
{
}

} // verus!
