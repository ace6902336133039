//! Lifecycle status of a bot and its stable numeric codes.

use vstd::prelude::*;

verus! {

/// Advisory lifecycle state of a bot.
#[derive(Clone, Copy, Debug, PartialEq, Eq, Structural)]
pub enum BotStatus {
    Stopped,
    Running,
    Paused,
    /// No status yet: the state of a bot that was only created.
    Unset,
}

impl BotStatus {
    /// The number under which this status is reported to the outside.
    pub open spec fn code(self) -> nat {
        match self {
            BotStatus::Unset => 0,
            BotStatus::Running => 1,
            BotStatus::Stopped => 2,
            BotStatus::Paused => 3,
        }
    }

    /// The status reported under `code`, if there is one.
    pub open spec fn with_code(code: nat) -> Option<BotStatus> {
        if code == 0 {
            Some(BotStatus::Unset)
        } else if code == 1 {
            Some(BotStatus::Running)
        } else if code == 2 {
            Some(BotStatus::Stopped)
        } else if code == 3 {
            Some(BotStatus::Paused)
        } else {
            None
        }
    }

    /// Returns the stable numeric code of this status.
    pub fn as_uint32(&self) -> (code: u32)
        ensures
            code == self.code(),
            code <= 3,
    {
        match self {
            BotStatus::Unset => 0,
            BotStatus::Running => 1,
            BotStatus::Stopped => 2,
            BotStatus::Paused => 3,
        }
    }

    /// Every status is found again from its code, so no two statuses share one.
    pub proof fn code_identifies_status(status: BotStatus)
        ensures
            BotStatus::with_code(status.code()) == Some(status),
    {
    }

    /// A code that names a status is the code of that status.
    pub proof fn status_keeps_code(code: nat)
        requires
            BotStatus::with_code(code) is Some,
        ensures
            BotStatus::with_code(code).unwrap().code() == code,
    {
    }
}

} // verus!
