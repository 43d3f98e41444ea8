//! Processes of a machine and their heartbeat status.

use vstd::prelude::*;

use crate::attributes::{
    opt_chars,
};
use crate::certificate::Timestamp;
use crate::text::{chars_eq_str, chars_of, to_string};

verus! {

/// Whether a process is still sending heartbeats.
#[derive(Debug, Clone, Copy, PartialEq, Eq, Structural)]
pub enum ProcessStatus {
    Alive,
    Dead,
}

impl ProcessStatus {
    /// The code the API uses for the value.
    pub open spec fn code(self) -> Seq<char> {
        match self {
            ProcessStatus::Alive => "Alive"@,
            ProcessStatus::Dead => "Dead"@,
        }
    }

    /// The code the API uses for the value.
    pub fn as_str(self) -> (r: &'static str)
        ensures
            r@ == self.code(),
    {
        match self {
            ProcessStatus::Alive => "Alive",
            ProcessStatus::Dead => "Dead",
        }
    }

    /// The value whose code is exactly `c`.
    pub open spec fn with_code(c: Seq<char>) -> Option<Self> {
        if c == "Alive"@ {
            Some(ProcessStatus::Alive)
        } else if c == "Dead"@ {
            Some(ProcessStatus::Dead)
        } else {
            None
        }
    }

    /// The value whose code is `code`, if any.
    pub fn from_code(code: &str) -> (r: Option<Self>)
        ensures
            r == Self::with_code(code@),
    {
        let v = chars_of(code);
        let c = v.as_slice();
        if chars_eq_str(c, "Alive") {
            Some(ProcessStatus::Alive)
        } else if chars_eq_str(c, "Dead") {
            Some(ProcessStatus::Dead)
        } else {
            None
        }
    }
}

/// Reading the code of a ProcessStatus gives the value back.
pub proof fn law_process_status_code_round_trip(x: ProcessStatus)
    ensures
        ProcessStatus::with_code(x.code()) == Some(x),
{
    reveal_strlit("Alive");
    reveal_strlit("Dead");
    match x {
        ProcessStatus::Alive => {
        },
        ProcessStatus::Dead => {
            assert("Dead"@.len() != "Alive"@.len());
        },
    }
}

/// The code of an optional ProcessStatus.
pub fn process_status_text(e: Option<ProcessStatus>) -> (r: Option<String>)
    ensures
        opt_chars(r) == match e {
            Some(x) => Some(x.code()),
            None => None,
        },
{
    match e {
        Some(x) => Some(to_string(x.as_str())),
        None => None,
    }
}

/// A process of a machine, kept alive by heartbeats.
#[derive(Debug, Clone)]
pub struct Process {
    pub id: String,
    pub pid: String,
    pub status: ProcessStatus,
    /// The heartbeat interval, in seconds.
    pub interval: i32,
    pub created: Timestamp,
    pub updated: Timestamp,
    pub machine_id: String,
}

} // verus!
