//! Process: what the plugin answers after processing a block.
use vstd::prelude::*;
use vstd::std_specs::convert::FromSpecImpl;

use crate::ffi::{
    clap_process_status, CLAP_PROCESS_CONTINUE, CLAP_PROCESS_CONTINUE_IF_NOT_QUIET,
    CLAP_PROCESS_SLEEP, CLAP_PROCESS_TAIL,
};

verus! {

/// The status a plugin reports after processing a block.
#[derive(Debug, Copy, Clone, PartialEq, Eq, Structural)]
pub enum Status {
    Continue,
    ContinueIfNotQuiet,
    Tail,
    Sleep,
}

/// The CLAP process status of a status.
pub open spec fn spec_process_status(value: Status) -> clap_process_status {
    match value {
        Status::Continue => CLAP_PROCESS_CONTINUE,
        Status::ContinueIfNotQuiet => CLAP_PROCESS_CONTINUE_IF_NOT_QUIET,
        Status::Tail => CLAP_PROCESS_TAIL,
        Status::Sleep => CLAP_PROCESS_SLEEP,
    }
}

impl From<Status> for clap_process_status {
    fn from(value: Status) -> (r: clap_process_status)
        ensures
            r == spec_process_status(value),
    {
        match value {
            Status::Continue => CLAP_PROCESS_CONTINUE,
            Status::ContinueIfNotQuiet => CLAP_PROCESS_CONTINUE_IF_NOT_QUIET,
            Status::Tail => CLAP_PROCESS_TAIL,
            Status::Sleep => CLAP_PROCESS_SLEEP,
        }
    }
}

impl FromSpecImpl<Status> for clap_process_status {
    open spec fn obeys_from_spec() -> bool {
        true
    }

    open spec fn from_spec(value: Status) -> clap_process_status {
        spec_process_status(value)
    }
}

/// Each status is the CLAP process status it is named after, by its value in
/// the C API (zero being the error status).
pub proof fn lemma_status_values()
    ensures
        spec_process_status(Status::Continue) == 1,
        spec_process_status(Status::ContinueIfNotQuiet) == 2,
        spec_process_status(Status::Tail) == 3,
        spec_process_status(Status::Sleep) == 4,
{
}

/// Distinct statuses give distinct CLAP statuses, none of them the error
/// status (zero).
pub proof fn lemma_status_distinct(a: Status, b: Status)
    ensures
        spec_process_status(a) != crate::ffi::CLAP_PROCESS_ERROR,
        a != b ==> spec_process_status(a) != spec_process_status(b),
{
}

} // verus!
