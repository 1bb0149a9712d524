//! Supervisor core for a single managed backend server process.
//!
//! The library resolves which executable to treat as the backend, builds the
//! candidate paths an existence probe must test, renders a preflight verdict,
//! and drives the start/stop/status state machine over the managed child.
//! All operating-system effects (filesystem probes, environment variables,
//! spawning and killing the child) are performed by the surrounding shell,
//! which hands their outcomes to these functions as plain values.

pub mod preflight;
pub mod prober;
pub mod resolve;
pub mod supervisor;
pub mod text;

use vstd::prelude::*;

verus! {

/// The view of an optional owned string, for use in contracts.
pub open spec fn opt_str_view(o: Option<String>) -> Option<Seq<char>> {
    match o {
        Option::Some(s) => Option::Some(s@),
        Option::None => Option::None,
    }
}

} // verus!
