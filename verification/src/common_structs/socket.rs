//! The one signal a connection owner reports upward: the peer is gone and
//! the session must reconnect through its backoff policy.

use vstd::prelude::*;

verus! {

/// An unrecoverable transport condition. Transient "no data yet" reads are
/// not errors and are never reported as this.
#[derive(Clone, Copy, PartialEq, Eq, Structural, Debug)]
pub struct Disconnected;

} // verus!
