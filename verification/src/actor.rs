//! Actor identities.
//!
//! Every actor in the federation is addressed by an opaque, globally
//! unique identifier; the same identifier names the caller of an entry
//! point. The library holds the identifier as a plain integer key; the
//! host runtime owns the mapping between its own identity tokens and
//! these keys.

use vstd::prelude::*;

verus! {

/// Opaque identity of an actor: both a callee address and a caller
/// identity. Compared only for equality.
#[derive(Clone, Copy, Debug, PartialEq, Eq, Hash, Structural)]
pub struct ActorId {
    pub key: u64,
}

impl ActorId {
    pub fn new(key: u64) -> (r: ActorId)
        ensures
            r.key == key,
    {
        ActorId { key }
    }

    /// Identity comparison; actor identities have no other structure.
    pub fn equals(&self, other: &ActorId) -> (r: bool)
        ensures
            r == (*self == *other),
    {
        self.key == other.key
    }
}

} // verus!
