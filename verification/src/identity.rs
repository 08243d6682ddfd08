//! Instance identity: the key under which an instance is known wherever only
//! its native handle is at hand.

use std::collections::hash_map::DefaultHasher;
use std::hash::{Hash, Hasher};
use vstd::bytes::{spec_u64_to_le_bytes, u64_to_le_bytes};
use vstd::prelude::*;
use vstd::std_specs::hash::DefaultHasherAdditionalSpecFns;

verus! {

/// The identity of the instance whose native handle has the bit pattern
/// `handle`: the digest of a default hasher that was fed, in one write, the
/// eight little-endian bytes of the handle.
///
/// The identity is a function of the handle alone, so every thread that
/// holds the handle derives the same key.
pub open spec fn identity_of(handle: usize) -> u64 {
    DefaultHasher::spec_finish(seq![spec_u64_to_le_bytes(handle as u64)])
}

/// Computes the identity of the instance behind `t`.
pub fn calculate_hash(t: usize) -> (key: u64)
    ensures
        key == identity_of(t),
{
    let mut s = DefaultHasher::new();
    let bytes = u64_to_le_bytes(t as u64);
    s.write(bytes.as_slice());
    proof {
        assert(s@ =~= seq![spec_u64_to_le_bytes(t as u64)]);
    }
    s.finish()
}

/// Session equality as the engine asks for it: two sessions are the same
/// exactly when their handles are.
pub fn lwm2m_session_is_equal(session1: usize, session2: usize) -> (same: bool)
    ensures
        same <==> session1 == session2,
{
    session1 == session2
}

/// Assumed of `<usize as Hash>::hash`, which feeds an integer to a hasher:
/// that it may be called with any integer and any hasher. Nothing is claimed
/// of what the hasher becomes.
pub assume_specification<H: Hasher>[ <usize as Hash>::hash::<H> ](value: &usize, state: &mut H);

} // verus!
