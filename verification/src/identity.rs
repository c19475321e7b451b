//! Opaque 32-byte identities.

use vstd::prelude::*;
use vstd::std_specs::cmp::PartialEqSpecImpl;

verus! {

/// An opaque identity: an administrator, a beneficiary, an asset or an
/// escrow. Two identities are the same when their bytes are.
#[derive(Clone, Copy, Debug)]
pub struct Identity {
    pub bytes: [u8; 32],
}

impl Identity {
    /// The null identity has all 32 bytes zero.
    pub open spec fn is_null_spec(&self) -> bool {
        forall|i: int| 0 <= i < 32 ==> self.bytes[i] == 0u8
    }

    /// The null identity, which stands for "nobody".
    pub fn null() -> (r: Identity)
        ensures
            r.is_null_spec(),
    {
        Identity { bytes: [0u8; 32] }
    }

    /// Wraps 32 raw bytes.
    pub fn from_bytes(bytes: [u8; 32]) -> (r: Identity)
        ensures
            r.bytes == bytes,
    {
        Identity { bytes }
    }

    /// The 32 raw bytes.
    pub fn to_bytes(&self) -> (r: [u8; 32])
        ensures
            r == self.bytes,
    {
        self.bytes
    }

    /// Whether this is the null identity.
    #[verifier::when_used_as_spec(is_null_spec)]
    pub fn is_null(&self) -> (r: bool)
        ensures
            r == self.is_null_spec(),
    {
        let mut i: usize = 0;
        while i < 32
            invariant
                i <= 32,
                forall|j: int| 0 <= j < i ==> self.bytes[j] == 0u8,
            decreases 32 - i,
        {
            if self.bytes[i] != 0 {
                return false;
            }
            i += 1;
        }
        true
    }
}

impl PartialEq for Identity {
    fn eq(&self, other: &Identity) -> (r: bool) {
        let mut i: usize = 0;
        while i < 32
            invariant
                i <= 32,
                forall|j: int| 0 <= j < i ==> self.bytes[j] == other.bytes[j],
            decreases 32 - i,
        {
            if self.bytes[i] != other.bytes[i] {
                return false;
            }
            i += 1;
        }
        assert(self.bytes =~= other.bytes);
        true
    }
}

impl PartialEqSpecImpl for Identity {
    open spec fn obeys_eq_spec() -> bool {
        true
    }

    open spec fn eq_spec(&self, other: &Identity) -> bool {
        *self == *other
    }
}

impl Eq for Identity {}

impl Default for Identity {
    fn default() -> (r: Identity)
        ensures
            r.is_null_spec(),
    {
        Identity::null()
    }
}

/// Identities with the same bytes are the same identity.
pub proof fn lemma_identity_by_bytes(a: Identity, b: Identity)
    requires
        forall|i: int| 0 <= i < 32 ==> a.bytes[i] == b.bytes[i],
    ensures
        a == b,
{
    assert(a.bytes =~= b.bytes);
}

/// There is one null identity.
pub proof fn lemma_null_is_unique(a: Identity, b: Identity)
    requires
        a.is_null_spec(),
        b.is_null_spec(),
    ensures
        a == b,
{
    lemma_identity_by_bytes(a, b);
}

} // verus!
