//! Body identities and the "no body" sentinel.

use vstd::prelude::*;

verus! {

/// Bit pattern reserved for the sentinel identity that means "no body".
pub const INVALID_BODY_BITS: u64 = u64::MAX;

/// Identity of a pickable body: an opaque handle issued by the host scene.
/// The picking logic never interprets the bits; it only compares identities
/// and distinguishes real bodies from the reserved sentinel.
#[derive(Clone, Copy, PartialEq, Eq, Structural, Debug)]
pub struct BodyId {
    pub bits: u64,
}

impl BodyId {
    /// True when this identity denotes an actual body rather than the sentinel.
    pub open spec fn spec_valid(self) -> bool {
        self.bits != INVALID_BODY_BITS
    }

    /// The sentinel identity.
    pub open spec fn spec_invalid() -> BodyId {
        BodyId { bits: INVALID_BODY_BITS }
    }

    /// Handle for the body with the given bits.
    pub fn new(bits: u64) -> (id: BodyId)
        requires
            bits != INVALID_BODY_BITS,
        ensures
            id.bits == bits,
            id.spec_valid(),
    {
        BodyId { bits }
    }

    /// The sentinel identity, meaning "no body".
    pub fn invalid() -> (id: BodyId)
        ensures
            id == BodyId::spec_invalid(),
            !id.spec_valid(),
    {
        BodyId { bits: INVALID_BODY_BITS }
    }

    /// Whether this identity denotes an actual body.
    pub fn is_valid(&self) -> (r: bool)
        ensures
            r == self.spec_valid(),
    {
        self.bits != INVALID_BODY_BITS
    }

    /// Overwrite this slot with the sentinel.
    pub fn invalidate(&mut self)
        ensures
            *final(self) == BodyId::spec_invalid(),
            !final(self).spec_valid(),
    {
        self.bits = INVALID_BODY_BITS;
    }
}

} // verus!
