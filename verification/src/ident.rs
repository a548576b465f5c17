//! Request identifiers.
//!
//! Every observed request gets a fresh random identifier, a version-4 UUID,
//! which its start and end notifications share. The identifier is held as the
//! 128 bits of the UUID, most significant byte first.
use vstd::prelude::*;

verus! {

/// The bits of a UUID that hold its version and its variant.
pub const VERSION_AND_VARIANT: u128 = 0x0000_0000_0000_F000_C000_0000_0000_0000;

/// Those bits in a random (version 4) UUID of the RFC variant.
pub const RANDOM_RFC: u128 = 0x0000_0000_0000_4000_8000_0000_0000_0000;

/// `bits` are those of a version-4 UUID of the RFC variant.
pub open spec fn is_version_4(bits: u128) -> bool {
    bits & VERSION_AND_VARIANT == RANDOM_RFC
}

/// The identifier that correlates the two notifications of one request.
#[derive(Clone, Copy, PartialEq, Eq, Structural, Hash, Debug)]
pub struct RequestId {
    bits: u128,
}

/// `uuid::Uuid::new_v4`, read as a `u128`. Whatever the random source gave,
/// the crate overwrites the version and variant bits, so the result is a
/// version-4 UUID of the RFC variant. Nothing else is known of it.
#[verifier::external_body]
fn random_uuid_bits() -> (bits: u128)
    ensures
        is_version_4(bits),
{
    uuid::Uuid::new_v4().as_u128()
}

impl RequestId {
    #[verifier::type_invariant]
    spec fn well_formed(self) -> bool {
        is_version_4(self.bits)
    }

    /// The 128 bits of the identifier.
    pub closed spec fn bits(self) -> u128 {
        self.bits
    }

    /// A fresh random identifier.
    pub fn new_v4() -> (id: Self)
        ensures
            is_version_4(id.bits()),
    {
        RequestId { bits: random_uuid_bits() }
    }

    /// The identifier with the given bits, if they are those of a version-4
    /// UUID.
    pub fn from_u128(bits: u128) -> (id: Option<Self>)
        ensures
            id is Some <==> is_version_4(bits),
            id matches Some(found) ==> found.bits() == bits,
    {
        if bits & VERSION_AND_VARIANT == RANDOM_RFC {
            Some(RequestId { bits })
        } else {
            None
        }
    }

    /// The 128 bits of the identifier, as `Uuid::from_u128` takes them.
    pub fn as_u128(&self) -> (bits: u128)
        ensures
            bits == self.bits(),
            is_version_4(bits),
    {
        proof {
            use_type_invariant(self);
        }
        self.bits
    }
}

} // verus!
