//! Byte conversions shared by the key, signature and digest types.

use vstd::prelude::*;
use crate::simulation::ecdsa::Endian;

verus! {

/// Types whose value has a byte encoding that can be borrowed.
pub trait ToBytes {
    /// The byte encoding of the value.
    fn to_bytes(&self) -> &[u8];
}

/// Types that can be decoded from bytes given in a stated byte order.
pub trait FromBytes: Sized {
    /// The decoding error.
    type Error;

    /// Decode a value from `bytes`, read in `endian` order where the type's
    /// encoding depends on it.
    fn from_bytes(bytes: &[u8], endian: Endian) -> Result<Self, Self::Error>;
}

} // verus!
