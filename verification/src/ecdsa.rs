//! Traits for ECDSA over an abstract elliptic curve: keys, signatures, key
//! generation, signing and verification.

use vstd::prelude::*;
use crate::common::{FromBytes, ToBytes};
use crate::digest::DigestAlgorithm;

verus! {

/// Converts an implementation-defined error into a generic [`ErrorKind`].
pub trait Error: core::fmt::Debug {
    /// Convert error to a generic error kind.
    fn kind(&self) -> ErrorKind;
}

impl Error for core::convert::Infallible {
    /// No value of `Infallible` exists, so this body is never reached.
    fn kind(&self) -> ErrorKind {
        ErrorKind::Other
    }
}

/// Associates a type with its error type.
pub trait ErrorType {
    /// Error type.
    type Error: Error;
}

/// Common ECDSA error kinds.
#[derive(Debug, Copy, Clone, Eq, PartialEq, Ord, PartialOrd, Hash)]
#[non_exhaustive]
pub enum ErrorKind {
    Busy,
    InvalidSignature,
    KeyGenError,
    SigningError,
    Other,
}

/// An ECC private key with a byte encoding.
pub trait EccPrivateKey<'a>: ToBytes + FromBytes {
    /// Securely zero the key material.
    fn zeroize(&mut self);
}

/// An abstract elliptic curve: the digest algorithm used with it and its
/// scalar type.
pub trait Curve {
    /// Digest algorithm used for hashing messages before signing.
    type DigestType: DigestAlgorithm;

    /// Scalar field element type.
    type Scalar: ToBytes + FromBytes;
}

/// A private key of curve `C`.
pub trait PrivateKeyForCurve<C: Curve> {
    /// Securely zero the key material.
    fn zeroize(&mut self);
}

/// A signature of curve `C`, made of the scalars `r` and `s`.
pub trait SignatureForCurve<C: Curve>: ToBytes + FromBytes {
    /// Whether `(r, s)` form a signature of this type.
    spec fn accepts_components(r: C::Scalar, s: C::Scalar) -> bool;

    /// The `r` component.
    fn r(&self) -> &C::Scalar;

    /// The `s` component.
    fn s(&self) -> &C::Scalar;

    /// A signature from its components.
    fn new(r: C::Scalar, s: C::Scalar) -> Self
        requires
            Self::accepts_components(r, s),
    ;
}

/// A public key of curve `C`, given by the affine coordinates of a point.
pub trait PubKeyForCurve<C: Curve>: ToBytes + FromBytes {
    /// Whether the x coordinate can be handed out as a scalar of the curve.
    spec fn x_is_scalar(&self) -> bool;

    /// Whether the y coordinate can be handed out as a scalar of the curve.
    spec fn y_is_scalar(&self) -> bool;

    /// Whether `(x, y)` are the coordinates of a valid public key.
    spec fn accepts_coordinates(x: C::Scalar, y: C::Scalar) -> bool;

    /// The x coordinate.
    fn x(&self) -> &C::Scalar
        requires
            self.x_is_scalar(),
    ;

    /// The y coordinate.
    fn y(&self) -> &C::Scalar
        requires
            self.y_is_scalar(),
    ;

    /// A public key from its coordinates.
    fn new(x: C::Scalar, y: C::Scalar) -> Self
        requires
            Self::accepts_coordinates(x, y),
    ;
}

/// ECDSA key generation over curve `C`.
pub trait EcdsaKeyGen<C: Curve>: ErrorType {
    /// The private key type.
    type PrivateKey: PrivateKeyForCurve<C>;

    /// The public key type.
    type PublicKey: PubKeyForCurve<C>;

    /// Generates a key pair from a cryptographically secure random number generator.
    fn generate_key_pair<R>(&mut self, rng: &mut R) -> Result<
        (Self::PrivateKey, Self::PublicKey),
        Self::Error,
    > where R: rand_core::RngCore + rand_core::CryptoRng;
}

/// ECDSA signing of a digest.
pub trait EcdsaSign<C: Curve>: ErrorType {
    /// The private key type.
    type PrivateKey: PrivateKeyForCurve<C>;

    /// The signature type.
    type Signature: SignatureForCurve<C>;

    /// Signs a digest produced by the curve's hash function.
    fn sign<R>(
        &mut self,
        private_key: &Self::PrivateKey,
        digest: <<C as Curve>::DigestType as DigestAlgorithm>::DigestOutput,
        rng: &mut R,
    ) -> Result<Self::Signature, Self::Error> where R: rand_core::RngCore + rand_core::CryptoRng;
}

/// ECDSA signature verification against a digest.
pub trait EcdsaVerify<C: Curve>: ErrorType {
    /// The public key type.
    type PublicKey: PubKeyForCurve<C>;

    /// The signature type.
    type Signature: SignatureForCurve<C>;

    /// Verifies a signature against a digest.
    fn verify(
        &mut self,
        public_key: &Self::PublicKey,
        digest: <<C as Curve>::DigestType as DigestAlgorithm>::DigestOutput,
        signature: &Self::Signature,
    ) -> Result<(), Self::Error>;
}

} // verus!
