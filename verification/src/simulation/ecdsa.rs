//! secp384r1 keys, signatures and the SHA-384 digest type.
//!
//! Every type keeps its canonical byte encoding as plain bytes: a scalar is
//! its 48-byte big-endian value, a public key its 97-byte uncompressed SEC1
//! point together with the two coordinates, a signature `r || s`.  The
//! checks that only the curve arithmetic can make (is a point on the curve,
//! is a value below the group order) are made by `p384`, and SHA-384 is
//! computed by `sha2`, each through a small trusted wrapper below.

use vstd::prelude::*;
use crate::common::{FromBytes, ToBytes};
use crate::digest::DigestAlgorithm;
use crate::ecdsa::{Curve, EccPrivateKey, PrivateKeyForCurve, PubKeyForCurve, SignatureForCurve};

verus! {

/// Byte order of an encoding.
#[derive(Debug, Copy, Clone)]
pub enum Endian {
    BigEndian,
    LittleEndian,
}

/// Errors of the secp384r1 encodings.
#[derive(Debug, Copy, Clone, PartialEq, Eq)]
pub enum Secp384r1Error {
    /// The input has the wrong number of bytes.
    InvalidLength,
    /// The bytes do not encode a valid value.
    InvalidValue,
    /// The bytes do not encode a valid signature.
    InvalidSignature,
}

/// Number of bytes of a scalar, of a coordinate and of a SHA-384 digest.
pub const SCALAR_BYTES: usize = 48;

/// The order `n` of the secp384r1 group.
pub open spec fn p384_order() -> nat {
    0xffffffffffffffffffffffffffffffffffffffffffffffffc7634d81f4372ddf581a0db248b0a77aecec196accc52973nat
}

/// The unsigned integer that `bytes` encode, most significant byte first.
pub open spec fn be_value(bytes: Seq<u8>) -> nat
    decreases bytes.len(),
{
    if bytes.len() == 0 {
        0
    } else {
        be_value(bytes.drop_last()) * 256 + bytes.last() as nat
    }
}

/// `bytes`, read in `endian` order, rearranged into big-endian order.
pub open spec fn big_endian_form(bytes: Seq<u8>, endian: Endian) -> Seq<u8> {
    match endian {
        Endian::BigEndian => bytes,
        Endian::LittleEndian => bytes.reverse(),
    }
}

/// A 48-byte big-endian encoding of an integer below the group order.
pub open spec fn is_scalar_encoding(be: Seq<u8>) -> bool {
    be.len() == SCALAR_BYTES && be_value(be) < p384_order()
}

/// A 48-byte big-endian encoding of a non-zero integer below the group order.
pub open spec fn is_nonzero_scalar_encoding(be: Seq<u8>) -> bool {
    is_scalar_encoding(be) && be_value(be) > 0
}

/// The uncompressed SEC1 encoding `0x04 || x || y`.
pub open spec fn uncompressed_point(x: Seq<u8>, y: Seq<u8>) -> Seq<u8> {
    seq![4u8] + x + y
}

/// The 96-byte signature encodings with both halves non-zero scalars.
pub open spec fn is_signature_encoding(bytes: Seq<u8>) -> bool {
    &&& bytes.len() == 2 * SCALAR_BYTES
    &&& is_nonzero_scalar_encoding(bytes.subrange(0, 48))
    &&& is_nonzero_scalar_encoding(bytes.subrange(48, 96))
}

/// The point that `p384` decodes from the SEC1 encoding `encoded` (after
/// its curve check), given by its uncompressed encoding; `None` where
/// `p384` refuses the encoding.
pub uninterp spec fn p384_sec1_public_key(encoded: Seq<u8>) -> Option<Seq<u8>>;

/// The SHA-384 digest of `data`, as `sha2` computes it.
pub uninterp spec fn sha384(data: Seq<u8>) -> Seq<u8>;

/// Calls `p384::Scalar::from_slice`, which accepts exactly the 48-byte
/// big-endian encodings of integers below the group order.  Only whether it
/// accepted is returned.
#[verifier::external_body]
fn p384_scalar_accepts(be: &[u8]) -> (ok: bool)
    ensures
        ok == is_scalar_encoding(be@),
{
    p384::Scalar::from_slice(be).is_ok()
}

/// Calls `p384::SecretKey::from_bytes`, which accepts exactly the
/// big-endian encodings of non-zero integers below the group order.  Only
/// whether it accepted is returned.
#[verifier::external_body]
fn p384_secret_key_accepts(be: &[u8; 48]) -> (ok: bool)
    ensures
        ok == is_nonzero_scalar_encoding(be@),
{
    p384::SecretKey::from_bytes(&p384::FieldBytes::from(*be)).is_ok()
}

/// Calls `p384::ecdsa::VerifyingKey::from_sec1_bytes`, which parses a SEC1
/// point encoding and checks that it is a point of the curve other than the
/// identity, and re-encodes the point it accepted uncompressed.  The
/// contract claims that the result is the named decoding of the input; that
/// an accepted input has 49 or 97 bytes; that the re-encoding starts with the
/// uncompressed tag and has 97 bytes; and that an accepted 97-byte input is
/// given back unchanged.  Which point a compressed input decodes to is left
/// unsaid.
#[verifier::external_body]
fn p384_decode_public_key(encoded: &[u8]) -> (point: Option<[u8; 97]>)
    ensures
        point is Some <==> p384_sec1_public_key(encoded@) is Some,
        point matches Some(p) ==> p384_sec1_public_key(encoded@) == Some(p@),
        point matches Some(p) ==> p@[0] == 4u8,
        point is Some ==> encoded@.len() == 49 || encoded@.len() == 97,
        encoded@.len() == 97 ==> (point matches Some(p) ==> p@ == encoded@),
{
    match p384::ecdsa::VerifyingKey::from_sec1_bytes(encoded) {
        Ok(key) => {
            let mut out = [0u8; 97];
            out.copy_from_slice(key.to_encoded_point(false).as_bytes());
            Some(out)
        },
        Err(_) => None,
    }
}

/// Calls `p384::ecdsa::Signature::from_slice`, which accepts exactly 96
/// bytes `r || s` with `r` and `s` non-zero and below the group order.  Only
/// whether it accepted is returned.
#[verifier::external_body]
fn p384_signature_accepts(bytes: &[u8]) -> (ok: bool)
    ensures
        ok == is_signature_encoding(bytes@),
{
    p384::ecdsa::Signature::from_slice(bytes).is_ok()
}

/// Calls `p384::ecdsa::Signature::from_scalars`, which accepts exactly
/// components that are non-zero and below the group order.  Only whether it
/// accepted is returned.
#[verifier::external_body]
fn p384_signature_components_accepted(r: &[u8; 48], s: &[u8; 48]) -> (ok: bool)
    ensures
        ok == (is_nonzero_scalar_encoding(r@) && is_nonzero_scalar_encoding(s@)),
{
    p384::ecdsa::Signature::from_scalars(
        p384::FieldBytes::from(*r),
        p384::FieldBytes::from(*s),
    ).is_ok()
}

/// Calls `sha2::Sha384::digest` on `data`.
#[verifier::external_body]
fn sha384_of(data: &[u8]) -> (hash: [u8; 48])
    ensures
        hash@ == sha384(data@),
{
    <sha2::Sha384 as sha2::Digest>::digest(data).into()
}

/// The `N` bytes of `src` from `start` on, as an array.
fn bytes_at<const N: usize>(src: &[u8], start: usize) -> (out: [u8; N])
    requires
        start + N <= src@.len(),
    ensures
        out@ == src@.subrange(start as int, start + N),
{
    let mut out = [0u8;N];
    let mut i: usize = 0;
    while i < N
        invariant
            i <= N,
            start + N <= src.len(),
            out@.len() == N,
            forall|j: int| 0 <= j < i ==> out@[j] == src@[start + j],
        decreases N - i,
    {
        out[i] = src[start + i];
        i += 1;
    }
    assert(out@ =~= src@.subrange(start as int, start + N));
    out
}

/// The bytes of `a` in reverse order.
fn reversed<const N: usize>(a: &[u8; N]) -> (out: [u8; N])
    ensures
        out@ == a@.reverse(),
{
    let mut out = [0u8;N];
    let mut i: usize = 0;
    while i < N
        invariant
            i <= N,
            out@.len() == N,
            a@.len() == N,
            forall|j: int| 0 <= j < i ==> out@[j] == a@[N - 1 - j],
        decreases N - i,
    {
        out[i] = a[N - 1 - i];
        i += 1;
    }
    assert(out@ =~= a@.reverse());
    out
}

/// Overwrites every byte of `a` with zero.
fn zero_bytes<const N: usize>(a: &mut [u8; N])
    ensures
        final(a)@ == Seq::new(N as nat, |i: int| 0u8),
{
    let mut i: usize = 0;
    while i < N
        invariant
            i <= N,
            a@.len() == N,
            forall|j: int| 0 <= j < i ==> a@[j] == 0u8,
        decreases N - i,
    {
        a[i] = 0;
        i += 1;
    }
    assert(a@ =~= Seq::new(N as nat, |i: int| 0u8));
}


/// A decoding result with the decoded value taken by its view.
pub open spec fn result_view<T: View>(r: Result<T, Secp384r1Error>) -> Result<T::V, Secp384r1Error> {
    match r {
        Ok(v) => Ok(v@),
        Err(e) => Err(e),
    }
}

/// Decoding a scalar from `bytes` in `endian` order: its big-endian
/// encoding, or why it is refused.
pub open spec fn spec_decode_scalar(bytes: Seq<u8>, endian: Endian) -> Result<Seq<u8>, Secp384r1Error> {
    if bytes.len() != SCALAR_BYTES {
        Err(Secp384r1Error::InvalidLength)
    } else if !is_scalar_encoding(big_endian_form(bytes, endian)) {
        Err(Secp384r1Error::InvalidValue)
    } else {
        Ok(big_endian_form(bytes, endian))
    }
}

/// Decoding a private key from `bytes` in `endian` order: its big-endian
/// secret scalar, or why it is refused.
pub open spec fn spec_decode_private_key(bytes: Seq<u8>, endian: Endian) -> Result<
    Seq<u8>,
    Secp384r1Error,
> {
    if bytes.len() != SCALAR_BYTES {
        Err(Secp384r1Error::InvalidLength)
    } else if !is_nonzero_scalar_encoding(big_endian_form(bytes, endian)) {
        Err(Secp384r1Error::InvalidValue)
    } else {
        Ok(big_endian_form(bytes, endian))
    }
}

/// Decoding a public key from a SEC1 encoding: its uncompressed encoding, or
/// why it is refused.
pub open spec fn spec_decode_public_key(bytes: Seq<u8>) -> Result<Seq<u8>, Secp384r1Error> {
    if bytes.len() != 97 && bytes.len() != 49 {
        Err(Secp384r1Error::InvalidLength)
    } else {
        match p384_sec1_public_key(bytes) {
            Some(point) => Ok(point),
            None => Err(Secp384r1Error::InvalidValue),
        }
    }
}

/// Decoding a signature from `r || s`.
pub open spec fn spec_decode_signature(bytes: Seq<u8>) -> Result<Seq<u8>, Secp384r1Error> {
    if is_signature_encoding(bytes) {
        Ok(bytes)
    } else {
        Err(Secp384r1Error::InvalidSignature)
    }
}

/// Decoding a SHA-384 digest value.
pub open spec fn spec_decode_digest(bytes: Seq<u8>) -> Result<Seq<u8>, Secp384r1Error> {
    if bytes.len() != SCALAR_BYTES {
        Err(Secp384r1Error::InvalidLength)
    } else {
        Ok(bytes)
    }
}

/// A scalar of secp384r1, held as its 48-byte big-endian encoding.
#[derive(Clone, Copy)]
pub struct Secp384r1Scalar([u8; 48]);

impl View for Secp384r1Scalar {
    type V = Seq<u8>;

    closed spec fn view(&self) -> Seq<u8> {
        self.0@
    }
}

impl Secp384r1Scalar {
    /// The encoding always has 48 bytes.
    pub proof fn lemma_encoding_len(&self)
        ensures
            self@.len() == SCALAR_BYTES,
    {
    }

    /// Every scalar is below the group order; `use_type_invariant` gives
    /// this for any scalar a caller holds.
    #[verifier::type_invariant]
    pub open spec fn is_valid(&self) -> bool {
        is_scalar_encoding(self@)
    }
}

impl ToBytes for Secp384r1Scalar {
    /// The big-endian encoding.
    fn to_bytes(&self) -> (bytes: &[u8])
        ensures
            bytes@ == self@,
    {
        self.0.as_slice()
    }
}

impl FromBytes for Secp384r1Scalar {
    type Error = Secp384r1Error;

    /// Decodes 48 bytes in `endian` order; the value must be below the group
    /// order.
    fn from_bytes(bytes: &[u8], endian: Endian) -> (r: Result<Self, Secp384r1Error>)
        ensures
            result_view(r) == spec_decode_scalar(bytes@, endian),
    {
        if bytes.len() != 48 {
            return Err(Secp384r1Error::InvalidLength);
        }
        let mut array: [u8; 48] = bytes_at(bytes, 0);
        assert(bytes@.subrange(0, 48) =~= bytes@);
        if matches!(endian, Endian::LittleEndian) {
            array = reversed(&array);
        }
        if !p384_scalar_accepts(array.as_slice()) {
            return Err(Secp384r1Error::InvalidValue);
        }
        Ok(Secp384r1Scalar(array))
    }
}

/// A secp384r1 private key, held as its big-endian secret scalar.
pub struct Secp384r1PrivateKey([u8; 48]);

impl View for Secp384r1PrivateKey {
    type V = Seq<u8>;

    closed spec fn view(&self) -> Seq<u8> {
        self.0@
    }
}

impl<'a> EccPrivateKey<'a> for Secp384r1PrivateKey {
    fn zeroize(&mut self)
        ensures
            final(self)@ == Seq::new(SCALAR_BYTES as nat, |i: int| 0u8),
    {
        zero_bytes(&mut self.0);
    }
}

impl ToBytes for Secp384r1PrivateKey {
    /// The big-endian secret scalar.
    fn to_bytes(&self) -> (bytes: &[u8])
        ensures
            bytes@ == self@,
    {
        self.0.as_slice()
    }
}

impl FromBytes for Secp384r1PrivateKey {
    type Error = Secp384r1Error;

    /// Decodes a secret scalar of 48 bytes in `endian` order; it must be
    /// non-zero and below the group order.
    fn from_bytes(bytes: &[u8], endian: Endian) -> (r: Result<Self, Secp384r1Error>)
        ensures
            result_view(r) == spec_decode_private_key(bytes@, endian),
    {
        let scalar = match Secp384r1Scalar::from_bytes(bytes, endian) {
            Ok(scalar) => scalar,
            Err(e) => return Err(e),
        };
        if !p384_secret_key_accepts(&scalar.0) {
            return Err(Secp384r1Error::InvalidValue);
        }
        Ok(Secp384r1PrivateKey(scalar.0))
    }
}

impl PrivateKeyForCurve<Secp384r1> for Secp384r1PrivateKey {
    fn zeroize(&mut self)
        ensures
            final(self)@ == Seq::new(SCALAR_BYTES as nat, |i: int| 0u8),
    {
        zero_bytes(&mut self.0);
    }
}


/// A secp384r1 public key: the big-endian affine coordinates of a curve
/// point, with its uncompressed SEC1 encoding `0x04 || x || y`.  A
/// coordinate that is below the group order is also kept as a scalar, which
/// is what `x()` and `y()` hand out.
pub struct Secp384r1PublicKey {
    x: [u8; 48],
    y: [u8; 48],
    x_scalar: Option<Secp384r1Scalar>,
    y_scalar: Option<Secp384r1Scalar>,
    encoded: [u8; 97],
}

impl View for Secp384r1PublicKey {
    type V = Seq<u8>;

    /// The uncompressed SEC1 encoding.
    closed spec fn view(&self) -> Seq<u8> {
        uncompressed_point(self.x@, self.y@)
    }
}

/// `scalar` holds the coordinate `coordinate` exactly when that is below
/// the group order.
pub open spec fn coordinate_scalar_matches(scalar: Option<Secp384r1Scalar>, coordinate: Seq<u8>) -> bool {
    &&& (scalar is Some <==> is_scalar_encoding(coordinate))
    &&& (scalar matches Some(s) ==> s@ == coordinate)
}

/// The coordinate as a scalar, where it is below the group order.
fn coordinate_as_scalar(coordinate: [u8; 48]) -> (scalar: Option<Secp384r1Scalar>)
    ensures
        coordinate_scalar_matches(scalar, coordinate@),
{
    if p384_scalar_accepts(coordinate.as_slice()) {
        Some(Secp384r1Scalar(coordinate))
    } else {
        None
    }
}

impl Secp384r1PublicKey {
    #[verifier::type_invariant]
    closed spec fn encoding_matches_coordinates(&self) -> bool {
        &&& self.encoded@ == uncompressed_point(self.x@, self.y@)
        &&& coordinate_scalar_matches(self.x_scalar, self.x@)
        &&& coordinate_scalar_matches(self.y_scalar, self.y@)
    }

    /// The big-endian x coordinate.
    pub closed spec fn x_coordinate(&self) -> Seq<u8> {
        self.x@
    }

    /// The big-endian y coordinate.
    pub closed spec fn y_coordinate(&self) -> Seq<u8> {
        self.y@
    }

    /// The encoding is `0x04 || x || y`.
    pub proof fn lemma_encoding(&self)
        ensures
            self@ == uncompressed_point(self.x_coordinate(), self.y_coordinate()),
            self.x_coordinate().len() == SCALAR_BYTES,
            self.y_coordinate().len() == SCALAR_BYTES,
    {
    }

    /// The key of the uncompressed encoding `point`.
    fn from_uncompressed(point: [u8; 97]) -> (key: Self)
        requires
            point@[0] == 4u8,
        ensures
            key@ == point@,
    {
        let x: [u8; 48] = bytes_at(point.as_slice(), 1);
        let y: [u8; 48] = bytes_at(point.as_slice(), 49);
        assert(point@ =~= uncompressed_point(x@, y@));
        let x_scalar = coordinate_as_scalar(x);
        let y_scalar = coordinate_as_scalar(y);
        Secp384r1PublicKey { x, y, x_scalar, y_scalar, encoded: point }
    }

    /// The public key with coordinates `(x, y)`, or `None` where `p384`
    /// refuses them as a point of the curve.
    pub fn from_coordinates(x: Secp384r1Scalar, y: Secp384r1Scalar) -> (key: Option<Self>)
        ensures
            key is Some <==> p384_sec1_public_key(uncompressed_point(x@, y@)) is Some,
            key matches Some(k) ==> k@ == uncompressed_point(x@, y@) && k.x_coordinate() == x@
                && k.y_coordinate() == y@,
    {
        let encoded = uncompressed_encoding(&x.0, &y.0);
        match p384_decode_public_key(encoded.as_slice()) {
            Some(_) => Some(<Self as PubKeyForCurve<Secp384r1>>::new(x, y)),
            None => None,
        }
    }
}

/// `0x04 || x || y` as an array.
fn uncompressed_encoding(x: &[u8; 48], y: &[u8; 48]) -> (out: [u8; 97])
    ensures
        out@ == uncompressed_point(x@, y@),
{
    let mut out = [0u8;97];
    out[0] = 4;
    let mut i: usize = 0;
    while i < 48
        invariant
            i <= 48,
            out@.len() == 97,
            x@.len() == 48,
            y@.len() == 48,
            out@[0] == 4u8,
            forall|j: int| 0 <= j < i ==> out@[1 + j] == x@[j] && out@[49 + j] == y@[j],
        decreases 48 - i,
    {
        out[1 + i] = x[i];
        out[49 + i] = y[i];
        i += 1;
    }
    assert(out@ =~= uncompressed_point(x@, y@));
    out
}

impl ToBytes for Secp384r1PublicKey {
    /// The uncompressed SEC1 encoding.
    fn to_bytes(&self) -> (bytes: &[u8])
        ensures
            bytes@ == self@,
    {
        proof { use_type_invariant(self); }
        self.encoded.as_slice()
    }
}

impl FromBytes for Secp384r1PublicKey {
    type Error = Secp384r1Error;

    /// Decodes an uncompressed (97 bytes) or compressed (49 bytes) SEC1
    /// point; the byte order argument does not apply to this encoding.
    fn from_bytes(bytes: &[u8], _endian: Endian) -> (r: Result<Self, Secp384r1Error>)
        ensures
            result_view(r) == spec_decode_public_key(bytes@),
            bytes@.len() == 97 ==> (r matches Ok(key) ==> key@ == bytes@),
    {
        if bytes.len() != 97 && bytes.len() != 49 {
            return Err(Secp384r1Error::InvalidLength);
        }
        match p384_decode_public_key(bytes) {
            Some(point) => Ok(Self::from_uncompressed(point)),
            None => Err(Secp384r1Error::InvalidValue),
        }
    }
}

impl PubKeyForCurve<Secp384r1> for Secp384r1PublicKey {
    open spec fn x_is_scalar(&self) -> bool {
        is_scalar_encoding(self.x_coordinate())
    }

    open spec fn y_is_scalar(&self) -> bool {
        is_scalar_encoding(self.y_coordinate())
    }

    open spec fn accepts_coordinates(x: Secp384r1Scalar, y: Secp384r1Scalar) -> bool {
        p384_sec1_public_key(uncompressed_point(x@, y@)) is Some
    }

    /// The x coordinate, which must be below the group order to be a scalar.
    fn x(&self) -> (x: &Secp384r1Scalar)
        ensures
            x@ == self.x_coordinate(),
    {
        proof { use_type_invariant(self); }
        self.x_scalar.as_ref().unwrap()
    }

    /// The y coordinate, which must be below the group order to be a scalar.
    fn y(&self) -> (y: &Secp384r1Scalar)
        ensures
            y@ == self.y_coordinate(),
    {
        proof { use_type_invariant(self); }
        self.y_scalar.as_ref().unwrap()
    }

    fn new(x: Secp384r1Scalar, y: Secp384r1Scalar) -> (key: Self)
        ensures
            key@ == uncompressed_point(x@, y@),
            key.x_coordinate() == x@,
            key.y_coordinate() == y@,
    {
        proof {
            use_type_invariant(&x);
            use_type_invariant(&y);
        }
        let encoded = uncompressed_encoding(&x.0, &y.0);
        let xb = x.0;
        let yb = y.0;
        Secp384r1PublicKey { x: xb, y: yb, x_scalar: Some(x), y_scalar: Some(y), encoded }
    }
}

/// A secp384r1 ECDSA signature: the scalars `r` and `s` and their encoding
/// `r || s`.
pub struct Secp384r1Signature {
    r: Secp384r1Scalar,
    s: Secp384r1Scalar,
    encoded: [u8; 96],
}

impl View for Secp384r1Signature {
    type V = Seq<u8>;

    /// The encoding `r || s`.
    closed spec fn view(&self) -> Seq<u8> {
        self.r@ + self.s@
    }
}

impl Secp384r1Signature {
    #[verifier::type_invariant]
    closed spec fn encoding_matches_components(&self) -> bool {
        &&& self.encoded@ == self.r@ + self.s@
        &&& is_nonzero_scalar_encoding(self.r@)
        &&& is_nonzero_scalar_encoding(self.s@)
    }

    /// The big-endian `r` component.
    pub closed spec fn r_component(&self) -> Seq<u8> {
        self.r@
    }

    /// The big-endian `s` component.
    pub closed spec fn s_component(&self) -> Seq<u8> {
        self.s@
    }

    /// The encoding is `r || s`.
    pub proof fn lemma_encoding(&self)
        ensures
            self@ == self.r_component() + self.s_component(),
            self.r_component().len() == SCALAR_BYTES,
            self.s_component().len() == SCALAR_BYTES,
    {
    }

    /// The signature with components `(r, s)`, or `None` where `p384`
    /// refuses them (a component is zero).
    pub fn from_components(r: Secp384r1Scalar, s: Secp384r1Scalar) -> (sig: Option<Self>)
        ensures
            sig is Some <==> (is_nonzero_scalar_encoding(r@) && is_nonzero_scalar_encoding(s@)),
            sig matches Some(g) ==> g@ == r@ + s@ && g.r_component() == r@ && g.s_component() == s@,
    {
        if p384_signature_components_accepted(&r.0, &s.0) {
            Some(<Self as SignatureForCurve<Secp384r1>>::new(r, s))
        } else {
            None
        }
    }
}

/// `r || s` as an array.
fn concat_components(r: &[u8; 48], s: &[u8; 48]) -> (out: [u8; 96])
    ensures
        out@ == r@ + s@,
{
    let mut out = [0u8;96];
    let mut i: usize = 0;
    while i < 48
        invariant
            i <= 48,
            out@.len() == 96,
            r@.len() == 48,
            s@.len() == 48,
            forall|j: int| 0 <= j < i ==> out@[j] == r@[j] && out@[48 + j] == s@[j],
        decreases 48 - i,
    {
        out[i] = r[i];
        out[48 + i] = s[i];
        i += 1;
    }
    assert(out@ =~= r@ + s@);
    out
}

impl ToBytes for Secp384r1Signature {
    /// The encoding `r || s`.
    fn to_bytes(&self) -> (bytes: &[u8])
        ensures
            bytes@ == self@,
    {
        proof { use_type_invariant(self); }
        self.encoded.as_slice()
    }
}

impl FromBytes for Secp384r1Signature {
    type Error = Secp384r1Error;

    /// Decodes `r || s` (96 bytes, both components non-zero and below the
    /// group order); the byte order argument does not apply.
    fn from_bytes(bytes: &[u8], _endian: Endian) -> (r: Result<Self, Secp384r1Error>)
        ensures
            result_view(r) == spec_decode_signature(bytes@),
    {
        if !p384_signature_accepts(bytes) {
            return Err(Secp384r1Error::InvalidSignature);
        }
        let r: [u8; 48] = bytes_at(bytes, 0);
        let s: [u8; 48] = bytes_at(bytes, 48);
        let encoded = concat_components(&r, &s);
        assert(encoded@ =~= bytes@);
        Ok(Secp384r1Signature { r: Secp384r1Scalar(r), s: Secp384r1Scalar(s), encoded })
    }
}

impl SignatureForCurve<Secp384r1> for Secp384r1Signature {
    open spec fn accepts_components(r: Secp384r1Scalar, s: Secp384r1Scalar) -> bool {
        is_nonzero_scalar_encoding(r@) && is_nonzero_scalar_encoding(s@)
    }

    fn r(&self) -> (r: &Secp384r1Scalar)
        ensures
            r@ == self.r_component(),
            r.is_valid(),
    {
        proof { use_type_invariant(self); }
        &self.r
    }

    fn s(&self) -> (s: &Secp384r1Scalar)
        ensures
            s@ == self.s_component(),
            s.is_valid(),
    {
        proof { use_type_invariant(self); }
        &self.s
    }

    fn new(r: Secp384r1Scalar, s: Secp384r1Scalar) -> (sig: Self)
        ensures
            sig@ == r@ + s@,
            sig.r_component() == r@,
            sig.s_component() == s@,
    {
        let encoded = concat_components(&r.0, &s.0);
        Secp384r1Signature { r, s, encoded }
    }
}

/// The secp384r1 curve.
pub struct Secp384r1;

impl Secp384r1 {
    /// Length in bytes of the digest signed on this curve (SHA-384).
    pub const DIGEST_LENGTH: usize = 48;
}

impl Curve for Secp384r1 {
    type DigestType = Sha384Digest;

    type Scalar = Secp384r1Scalar;
}

/// A SHA-384 digest value.
pub struct Sha384Digest([u8; 48]);

impl View for Sha384Digest {
    type V = Seq<u8>;

    closed spec fn view(&self) -> Seq<u8> {
        self.0@
    }
}

impl DigestAlgorithm for Sha384Digest {
    const OUTPUT_BITS: usize = 384;

    type DigestOutput = [u8; 48];
}

impl Sha384Digest {
    /// The SHA-384 digest of `data`.
    pub fn digest(data: &[u8]) -> (hash: [u8; 48])
        ensures
            hash@ == sha384(data@),
    {
        sha384_of(data)
    }
}

impl ToBytes for Sha384Digest {
    fn to_bytes(&self) -> (bytes: &[u8])
        ensures
            bytes@ == self@,
    {
        self.0.as_slice()
    }
}

impl FromBytes for Sha384Digest {
    type Error = Secp384r1Error;

    /// Takes exactly `Secp384r1::DIGEST_LENGTH` bytes; the byte order
    /// argument does not apply.
    fn from_bytes(bytes: &[u8], _endian: Endian) -> (r: Result<Self, Secp384r1Error>)
        ensures
            result_view(r) == spec_decode_digest(bytes@),
    {
        if bytes.len() != Secp384r1::DIGEST_LENGTH {
            return Err(Secp384r1Error::InvalidLength);
        }
        let array: [u8; 48] = bytes_at(bytes, 0);
        assert(bytes@.subrange(0, 48) =~= bytes@);
        Ok(Sha384Digest(array))
    }
}


/// Decoding the big-endian encoding of a scalar gives the scalar back, and
/// so does decoding its reversed encoding as little-endian.
pub proof fn law_scalar_encoding_round_trip(be: Seq<u8>)
    requires
        is_scalar_encoding(be),
    ensures
        spec_decode_scalar(be, Endian::BigEndian) == Ok::<Seq<u8>, Secp384r1Error>(be),
        spec_decode_scalar(be.reverse(), Endian::LittleEndian) == Ok::<Seq<u8>, Secp384r1Error>(be),
{
    assert(be.reverse().reverse() =~= be);
}

/// Reading bytes as little-endian is reading their reversal as big-endian,
/// for scalars and private keys alike.
pub proof fn law_little_endian_is_reversed_big_endian(bytes: Seq<u8>)
    ensures
        spec_decode_scalar(bytes, Endian::LittleEndian) == spec_decode_scalar(
            bytes.reverse(),
            Endian::BigEndian,
        ),
        spec_decode_private_key(bytes, Endian::LittleEndian) == spec_decode_private_key(
            bytes.reverse(),
            Endian::BigEndian,
        ),
{
}

/// A private key decodes from its big-endian encoding exactly when it is a
/// non-zero scalar, and then gives the key back; zero is refused as an
/// invalid value.
pub proof fn law_private_key_round_trip(be: Seq<u8>)
    requires
        be.len() == SCALAR_BYTES,
    ensures
        is_nonzero_scalar_encoding(be) ==> spec_decode_private_key(be, Endian::BigEndian) == Ok::<
            Seq<u8>,
            Secp384r1Error,
        >(be),
        be_value(be) == 0 ==> spec_decode_private_key(be, Endian::BigEndian) == Err::<
            Seq<u8>,
            Secp384r1Error,
        >(Secp384r1Error::InvalidValue),
{
}

/// The encoding `r || s` of non-zero scalars decodes to the same signature.
pub proof fn law_signature_encoding_round_trip(r: Seq<u8>, s: Seq<u8>)
    requires
        is_nonzero_scalar_encoding(r),
        is_nonzero_scalar_encoding(s),
    ensures
        spec_decode_signature(r + s) == Ok::<Seq<u8>, Secp384r1Error>(r + s),
{
    assert((r + s).subrange(0, 48) =~= r);
    assert((r + s).subrange(48, 96) =~= s);
}

/// A digest value decodes from its own bytes, and only 48 bytes decode.
pub proof fn law_digest_encoding_round_trip(bytes: Seq<u8>)
    ensures
        bytes.len() == SCALAR_BYTES ==> spec_decode_digest(bytes) == Ok::<Seq<u8>, Secp384r1Error>(
            bytes,
        ),
        bytes.len() != SCALAR_BYTES ==> spec_decode_digest(bytes) == Err::<Seq<u8>, Secp384r1Error>(
            Secp384r1Error::InvalidLength,
        ),
{
}


/// A private key decodes only to a non-zero value below the group order,
/// namely the input read in the given byte order; any 48-byte input whose
/// value is zero or not below the order is refused as an invalid value.
/// Every accepted private key also decodes as a scalar to the same value.
pub proof fn law_private_key_decoding_accepts_only_valid_keys(bytes: Seq<u8>, endian: Endian)
    ensures
        spec_decode_private_key(bytes, endian) matches Ok(k) ==> {
            &&& k == big_endian_form(bytes, endian)
            &&& k.len() == 48
            &&& 0 < be_value(k) < p384_order()
            &&& spec_decode_scalar(bytes, endian) == Ok::<Seq<u8>, Secp384r1Error>(k)
        },
        bytes.len() == 48 && be_value(big_endian_form(bytes, endian)) >= p384_order()
            ==> spec_decode_private_key(bytes, endian) == Err::<Seq<u8>, Secp384r1Error>(
            Secp384r1Error::InvalidValue,
        ),
        bytes.len() == 48 && be_value(big_endian_form(bytes, endian)) == 0
            ==> spec_decode_private_key(bytes, endian) == Err::<Seq<u8>, Secp384r1Error>(
            Secp384r1Error::InvalidValue,
        ),
        bytes.len() != 48 ==> spec_decode_private_key(bytes, endian) == Err::<Seq<u8>, Secp384r1Error>(
            Secp384r1Error::InvalidLength,
        ),
{
}

/// A scalar decodes only to a value below the group order, namely the input
/// read in the given byte order; a 48-byte input whose value is not below
/// the order is refused as an invalid value.
pub proof fn law_scalar_decoding_accepts_only_values_below_order(bytes: Seq<u8>, endian: Endian)
    ensures
        spec_decode_scalar(bytes, endian) matches Ok(k) ==> {
            &&& k == big_endian_form(bytes, endian)
            &&& k.len() == 48
            &&& be_value(k) < p384_order()
        },
        bytes.len() == 48 && be_value(big_endian_form(bytes, endian)) >= p384_order()
            ==> spec_decode_scalar(bytes, endian) == Err::<Seq<u8>, Secp384r1Error>(
            Secp384r1Error::InvalidValue,
        ),
{
}

} // verus!
