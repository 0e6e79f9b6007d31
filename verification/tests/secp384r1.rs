use proposed_traits::common::{FromBytes, ToBytes};
use proposed_traits::ecdsa::{EccPrivateKey, PubKeyForCurve, SignatureForCurve};
use proposed_traits::simulation::ecdsa::{
    Endian, Secp384r1, Secp384r1Error, Secp384r1PrivateKey, Secp384r1PublicKey, Secp384r1Scalar,
    Secp384r1Signature, Sha384Digest,
};

fn hex(s: &str) -> Vec<u8> {
    (0..s.len()).step_by(2).map(|i| u8::from_str_radix(&s[i..i + 2], 16).unwrap()).collect()
}

const GX: &str = "aa87ca22be8b05378eb1c71ef320ad746e1d3b628ba79b9859f741e082542a385502f25dbf55296c3a545e3872760ab7";
const GY: &str = "3617de4a96262c6f5d9e98bf9292dc29f8f41dbd289a147ce9da3113b5f0b8c00a60b1ce1d7e819d7a431d7c90ea0e5f";
const ORDER: &str = "ffffffffffffffffffffffffffffffffffffffffffffffffc7634d81f4372ddf581a0db248b0a77aecec196accc52973";

fn small(v: u8) -> Vec<u8> {
    let mut b = vec![0u8; 48];
    b[47] = v;
    b
}

#[test]
fn scalar_round_trip_big_endian() {
    let bytes = small(7);
    let s = Secp384r1Scalar::from_bytes(&bytes, Endian::BigEndian).unwrap();
    assert_eq!(s.to_bytes(), &bytes[..]);
}

#[test]
fn scalar_little_endian_is_reversed() {
    let mut le = small(7);
    le.reverse();
    let s = Secp384r1Scalar::from_bytes(&le, Endian::LittleEndian).unwrap();
    assert_eq!(s.to_bytes(), &small(7)[..]);
}

#[test]
fn scalar_errors() {
    assert!(matches!(
        Secp384r1Scalar::from_bytes(&[1u8; 47], Endian::BigEndian),
        Err(Secp384r1Error::InvalidLength)
    ));
    assert!(matches!(
        Secp384r1Scalar::from_bytes(&hex(ORDER), Endian::BigEndian),
        Err(Secp384r1Error::InvalidValue)
    ));
    assert!(matches!(
        Secp384r1Scalar::from_bytes(&[0xFFu8; 48], Endian::BigEndian),
        Err(Secp384r1Error::InvalidValue)
    ));
    let mut below = hex(ORDER);
    below[47] -= 1;
    assert!(Secp384r1Scalar::from_bytes(&below, Endian::BigEndian).is_ok());
    // zero is a scalar
    assert!(Secp384r1Scalar::from_bytes(&[0u8; 48], Endian::BigEndian).is_ok());
}

#[test]
fn private_key_decoding_and_zeroize() {
    assert!(matches!(
        Secp384r1PrivateKey::from_bytes(&[0u8; 48], Endian::BigEndian),
        Err(Secp384r1Error::InvalidValue)
    ));
    assert!(matches!(
        Secp384r1PrivateKey::from_bytes(&[1u8; 3], Endian::BigEndian),
        Err(Secp384r1Error::InvalidLength)
    ));
    let mut key = Secp384r1PrivateKey::from_bytes(&small(9), Endian::BigEndian).unwrap();
    assert_eq!(key.to_bytes(), &small(9)[..]);
    EccPrivateKey::zeroize(&mut key);
    assert_eq!(key.to_bytes(), &[0u8; 48][..]);
}

fn generator_uncompressed() -> Vec<u8> {
    let mut enc = vec![4u8];
    enc.extend(hex(GX));
    enc.extend(hex(GY));
    enc
}

#[test]
fn public_key_uncompressed_round_trip() {
    let enc = generator_uncompressed();
    let key = Secp384r1PublicKey::from_bytes(&enc, Endian::BigEndian).unwrap();
    assert_eq!(key.to_bytes(), &enc[..]);
    assert_eq!(key.x().to_bytes(), &hex(GX)[..]);
    assert_eq!(key.y().to_bytes(), &hex(GY)[..]);
}

#[test]
fn public_key_compressed_decodes_to_uncompressed() {
    // y of the generator is odd
    let mut enc = vec![3u8];
    enc.extend(hex(GX));
    let key = Secp384r1PublicKey::from_bytes(&enc, Endian::BigEndian).unwrap();
    assert_eq!(key.to_bytes(), &generator_uncompressed()[..]);
}

#[test]
fn public_key_errors() {
    assert!(matches!(
        Secp384r1PublicKey::from_bytes(&[4u8; 96], Endian::BigEndian),
        Err(Secp384r1Error::InvalidLength)
    ));
    let mut not_on_curve = generator_uncompressed();
    not_on_curve[96] ^= 1;
    assert!(matches!(
        Secp384r1PublicKey::from_bytes(&not_on_curve, Endian::BigEndian),
        Err(Secp384r1Error::InvalidValue)
    ));
    let mut bad_tag = generator_uncompressed();
    bad_tag[0] = 7;
    assert!(matches!(
        Secp384r1PublicKey::from_bytes(&bad_tag, Endian::BigEndian),
        Err(Secp384r1Error::InvalidValue)
    ));
}

#[test]
fn public_key_from_coordinates() {
    let x = Secp384r1Scalar::from_bytes(&hex(GX), Endian::BigEndian).unwrap();
    let y = Secp384r1Scalar::from_bytes(&hex(GY), Endian::BigEndian).unwrap();
    let key = Secp384r1PublicKey::from_coordinates(x.clone(), y.clone()).unwrap();
    assert_eq!(key.to_bytes(), &generator_uncompressed()[..]);
    let same = <Secp384r1PublicKey as PubKeyForCurve<Secp384r1>>::new(x, y);
    assert_eq!(same.to_bytes(), key.to_bytes());
    let one = Secp384r1Scalar::from_bytes(&small(1), Endian::BigEndian).unwrap();
    let two = Secp384r1Scalar::from_bytes(&small(2), Endian::BigEndian).unwrap();
    assert!(Secp384r1PublicKey::from_coordinates(one, two).is_none());
}

#[test]
fn signature_round_trip_and_components() {
    let mut bytes = small(1);
    bytes.extend(small(2));
    let sig = Secp384r1Signature::from_bytes(&bytes, Endian::BigEndian).unwrap();
    assert_eq!(sig.to_bytes(), &bytes[..]);
    assert_eq!(sig.r().to_bytes(), &small(1)[..]);
    assert_eq!(sig.s().to_bytes(), &small(2)[..]);
    let rebuilt = <Secp384r1Signature as SignatureForCurve<Secp384r1>>::new(sig.r().clone(), sig.s().clone());
    assert_eq!(rebuilt.to_bytes(), &bytes[..]);
}

#[test]
fn signature_errors() {
    let mut zero_r = vec![0u8; 48];
    zero_r.extend(small(2));
    assert!(matches!(
        Secp384r1Signature::from_bytes(&zero_r, Endian::BigEndian),
        Err(Secp384r1Error::InvalidSignature)
    ));
    assert!(matches!(
        Secp384r1Signature::from_bytes(&small(1), Endian::BigEndian),
        Err(Secp384r1Error::InvalidSignature)
    ));
    let zero = Secp384r1Scalar::from_bytes(&[0u8; 48], Endian::BigEndian).unwrap();
    let one = Secp384r1Scalar::from_bytes(&small(1), Endian::BigEndian).unwrap();
    assert!(Secp384r1Signature::from_components(zero, one.clone()).is_none());
    let sig = Secp384r1Signature::from_components(one.clone(), one).unwrap();
    assert_eq!(sig.to_bytes().len(), 96);
}

#[test]
fn sha384_digest_of_abc() {
    let expected = hex("cb00753f45a35e8bb5a03d699ac65007272c32ab0eded1631a8b605a43ff5bed8086072ba1e7cc2358baeca134c825a7");
    assert_eq!(&Sha384Digest::digest(b"abc")[..], &expected[..]);
    let d = Sha384Digest::from_bytes(&expected, Endian::BigEndian).unwrap();
    assert_eq!(d.to_bytes(), &expected[..]);
    assert_eq!(Secp384r1::DIGEST_LENGTH, 48);
    assert!(matches!(
        Sha384Digest::from_bytes(&expected[..47], Endian::LittleEndian),
        Err(Secp384r1Error::InvalidLength)
    ));
}
