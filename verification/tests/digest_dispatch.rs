use proposed_traits::digest::{DigestAlgorithm, DigestCtrlReset, DigestInit, DigestOp};
use proposed_traits::simulation::digest_dispatch::{
    Controller, Digest, HashAlgo, Sha2_256, Sha2_384, Sha2_512, Sha3_224, Sha3_256, Sha3_384,
    Sha3_512,
};

#[test]
fn controller_sha256_digest_is_zero() {
    let mut controller = Controller;
    let mut op = controller.init(Sha2_256).unwrap();
    op.update(b"hello world").unwrap();
    let digest = op.finalize().unwrap();
    assert_eq!(digest.value, [0u32; 8]);
    assert_eq!(digest.as_ref().len(), 32);
    assert!(digest.as_ref().iter().all(|&b| b == 0));
}

#[test]
fn controller_reset_and_configure() {
    let mut controller = Controller;
    controller.reset().unwrap();
    controller.configure(HashAlgo::SHA384);
    controller.start_hash_operation();
    controller.wait_for_done();
    let words: [u32; 12] = controller.read_digest();
    assert_eq!(words, [0u32; 12]);
}

#[test]
fn digest_bytes_are_native_words() {
    let d = Digest { value: [0x0102_0304u32, 0xA0B0_C0D0] };
    let bytes = d.as_bytes();
    assert_eq!(bytes.len(), 8);
    let mut expected = Vec::new();
    expected.extend_from_slice(&0x0102_0304u32.to_ne_bytes());
    expected.extend_from_slice(&0xA0B0_C0D0u32.to_ne_bytes());
    assert_eq!(bytes, &expected[..]);
    assert_eq!(d.as_ref(), &expected[..]);
}

#[test]
fn algorithm_output_sizes() {
    assert_eq!(Sha2_256::OUTPUT_BITS, 256);
    assert_eq!(Sha2_384::OUTPUT_BITS, 384);
    assert_eq!(Sha2_512::OUTPUT_BITS, 512);
    assert_eq!(Sha3_224::OUTPUT_BITS, 224);
    assert_eq!(Sha3_256::OUTPUT_BITS, 256);
    assert_eq!(Sha3_384::OUTPUT_BITS, 384);
    assert_eq!(Sha3_512::OUTPUT_BITS, 512);
    let d: <Sha3_224 as DigestAlgorithm>::DigestOutput = Digest { value: [0; 7] };
    assert_eq!(d.as_ref().len() * 8, Sha3_224::OUTPUT_BITS);
}
