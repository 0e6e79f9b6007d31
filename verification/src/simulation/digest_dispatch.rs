//! A simulated hash controller that implements the digest traits.
//!
//! The controller has no hash engine behind it: configuring, starting and
//! waiting do nothing, and the digest registers read back as zero words.

use vstd::prelude::*;
use crate::digest::{DigestAlgorithm, DigestCtrlReset, DigestInit, DigestOp, Error, ErrorKind, ErrorType};

verus! {

/// A digest value of `N` 32-bit words.
#[derive(Copy, Clone, PartialEq, Eq)]
pub struct Digest<const N: usize> {
    pub value: [u32; N],
}

/// Little-endian bytes of a word.
pub open spec fn word_le_bytes(w: u32) -> Seq<u8> {
    seq![(w & 0xff) as u8, ((w >> 8u32) & 0xff) as u8, ((w >> 16u32) & 0xff) as u8, ((w >> 24u32) & 0xff) as u8]
}

/// Big-endian bytes of a word.
pub open spec fn word_be_bytes(w: u32) -> Seq<u8> {
    word_le_bytes(w).reverse()
}

/// The bytes of `words` laid out word after word, each word in
/// little-endian (`little == true`) or big-endian order.
pub open spec fn words_as_bytes_in_order(words: Seq<u32>, little: bool) -> Seq<u8> {
    Seq::new(
        words.len() * 4,
        |k: int|
            if little {
                word_le_bytes(words[k / 4])[k % 4]
            } else {
                word_be_bytes(words[k / 4])[k % 4]
            },
    )
}

/// The in-memory bytes of a word array, as `zerocopy::IntoBytes::as_bytes`
/// gives them: the words in order, each in the machine's native byte order.
/// Which of the two orders that is depends on the target, so the contract
/// states only that it is one of them for all words alike.
#[verifier::external_body]
fn words_native_bytes<const N: usize>(words: &[u32; N]) -> (bytes: &[u8])
    ensures
        bytes@ == words_as_bytes_in_order(words@, true) || bytes@ == words_as_bytes_in_order(
            words@,
            false,
        ),
{
    zerocopy::IntoBytes::as_bytes(words)
}

impl<const N: usize> Digest<N> {
    /// The digest bytes as laid out in memory: the words in order, each in
    /// native byte order.
    pub fn as_bytes(&self) -> (bytes: &[u8])
        ensures
            bytes@ == words_as_bytes_in_order(self.value@, true) || bytes@ == words_as_bytes_in_order(
                self.value@,
                false,
            ),
    {
        words_native_bytes(&self.value)
    }
}

impl<const N: usize> AsRef<[u8]> for Digest<N> {
    /// The digest bytes, as `as_bytes` gives them.
    fn as_ref(&self) -> (bytes: &[u8])
        ensures
            bytes@ == words_as_bytes_in_order(self.value@, true) || bytes@ == words_as_bytes_in_order(
                self.value@,
                false,
            ),
    {
        self.as_bytes()
    }
}

/// SHA2-256 marker.
#[derive(Clone, Copy, Debug)]
pub struct Sha2_256;

impl DigestAlgorithm for Sha2_256 {
    const OUTPUT_BITS: usize = 256usize;

    type DigestOutput = Digest<8>;
}

/// SHA2-384 marker.
#[derive(Clone, Copy, Debug)]
pub struct Sha2_384;

impl DigestAlgorithm for Sha2_384 {
    const OUTPUT_BITS: usize = 384usize;

    type DigestOutput = Digest<12>;
}

/// SHA2-512 marker.
#[derive(Clone, Copy, Debug)]
pub struct Sha2_512;

impl DigestAlgorithm for Sha2_512 {
    const OUTPUT_BITS: usize = 512;

    type DigestOutput = Digest<16>;
}

/// SHA3-224 marker.
#[derive(Clone, Copy, Debug)]
pub struct Sha3_224;

impl DigestAlgorithm for Sha3_224 {
    const OUTPUT_BITS: usize = 224usize;

    type DigestOutput = Digest<7>;
}

/// SHA3-256 marker.
#[derive(Clone, Copy, Debug)]
pub struct Sha3_256;

impl DigestAlgorithm for Sha3_256 {
    const OUTPUT_BITS: usize = 256usize;

    type DigestOutput = Digest<8>;
}

/// SHA3-384 marker.
#[derive(Clone, Copy, Debug)]
pub struct Sha3_384;

impl DigestAlgorithm for Sha3_384 {
    const OUTPUT_BITS: usize = 384usize;

    type DigestOutput = Digest<12>;
}

/// SHA3-512 marker.
#[derive(Clone, Copy, Debug)]
pub struct Sha3_512;

impl DigestAlgorithm for Sha3_512 {
    const OUTPUT_BITS: usize = 512;

    type DigestOutput = Digest<16>;
}

/// Hash algorithms the controller can be configured for.
#[derive(Copy, Clone)]
pub enum HashAlgo {
    SHA1,
    SHA224,
    SHA256,
    SHA384,
    SHA512,
    SHA512_224,
    SHA512_256,
}

/// The simulated hash controller.
pub struct Controller;

impl Controller {
    /// Configure the controller for the specified hash algorithm.
    pub fn configure(&mut self, _algo: HashAlgo)
        ensures
            *final(self) == *old(self),
    {
    }

    /// Read the digest registers: all `N` words read back as zero.
    pub fn read_digest<const N: usize>(&self) -> (words: [u32; N])
        ensures
            words@ == Seq::new(N as nat, |i: int| 0u32),
    {
        let words = [0;N];
        assert(words@ =~= Seq::new(N as nat, |i: int| 0u32));
        words
    }

    /// Start a hash operation.
    pub fn start_hash_operation(&mut self)
        ensures
            *final(self) == *old(self),
    {
    }

    /// Wait for the hash operation to complete.
    pub fn wait_for_done(&mut self)
        ensures
            *final(self) == *old(self),
    {
    }
}

/// The controller's error: a bare error kind.
#[derive(Debug)]
pub struct MyDigestError(ErrorKind);

impl MyDigestError {
    /// The kind this error carries.
    pub closed spec fn carried_kind(&self) -> ErrorKind {
        self.0
    }
}

impl Error for MyDigestError {
    fn kind(&self) -> (k: ErrorKind)
        ensures
            k == self.carried_kind(),
    {
        self.0
    }
}

impl ErrorType for Controller {
    type Error = MyDigestError;
}

impl DigestInit<Sha2_256> for Controller {
    type OpContext<'a> = ControllerOpContext<'a, Sha2_256>;

    fn init<'a>(&'a mut self, algo: Sha2_256) -> (r: Result<ControllerOpContext<'a, Sha2_256>, MyDigestError>)
        ensures
            r is Ok,
    {
        self.configure(HashAlgo::SHA256);
        Ok(ControllerOpContext { controller: self, algo })
    }
}

impl DigestCtrlReset for Controller {
    fn reset(&mut self) -> (r: Result<(), MyDigestError>)
        ensures
            r is Ok,
            *final(self) == *old(self),
    {
        Ok(())
    }
}

/// A digest operation in progress on the controller.
pub struct ControllerOpContext<'a, A: DigestAlgorithm> {
    controller: &'a mut Controller,
    algo: A,
}

impl<'a, A: DigestAlgorithm> ErrorType for ControllerOpContext<'a, A> {
    type Error = MyDigestError;
}

impl<'a, A, const N: usize> DigestOp for ControllerOpContext<'a, A> where
    A: DigestAlgorithm<DigestOutput = Digest<N>>,
 {
    type Output = Digest<N>;

    fn update(&mut self, _input: &[u8]) -> (r: Result<(), MyDigestError>)
        ensures
            r is Ok,
    {
        self.controller.start_hash_operation();
        Ok(())
    }

    fn finalize(self) -> (r: Result<Digest<N>, MyDigestError>)
        ensures
            r matches Ok(d) && d.value@ == Seq::new(N as nat, |i: int| 0u32),
    {
        self.controller.wait_for_done();
        let value = self.controller.read_digest();
        Ok(Digest { value })
    }
}


/// Whichever the native byte order, a digest of `N` words is `4 * N` bytes
/// long and each word occupies its own four bytes.
pub proof fn law_digest_bytes_layout(words: Seq<u32>, little: bool, k: int)
    requires
        0 <= k < words.len() * 4,
    ensures
        words_as_bytes_in_order(words, little).len() == words.len() * 4,
        words_as_bytes_in_order(words, little)[k] == if little {
            word_le_bytes(words[k / 4])[k % 4]
        } else {
            word_be_bytes(words[k / 4])[k % 4]
        },
{
}

} // verus!
