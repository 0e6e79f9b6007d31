//! Traits for message digest (hash) engines: a statically typed
//! init/update/finalize interface and an object-safe dynamic interface for
//! algorithms negotiated at run time.

use vstd::prelude::*;

verus! {

/// Common error kinds for digest operations.
#[derive(Debug, Copy, Clone, Eq, PartialEq, Ord, PartialOrd, Hash)]
#[non_exhaustive]
pub enum ErrorKind {
    /// The input data length is not valid for the hash function.
    InvalidInputLength,
    /// The specified hash algorithm is not supported by the hardware or software implementation.
    UnsupportedAlgorithm,
    /// Failed to allocate memory for the hash computation.
    MemoryAllocationFailure,
    /// Failed to initialize the hash computation context.
    InitializationError,
    /// Error occurred while updating the hash computation with new data.
    UpdateError,
    /// Error occurred while finalizing the hash computation.
    FinalizationError,
    /// The hardware accelerator is busy and cannot process the hash computation.
    Busy,
    /// General hardware failure during hash computation.
    HardwareFailure,
    /// The specified output size is not valid for the hash function.
    InvalidOutputSize,
    /// Insufficient permissions to access the hardware or perform the hash computation.
    PermissionDenied,
    /// The hash computation context has not been initialized.
    NotInitialized,
}

/// Registry of supported digest algorithms for protocol negotiation and discovery.
///
/// Designed for protocol-driven scenarios where digest algorithms are
/// negotiated or selected at run time.
pub trait DigestRegistry: ErrorType {
    /// The type of algorithm identifiers used by this registry.
    type AlgorithmId: Copy + core::fmt::Debug + PartialEq;

    /// The type of digest operations created by this registry.
    type DigestOp;

    /// Whether a specific algorithm is supported by this registry.
    fn supports_algorithm(&self, algorithm_id: Self::AlgorithmId) -> bool;

    /// The output size in bytes of a supported algorithm, `None` otherwise.
    fn get_output_size(&self, algorithm_id: Self::AlgorithmId) -> Option<usize>;

    /// Create a digest operation for the specified algorithm.
    fn create_digest(&mut self, algorithm_id: Self::AlgorithmId) -> Result<
        Self::DigestOp,
        Self::Error,
    >;

    /// All supported algorithm identifiers.
    fn supported_algorithms(&self) -> &[Self::AlgorithmId];
}

/// Object-safe digest operation for run-time algorithm selection.
///
/// `finalize` does not consume the operation; the result is retrieved with
/// `copy_output`, which copies `output_size()` bytes to the start of the
/// buffer and returns how many bytes it copied.
pub trait DynamicDigestOp {
    /// The type of error returned by digest operations.
    type Error: Error;

    /// The type of algorithm identifier for this digest operation.
    type AlgorithmId: Copy + core::fmt::Debug + PartialEq;

    /// Updates the digest state with the provided input data.
    fn update(&mut self, input: &[u8]) -> Result<(), Self::Error>;

    /// Finalizes the digest computation internally.
    fn finalize(&mut self) -> Result<(), Self::Error>;

    /// The number of bytes this digest algorithm produces.
    fn output_size(&self) -> usize;

    /// The algorithm identifier this operation was created with.
    fn algorithm_id(&self) -> Self::AlgorithmId;

    /// Copies the digest output to the start of `output`.
    fn copy_output(&self, output: &mut [u8]) -> Result<usize, Self::Error>;
}

/// Converts an implementation-specific error into a common error kind.
pub trait Error: core::fmt::Debug {
    /// Returns the generic error kind of this error.
    fn kind(&self) -> ErrorKind;
}

impl Error for core::convert::Infallible {
    /// No value of `Infallible` exists, so this body is never reached.
    fn kind(&self) -> ErrorKind {
        ErrorKind::HardwareFailure
    }
}

/// Associates a type with its error type.
pub trait ErrorType {
    /// The associated error type.
    type Error: Error;
}

/// A digest algorithm and its output characteristics.
///
/// The digest output is expected to be viewable as bytes (`AsRef<[u8]>`),
/// as the simulated `Digest` is; that bound is left to the implementations.
pub trait DigestAlgorithm {
    /// The number of bits in the digest output.
    const OUTPUT_BITS: usize;

    /// The type representing the digest output.
    type DigestOutput;
}

/// Initializes a digest operation for a specific algorithm.
pub trait DigestInit<A: DigestAlgorithm>: ErrorType {
    /// The operational context for the digest.
    type OpContext<'a>: DigestOp<Output = A::DigestOutput> where Self: 'a;

    /// Initializes the digest operation with the specified algorithm.
    fn init<'a>(&'a mut self, algo: A) -> Result<Self::OpContext<'a>, Self::Error>;
}

/// Optional reset of a digest context to its initial state.
pub trait DigestCtrlReset: ErrorType {
    /// Resets the digest context.
    fn reset(&mut self) -> Result<(), Self::Error>;
}

/// Performs digest operations.
pub trait DigestOp: ErrorType {
    /// The type of the digest output.
    type Output;

    /// Updates the digest state with the provided input data.
    fn update(&mut self, input: &[u8]) -> Result<(), Self::Error>;

    /// Finalizes the digest computation and returns the result.
    fn finalize(self) -> Result<Self::Output, Self::Error>;
}

} // verus!
