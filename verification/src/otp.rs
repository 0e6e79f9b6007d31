//! Composable traits for one-time-programmable (OTP) memory devices.
//!
//! `OtpMemory<T>` is the core read/write/lock interface; every other trait
//! is an optional capability that a device may add.  The `examples` module
//! holds a verified in-memory device that implements the core trait together
//! with soak programming.

use vstd::prelude::*;

pub mod examples;

verus! {

/// Represents the category of an error that occurred during OTP memory operations.
#[non_exhaustive]
#[derive(Debug, Copy, Clone, Eq, PartialEq, Ord, PartialOrd, Hash)]
pub enum ErrorKind {
    /// The specified address is out of bounds or invalid.
    InvalidAddress,
    /// The memory is locked and cannot be written to.
    MemoryLocked,
    /// A write operation failed due to hardware or timing issues.
    WriteFailed,
    /// A read operation failed due to hardware or timing issues.
    ReadFailed,
    /// The lock operation failed or was not acknowledged.
    LockFailed,
    /// Programming verification failed after write.
    VerificationFailed,
    /// No remaining write attempts for this location.
    WriteExhausted,
    /// Session not established or expired.
    NoSession,
    /// Region is protected and cannot be modified.
    RegionProtected,
    /// Address alignment error.
    AlignmentError,
    /// Buffer length exceeds boundaries.
    BoundaryError,
    /// Hardware access timeout.
    Timeout,
    /// An unspecified or unknown error occurred.
    Unknown,
}

/// Converts an implementation-defined error into a generic [`ErrorKind`].
pub trait Error: core::fmt::Debug {
    /// Convert error to a generic error kind.
    fn kind(&self) -> ErrorKind;
}

impl Error for core::convert::Infallible {
    /// No value of `Infallible` exists, so this body is never reached.
    fn kind(&self) -> ErrorKind {
        ErrorKind::Unknown
    }
}

/// Associates a type with its error type.
pub trait ErrorType {
    /// Error type.
    type Error: Error;
}

/// A generic One-Time Programmable memory interface over words of type `T`.
pub trait OtpMemory<T>: ErrorType where T: Copy + Default {
    /// Reads a value of type `T` from the specified memory address.
    fn read(&self, address: usize) -> Result<T, Self::Error>;

    /// Writes a value of type `T` to the specified memory address.
    fn write(&mut self, address: usize, data: T) -> Result<(), Self::Error>;

    /// Permanently locks the OTP memory to prevent further writes.
    fn lock(&mut self) -> Result<(), Self::Error>;

    /// Checks whether the OTP memory is currently locked.
    fn is_locked(&self) -> bool;
}

/// Optional session-based access control.
pub trait OtpSession: ErrorType {
    /// Session information type returned when establishing a session.
    type SessionInfo;

    /// Establish an OTP session with hardware access.
    fn begin_session(&mut self) -> Result<Self::SessionInfo, Self::Error>;

    /// Terminate the OTP session and release resources.
    fn end_session(&mut self) -> Result<(), Self::Error>;

    /// Check if a session is currently active.
    fn is_session_active(&self) -> bool;
}

/// Optional support for several memory regions.
pub trait OtpRegions<T>: ErrorType where T: Copy + Default {
    /// Region identifier type.
    type Region: Copy + core::fmt::Debug + PartialEq;

    /// Read data from a specific OTP region into `buffer`.
    fn read_region(&self, region: Self::Region, offset: usize, buffer: &mut [T]) -> Result<
        (),
        Self::Error,
    >;

    /// Write data to a specific OTP region.
    fn write_region(&mut self, region: Self::Region, offset: usize, data: &[T]) -> Result<
        (),
        Self::Error,
    >;

    /// The capacity of a region in elements of type `T`.
    fn region_capacity(&self, region: Self::Region) -> usize;

    /// The alignment requirement of a region in bytes.
    fn region_alignment(&self, region: Self::Region) -> usize;
}

/// Optional protection mechanisms for regions or the whole memory.
pub trait OtpProtection: ErrorType {
    /// Region identifier type.
    type Region: Copy + core::fmt::Debug + PartialEq;

    /// Check if a specific region is protected.
    fn is_region_protected(&self, region: Self::Region) -> Result<bool, Self::Error>;

    /// Enable protection for a specific region.
    fn enable_region_protection(&mut self, region: Self::Region) -> Result<(), Self::Error>;

    /// Check if the entire memory is globally locked.
    fn is_globally_locked(&self) -> Result<bool, Self::Error>;

    /// Enable the global memory lock (typically irreversible).
    fn enable_global_lock(&mut self) -> Result<(), Self::Error>;
}

/// Optional tracking of the write attempts left per location.
pub trait OtpWriteTracking<T>: ErrorType where T: Copy + Default {
    /// Number of remaining write attempts for an address.
    fn remaining_writes(&self, address: usize) -> Result<u32, Self::Error>;

    /// Whether an address is still writable.
    fn is_writable(&self, address: usize) -> Result<bool, Self::Error>;

    /// Maximum number of write attempts per location.
    fn max_write_attempts(&self) -> u32;
}

/// Optional verification of programmed data.
pub trait OtpVerification<T>: ErrorType where T: Copy + Default + PartialEq {
    /// Verify that data at `address` matches `expected`.
    fn verify(&self, address: usize, expected: &[T]) -> Result<(), Self::Error>;

    /// Program and verify data in a single operation.
    fn program_and_verify(&mut self, address: usize, data: &[T]) -> Result<(), Self::Error>;
}

/// Optional chip identification.
pub trait OtpIdentification: ErrorType {
    /// Chip version or identifier type.
    type ChipVersion: Copy + core::fmt::Debug + PartialEq;

    /// Get the chip version or hardware identifier.
    fn get_chip_version(&self) -> Result<Self::ChipVersion, Self::Error>;

    /// Check if a feature is supported by this chip version.
    fn is_feature_supported(&self, feature: &str) -> Result<bool, Self::Error>;
}

/// Optional bulk memory operations.
pub trait OtpBulkOperations<T>: ErrorType where T: Copy + Default {
    /// Read consecutive values starting at `start_address` into `buffer`.
    fn read_bulk(&self, start_address: usize, buffer: &mut [T]) -> Result<(), Self::Error>;

    /// Write consecutive values starting at `start_address`.
    fn write_bulk(&mut self, start_address: usize, data: &[T]) -> Result<(), Self::Error>;

    /// Maximum number of elements in a single bulk operation.
    fn max_bulk_size(&self) -> usize;
}

/// Optional description of the memory layout.
pub trait OtpMemoryLayout: ErrorType {
    /// Region identifier type.
    type Region: Copy + core::fmt::Debug + PartialEq;

    /// Total memory capacity in bytes.
    fn total_capacity(&self) -> usize;

    /// Minimum alignment requirement for writes, in bytes.
    fn write_alignment(&self) -> usize;

    /// Size in bytes of the smallest independently programmable unit.
    fn programming_granularity(&self) -> usize;

    /// All available memory regions.
    fn list_regions(&self) -> Result<&[Self::Region], Self::Error>;

    /// `(start_addr, size, alignment)` of a region.
    fn get_region_info(&self, region: Self::Region) -> Result<(usize, usize, usize), Self::Error>;
}

/// Error information with optional address and message context.
#[derive(Debug, Clone, PartialEq)]
pub enum OtpErrorInfo {
    /// Basic error with just the kind.
    Simple(ErrorKind),
    /// Error with an additional context message.
    WithMessage(ErrorKind, &'static str),
    /// Error with address information.
    WithAddress(ErrorKind, usize),
    /// Error with both address and message.
    WithContext(ErrorKind, usize, &'static str),
}

impl OtpErrorInfo {
    /// Get the underlying error kind.
    pub fn kind(&self) -> (k: ErrorKind)
        ensures
            k == match *self {
                OtpErrorInfo::Simple(kind) => kind,
                OtpErrorInfo::WithMessage(kind, _) => kind,
                OtpErrorInfo::WithAddress(kind, _) => kind,
                OtpErrorInfo::WithContext(kind, _, _) => kind,
            },
    {
        match self {
            OtpErrorInfo::Simple(kind) => *kind,
            OtpErrorInfo::WithMessage(kind, _) => *kind,
            OtpErrorInfo::WithAddress(kind, _) => *kind,
            OtpErrorInfo::WithContext(kind, _, _) => *kind,
        }
    }

    /// Get the associated address, if any.
    pub fn address(&self) -> (a: Option<usize>)
        ensures
            a == match *self {
                OtpErrorInfo::WithAddress(_, addr) => Some(addr),
                OtpErrorInfo::WithContext(_, addr, _) => Some(addr),
                _ => None,
            },
    {
        match self {
            OtpErrorInfo::WithAddress(_, addr) => Some(*addr),
            OtpErrorInfo::WithContext(_, addr, _) => Some(*addr),
            _ => None,
        }
    }

    /// Get the associated message, if any.
    pub fn message(&self) -> (m: Option<&'static str>)
        ensures
            m == match *self {
                OtpErrorInfo::WithMessage(_, msg) => Some(msg),
                OtpErrorInfo::WithContext(_, _, msg) => Some(msg),
                _ => None,
            },
    {
        match self {
            OtpErrorInfo::WithMessage(_, msg) => Some(*msg),
            OtpErrorInfo::WithContext(_, _, msg) => Some(*msg),
            _ => None,
        }
    }
}

/// Optional access with several word widths.
pub trait OtpMultiWidth: ErrorType {
    /// Read an 8-bit value.
    fn read_u8(&self, address: usize) -> Result<u8, Self::Error>;

    /// Read a 16-bit value.
    fn read_u16(&self, address: usize) -> Result<u16, Self::Error>;

    /// Read a 32-bit value.
    fn read_u32(&self, address: usize) -> Result<u32, Self::Error>;

    /// Read a 64-bit value.
    fn read_u64(&self, address: usize) -> Result<u64, Self::Error>;

    /// Write an 8-bit value.
    fn write_u8(&mut self, address: usize, data: u8) -> Result<(), Self::Error>;

    /// Write a 16-bit value.
    fn write_u16(&mut self, address: usize, data: u16) -> Result<(), Self::Error>;

    /// Write a 32-bit value.
    fn write_u32(&mut self, address: usize, data: u32) -> Result<(), Self::Error>;

    /// Write a 64-bit value.
    fn write_u64(&mut self, address: usize, data: u64) -> Result<(), Self::Error>;

    /// Native word width of the device in bytes.
    fn native_width(&self) -> usize;
}

/// Optional "soak" programming: extended programming timing for bits that
/// do not respond to normal programming pulses.
pub trait OtpSoakProgramming<T>: ErrorType where T: Copy + Default {
    /// Configuration for soak programming parameters.
    type SoakConfig: Copy + core::fmt::Debug;

    /// Program data using extended "soak" timing.
    fn soak_program(&mut self, address: usize, data: &[T], config: Self::SoakConfig) -> Result<
        (),
        Self::Error,
    >;

    /// A conservative default soak configuration.
    fn default_soak_config(&self) -> Self::SoakConfig;

    /// Whether soak programming is available at `address`.
    fn is_soak_available(&self, address: usize) -> Result<bool, Self::Error>;

    /// Program normally and fall back to soak programming on failure.
    fn program_with_soak_fallback(
        &mut self,
        address: usize,
        data: &[T],
        config: Self::SoakConfig,
    ) -> Result<(), Self::Error>;

    /// A soak configuration suited to the given data pattern.
    fn recommend_soak_config(&self, data: &[T]) -> Result<Self::SoakConfig, Self::Error>;
}

} // verus!
