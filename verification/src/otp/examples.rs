//! A verified in-memory OTP device that implements the core `OtpMemory`
//! trait together with `OtpSoakProgramming`.
//!
//! The device is modelled by [`OtpImage`]: the word contents, the lock bit and
//! the address range on which soak programming is offered.  Every operation
//! is specified by a spec function on that model (`spec_read`, `spec_write`,
//! `spec_soak_program`, ...), and the laws at the end of the file are proved
//! over those spec functions.

use vstd::prelude::*;
use crate::otp::{Error, ErrorKind, ErrorType, OtpMemory, OtpSoakProgramming};

verus! {

/// Number of 32-bit words held by the example device.
pub const OTP_WORDS: usize = 1024;

/// Soak programming is offered on the addresses below this bound.
pub const SOAK_REGION_END: usize = 512;

/// Example soak programming configuration.
#[derive(Debug, Copy, Clone)]
pub struct SoakConfig {
    /// Extended programming pulse duration (in microseconds).
    pub pulse_duration_us: u32,
    /// Number of programming attempts with extended timing.
    pub retry_count: u8,
    /// Verification delay after programming (in microseconds).
    pub verify_delay_us: u32,
}

/// The configuration that `SoakConfig::default` returns.
pub open spec fn default_config() -> SoakConfig {
    SoakConfig { pulse_duration_us: 100, retry_count: 3, verify_delay_us: 10 }
}

impl Default for SoakConfig {
    /// A 100µs pulse, up to 3 attempts and a 10µs settle time.
    fn default() -> (c: Self)
        ensures
            c == default_config(),
    {
        SoakConfig {
            pulse_duration_us: 100,
            retry_count: 3,
            verify_delay_us: 10,
        }
    }
}

/// Errors of the example device.
#[derive(Debug, Copy, Clone)]
pub enum ExampleOtpError {
    /// The address lies outside the memory.
    InvalidAddress,
    /// The write was refused because the memory is locked.
    WriteFailed,
    /// A word did not read back as programmed.
    VerificationFailed,
    /// Soak programming is not offered at the address.
    SoakNotSupported,
}

/// The generic kind of each example error.
pub open spec fn example_error_kind(e: ExampleOtpError) -> ErrorKind {
    match e {
        ExampleOtpError::InvalidAddress => ErrorKind::InvalidAddress,
        ExampleOtpError::WriteFailed => ErrorKind::MemoryLocked,
        ExampleOtpError::VerificationFailed => ErrorKind::VerificationFailed,
        ExampleOtpError::SoakNotSupported => ErrorKind::Unknown,
    }
}

impl Error for ExampleOtpError {
    fn kind(&self) -> (k: ErrorKind)
        ensures
            k == example_error_kind(*self),
    {
        match self {
            ExampleOtpError::InvalidAddress => ErrorKind::InvalidAddress,
            ExampleOtpError::WriteFailed => ErrorKind::MemoryLocked,
            ExampleOtpError::VerificationFailed => ErrorKind::VerificationFailed,
            ExampleOtpError::SoakNotSupported => ErrorKind::Unknown,
        }
    }
}

/// Abstract state of an example OTP device.
#[verifier::ext_equal]
pub struct OtpImage {
    /// The stored words; index `a` is address `a`.
    pub memory: Seq<u32>,
    /// Whether the memory has been locked against further writes.
    pub locked: bool,
    /// First address on which soak programming is offered.
    pub soak_start: nat,
    /// One past the last address on which soak programming is offered.
    pub soak_end: nat,
}

/// `mem` with the words of `data` placed from address `at` on.
pub open spec fn overwrite(mem: Seq<u32>, at: int, data: Seq<u32>) -> Seq<u32> {
    Seq::new(mem.len(), |j: int| if at <= j < at + data.len() { data[j - at] } else { mem[j] })
}

/// The image with its memory replaced.
pub open spec fn with_memory(s: OtpImage, memory: Seq<u32>) -> OtpImage {
    OtpImage { memory, ..s }
}

/// Result of reading `address`.
pub open spec fn spec_read(s: OtpImage, address: int) -> Result<u32, ExampleOtpError> {
    if address < 0 || address >= s.memory.len() {
        Err(ExampleOtpError::InvalidAddress)
    } else {
        Ok(s.memory[address])
    }
}

/// State and result of a normal write of `data` at `address`.
pub open spec fn spec_write(s: OtpImage, address: int, data: u32) -> (OtpImage, Result<(), ExampleOtpError>) {
    if address < 0 || address >= s.memory.len() {
        (s, Err(ExampleOtpError::InvalidAddress))
    } else if s.locked {
        (s, Err(ExampleOtpError::WriteFailed))
    } else {
        (with_memory(s, s.memory.update(address, data)), Ok(()))
    }
}

/// State after locking.
pub open spec fn spec_lock(s: OtpImage) -> OtpImage {
    OtpImage { locked: true, ..s }
}

/// Whether soak programming is offered at `address`.
pub open spec fn spec_soak_available(s: OtpImage, address: int) -> bool {
    s.soak_start <= address < s.soak_end
}

/// State and result of soak programming `data` from `address` on with `cfg`.
///
/// Words are programmed in order.  With no data there is nothing to do; the
/// first word that falls outside the memory stops the operation with
/// `InvalidAddress`, leaving the earlier words programmed; with a retry count
/// of zero no attempt is made and the first word fails verification.  A
/// locked memory is never programmed: where a word would be written, the
/// operation is refused with `WriteFailed` and nothing changes.
pub open spec fn spec_soak_program(s: OtpImage, address: int, data: Seq<u32>, cfg: SoakConfig) -> (
    OtpImage,
    Result<(), ExampleOtpError>,
) {
    if !spec_soak_available(s, address) {
        (s, Err(ExampleOtpError::SoakNotSupported))
    } else if data.len() == 0 {
        (s, Ok(()))
    } else if address >= s.memory.len() {
        (s, Err(ExampleOtpError::InvalidAddress))
    } else if cfg.retry_count == 0 {
        (s, Err(ExampleOtpError::VerificationFailed))
    } else if s.locked {
        (s, Err(ExampleOtpError::WriteFailed))
    } else if address + data.len() <= s.memory.len() {
        (with_memory(s, overwrite(s.memory, address, data)), Ok(()))
    } else {
        (
            with_memory(s, overwrite(s.memory, address, data.take(s.memory.len() - address))),
            Err(ExampleOtpError::InvalidAddress),
        )
    }
}

/// Number of leading words of a program operation that a normal write
/// accepts before the first refusal (all of them if none is refused).
pub open spec fn normal_write_prefix(s: OtpImage, address: int, len: int) -> int {
    if s.locked || address < 0 || address >= s.memory.len() {
        0
    } else if address + len <= s.memory.len() {
        len
    } else {
        s.memory.len() - address
    }
}

/// State and result of programming with soak fallback: words are written
/// normally in order; at the first refused write the whole operation is
/// restarted with soak programming from `address`.
pub open spec fn spec_program_with_soak_fallback(
    s: OtpImage,
    address: int,
    data: Seq<u32>,
    cfg: SoakConfig,
) -> (OtpImage, Result<(), ExampleOtpError>) {
    let f = normal_write_prefix(s, address, data.len() as int);
    if f >= data.len() {
        (with_memory(s, overwrite(s.memory, address, data)), Ok(()))
    } else {
        spec_soak_program(with_memory(s, overwrite(s.memory, address, data.take(f))), address, data, cfg)
    }
}

/// Number of set bits of `x`.
pub open spec fn popcount(x: nat) -> nat
    decreases x,
{
    if x == 0 {
        0
    } else {
        x % 2 + popcount(x / 2)
    }
}

/// Total number of set bits in `data`.
pub open spec fn set_bits(data: Seq<u32>) -> nat
    decreases data.len(),
{
    if data.len() == 0 {
        0
    } else {
        set_bits(data.drop_last()) + popcount(data.last() as nat)
    }
}

/// The soak configuration recommended for `data`: above 80% set bits an
/// extended configuration, above 50% a moderate one, else the default.
pub open spec fn spec_recommended_config(data: Seq<u32>) -> SoakConfig {
    let set = set_bits(data);
    let total = data.len() * 32;
    if set * 5 > total * 4 {
        SoakConfig { pulse_duration_us: 200, retry_count: 5, verify_delay_us: 20 }
    } else if set * 2 > total {
        SoakConfig { pulse_duration_us: 150, retry_count: 4, verify_delay_us: 15 }
    } else {
        default_config()
    }
}

/// A number has no more set bits than its value.
proof fn lemma_popcount_le(x: nat)
    ensures
        popcount(x) <= x,
    decreases x,
{
    if x > 0 {
        lemma_popcount_le(x / 2);
    }
}

/// The number of set bits of `x`.
fn count_ones(x: u32) -> (ones: u32)
    ensures
        ones == popcount(x as nat),
{
    let mut v: u32 = x;
    let mut ones: u32 = 0;
    while v > 0
        invariant
            ones + popcount(v as nat) == popcount(x as nat),
        decreases v,
    {
        proof {
            lemma_popcount_le(x as nat);
            lemma_popcount_le((v / 2) as nat);
        }
        ones = ones + v % 2;
        v = v / 2;
    }
    ones
}

/// Example OTP device that implements both basic and soak programming.
pub struct ExampleOtpDevice {
    memory: [u32; 1024],
    locked: bool,
    soak_supported_regions: core::ops::Range<usize>,
}

impl View for ExampleOtpDevice {
    type V = OtpImage;

    closed spec fn view(&self) -> OtpImage {
        OtpImage {
            memory: self.memory@,
            locked: self.locked,
            soak_start: self.soak_supported_regions.start as nat,
            soak_end: self.soak_supported_regions.end as nat,
        }
    }
}

impl ExampleOtpDevice {
    /// Every device offers soak programming on exactly the first
    /// `SOAK_REGION_END` addresses; `use_type_invariant` gives this for any
    /// device a caller holds.
    #[verifier::type_invariant]
    pub open spec fn soak_region_is_first_half(&self) -> bool {
        self@.soak_start == 0 && self@.soak_end == SOAK_REGION_END
    }

    /// The memory always holds exactly `OTP_WORDS` words.
    pub proof fn lemma_memory_len(&self)
        ensures
            self@.memory.len() == OTP_WORDS,
    {
    }

    /// A device with all words zero, unlocked, offering soak programming on
    /// the first half of its memory.
    pub fn new() -> (d: Self)
        ensures
            d@.memory == Seq::new(OTP_WORDS as nat, |i: int| 0u32),
            !d@.locked,
            d@.soak_start == 0,
            d@.soak_end == SOAK_REGION_END,
    {
        let d = Self { memory: [0;1024], locked: false, soak_supported_regions: 0..512 };
        assert(d@.memory =~= Seq::new(OTP_WORDS as nat, |i: int| 0u32));
        d
    }
}

impl ErrorType for ExampleOtpDevice {
    type Error = ExampleOtpError;
}

impl OtpMemory<u32> for ExampleOtpDevice {
    fn read(&self, address: usize) -> (r: Result<u32, ExampleOtpError>)
        ensures
            r == spec_read(self@, address as int),
    {
        if address >= self.memory.len() {
            return Err(ExampleOtpError::InvalidAddress);
        }
        Ok(self.memory[address])
    }

    fn write(&mut self, address: usize, data: u32) -> (r: Result<(), ExampleOtpError>)
        ensures
            (final(self)@, r) == spec_write(old(self)@, address as int, data),
    {
        if address >= self.memory.len() {
            return Err(ExampleOtpError::InvalidAddress);
        }
        if self.locked {
            return Err(ExampleOtpError::WriteFailed);
        }
        proof { use_type_invariant(&*self); }
        self.memory[address] = data;
        Ok(())
    }

    fn lock(&mut self) -> (r: Result<(), ExampleOtpError>)
        ensures
            final(self)@ == spec_lock(old(self)@),
            r is Ok,
    {
        proof { use_type_invariant(&*self); }
        self.locked = true;
        Ok(())
    }

    fn is_locked(&self) -> (b: bool)
        ensures
            b == self@.locked,
    {
        self.locked
    }
}

impl OtpSoakProgramming<u32> for ExampleOtpDevice {
    type SoakConfig = SoakConfig;

    fn soak_program(&mut self, address: usize, data: &[u32], config: SoakConfig) -> (r: Result<
        (),
        ExampleOtpError,
    >)
        ensures
            final(self)@ == spec_soak_program(old(self)@, address as int, data@, config).0,
            r == spec_soak_program(old(self)@, address as int, data@, config).1,
    {
        let ghost s0 = self@;
        proof { self.lemma_memory_len(); }
        if !self.is_soak_available(address)? {
            return Err(ExampleOtpError::SoakNotSupported);
        }
        let n = data.len();
        let mut i: usize = 0;
        assert(overwrite(s0.memory, address as int, data@.take(0)) =~= s0.memory);
        while i < n
            invariant
                i <= n,
                n == data@.len(),
                s0 == old(self)@,
                s0.memory.len() == OTP_WORDS,
                spec_soak_available(s0, address as int),
                self@ == with_memory(s0, overwrite(s0.memory, address as int, data@.take(i as int))),
                i > 0 ==> address + i <= OTP_WORDS && config.retry_count > 0 && !s0.locked,
            decreases n - i,
        {
            proof { self.lemma_memory_len(); }
            let addr = address + i;
            let value = data[i];
            if addr >= self.memory.len() {
                assert(overwrite(s0.memory, address as int, data@.take(0)) =~= s0.memory);
                assert(i > 0 ==> i == OTP_WORDS - address);
                return Err(ExampleOtpError::InvalidAddress);
            }
            let ghost before = self@;
            let mut success = false;
            let mut refused = false;
            let mut attempt: u8 = 0;
            while attempt < config.retry_count
                invariant_except_break
                    attempt == 0,
                    !success,
                    !refused,
                    self@ == before,
                invariant
                    addr < OTP_WORDS,
                ensures
                    !(success && refused),
                    success || refused <==> config.retry_count > 0,
                    success ==> !before.locked && self@ == with_memory(
                        before,
                        before.memory.update(addr as int, value),
                    ),
                    refused ==> before.locked && self@ == before,
                    !success ==> self@ == before,
                decreases config.retry_count - attempt,
            {
                if self.locked {
                    refused = true;
                    break;
                }
                proof { use_type_invariant(&*self); }
                self.memory[addr] = value;
                if self.memory[addr] == value {
                    success = true;
                    break;
                }
                attempt += 1;
            }
            if refused {
                assert(overwrite(s0.memory, address as int, data@.take(0)) =~= s0.memory);
                return Err(ExampleOtpError::WriteFailed);
            }
            if !success {
                assert(overwrite(s0.memory, address as int, data@.take(0)) =~= s0.memory);
                return Err(ExampleOtpError::VerificationFailed);
            }
            assert(overwrite(s0.memory, address as int, data@.take(i + 1)) =~= overwrite(
                s0.memory,
                address as int,
                data@.take(i as int),
            ).update(addr as int, value));
            i += 1;
        }
        assert(data@.take(n as int) =~= data@);
        Ok(())
    }

    fn default_soak_config(&self) -> (c: SoakConfig)
        ensures
            c == default_config(),
    {
        SoakConfig::default()
    }

    fn is_soak_available(&self, address: usize) -> (r: Result<bool, ExampleOtpError>)
        ensures
            r == Ok::<bool, ExampleOtpError>(spec_soak_available(self@, address as int)),
    {
        Ok(self.soak_supported_regions.contains(&address))
    }

    fn program_with_soak_fallback(
        &mut self,
        address: usize,
        data: &[u32],
        config: SoakConfig,
    ) -> (r: Result<(), ExampleOtpError>)
        ensures
            final(self)@ == spec_program_with_soak_fallback(old(self)@, address as int, data@, config).0,
            r == spec_program_with_soak_fallback(old(self)@, address as int, data@, config).1,
    {
        let ghost s0 = self@;
        proof { self.lemma_memory_len(); }
        let n = data.len();
        let mut i: usize = 0;
        assert(overwrite(s0.memory, address as int, data@.take(0)) =~= s0.memory);
        while i < n
            invariant
                i <= n,
                n == data@.len(),
                s0 == old(self)@,
                s0.memory.len() == OTP_WORDS,
                self@ == with_memory(s0, overwrite(s0.memory, address as int, data@.take(i as int))),
                i <= normal_write_prefix(s0, address as int, n as int),
                i > 0 ==> address + i <= OTP_WORDS && !s0.locked,
            decreases n - i,
        {
            let addr = address + i;
            let value = data[i];
            if let Err(_) = self.write(addr, value) {
                assert(i == normal_write_prefix(s0, address as int, n as int));
                return self.soak_program(address, data, config);
            }
            if self.read(addr)? != value {
                return self.soak_program(address, data, config);
            }
            assert(overwrite(s0.memory, address as int, data@.take(i + 1)) =~= overwrite(
                s0.memory,
                address as int,
                data@.take(i as int),
            ).update(addr as int, value));
            i += 1;
        }
        assert(data@.take(n as int) =~= data@);
        Ok(())
    }

    fn recommend_soak_config(&self, data: &[u32]) -> (r: Result<SoakConfig, ExampleOtpError>)
        ensures
            r == Ok::<SoakConfig, ExampleOtpError>(spec_recommended_config(data@)),
    {
        let n = data.len();
        let total_bits: u128 = n as u128 * 32;
        let mut set: u128 = 0;
        let mut i: usize = 0;
        while i < n
            invariant
                i <= n,
                n == data@.len(),
                set == set_bits(data@.take(i as int)),
                set <= i * 0xffff_ffff,
            decreases n - i,
        {
            let ones = count_ones(data[i]);
            assert(data@.take(i + 1).drop_last() =~= data@.take(i as int));
            set = set + ones as u128;
            i += 1;
        }
        assert(data@.take(n as int) =~= data@);
        let config = if set * 5 > total_bits * 4 {
            SoakConfig { pulse_duration_us: 200, retry_count: 5, verify_delay_us: 20 }
        } else if set * 2 > total_bits {
            SoakConfig { pulse_duration_us: 150, retry_count: 4, verify_delay_us: 15 }
        } else {
            self.default_soak_config()
        };
        Ok(config)
    }
}


/// Reading an address right after a successful write there gives back the
/// written word.
pub proof fn law_read_after_write(s: OtpImage, address: int, data: u32)
    requires
        spec_write(s, address, data).1 is Ok,
    ensures
        spec_read(spec_write(s, address, data).0, address) == Ok::<u32, ExampleOtpError>(data),
{
}

/// A write leaves every other address as it was.
pub proof fn law_write_preserves_other_addresses(s: OtpImage, address: int, data: u32, other: int)
    requires
        other != address,
    ensures
        spec_read(spec_write(s, address, data).0, other) == spec_read(s, other),
{
}

/// A write is accepted exactly when the address lies in the memory and the
/// device is unlocked; a refused write changes nothing.
pub proof fn law_write_accepted_iff_in_range_and_unlocked(s: OtpImage, address: int, data: u32)
    ensures
        spec_write(s, address, data).1 is Ok <==> (0 <= address < s.memory.len() && !s.locked),
        spec_write(s, address, data).1 is Err ==> spec_write(s, address, data).0 == s,
{
}

/// Locking is permanent and locked memory accepts no further writes: on a
/// locked device every write, soak programming and programming with soak
/// fallback leaves the device exactly as it was, and the lock bit is never
/// cleared.  A normal write is refused, and so is soak programming wherever
/// it would otherwise write a word; programming with soak fallback of any
/// word fails.
pub proof fn law_lock_is_permanent(
    s: OtpImage,
    address: int,
    word: u32,
    data: Seq<u32>,
    cfg: SoakConfig,
)
    ensures
        spec_lock(s).locked,
        spec_write(spec_lock(s), address, word).1 is Err,
        s.locked ==> spec_write(s, address, word).0 == s,
        s.locked ==> spec_soak_program(s, address, data, cfg).0 == s,
        s.locked ==> spec_program_with_soak_fallback(s, address, data, cfg).0 == s,
        s.locked && spec_soak_available(s, address) && data.len() > 0 && address < s.memory.len()
            && cfg.retry_count > 0 ==> spec_soak_program(s, address, data, cfg).1 == Err::<
            (),
            ExampleOtpError,
        >(ExampleOtpError::WriteFailed),
        s.locked && data.len() > 0 ==> spec_program_with_soak_fallback(s, address, data, cfg).1 is Err,
{
    if s.locked {
        assert(overwrite(s.memory, address, data.take(0)) =~= s.memory);
        assert(with_memory(s, s.memory) == s);
        if data.len() == 0 {
            assert(overwrite(s.memory, address, data) =~= s.memory);
        }
    }
}

/// Soak programming that reports success leaves each word of the data
/// readable at its address.
pub proof fn law_soak_program_stores_data(s: OtpImage, address: int, data: Seq<u32>, cfg: SoakConfig)
    requires
        spec_soak_program(s, address, data, cfg).1 is Ok,
    ensures
        forall|i: int|
            0 <= i < data.len() ==> #[trigger] spec_read(spec_soak_program(s, address, data, cfg).0, address + i)
                == Ok::<u32, ExampleOtpError>(data[i]),
{
}

/// Programming with soak fallback that reports success leaves each word of
/// the data readable at its address, whichever path was taken.
pub proof fn law_program_with_soak_fallback_stores_data(
    s: OtpImage,
    address: int,
    data: Seq<u32>,
    cfg: SoakConfig,
)
    requires
        spec_program_with_soak_fallback(s, address, data, cfg).1 is Ok,
    ensures
        forall|i: int|
            0 <= i < data.len() ==> #[trigger] spec_read(
                spec_program_with_soak_fallback(s, address, data, cfg).0,
                address + i,
            ) == Ok::<u32, ExampleOtpError>(data[i]),
{
    let f = normal_write_prefix(s, address, data.len() as int);
    if f < data.len() {
        let mid = with_memory(s, overwrite(s.memory, address, data.take(f)));
        law_soak_program_stores_data(mid, address, data, cfg);
    }
}

/// Soak programming and programming with soak fallback change no word
/// outside the addressed range, whatever their outcome, and keep the soak
/// region.
pub proof fn law_programming_changes_only_target_range(
    s: OtpImage,
    address: int,
    data: Seq<u32>,
    cfg: SoakConfig,
    other: int,
)
    requires
        !(address <= other < address + data.len()),
    ensures
        spec_read(spec_soak_program(s, address, data, cfg).0, other) == spec_read(s, other),
        spec_read(spec_program_with_soak_fallback(s, address, data, cfg).0, other) == spec_read(
            s,
            other,
        ),
        spec_soak_program(s, address, data, cfg).0.memory.len() == s.memory.len(),
        spec_program_with_soak_fallback(s, address, data, cfg).0.soak_start == s.soak_start,
        spec_program_with_soak_fallback(s, address, data, cfg).0.soak_end == s.soak_end,
{
    let f = normal_write_prefix(s, address, data.len() as int);
    if f < data.len() {
        let mid = with_memory(s, overwrite(s.memory, address, data.take(f)));
        assert(spec_read(mid, other) == spec_read(s, other));
    }
}

/// Soak programming of an unlocked device succeeds whenever it is offered
/// at the address, the data fits in the memory and at least one attempt is
/// allowed.
pub proof fn law_soak_program_succeeds(s: OtpImage, address: int, data: Seq<u32>, cfg: SoakConfig)
    requires
        !s.locked,
        spec_soak_available(s, address),
        address + data.len() <= s.memory.len(),
        cfg.retry_count > 0,
    ensures
        spec_soak_program(s, address, data, cfg).1 is Ok,
{
}

/// On an unlocked device, data that fits in the memory is programmed by
/// normal writes alone and the operation succeeds.
pub proof fn law_program_with_soak_fallback_normal_path(
    s: OtpImage,
    address: int,
    data: Seq<u32>,
    cfg: SoakConfig,
)
    requires
        !s.locked,
        0 <= address,
        address + data.len() <= s.memory.len(),
    ensures
        spec_program_with_soak_fallback(s, address, data, cfg) == (
            with_memory(s, overwrite(s.memory, address, data)),
            Ok::<(), ExampleOtpError>(()),
        ),
{
}

/// The default and every recommended soak configuration allow at least
/// three programming attempts, so soak programming with them never fails
/// verification.
pub proof fn law_recommended_configs_allow_retries(data: Seq<u32>)
    ensures
        default_config().retry_count >= 3,
        spec_recommended_config(data).retry_count >= 3,
{
}


/// One operation on an example device, with its arguments.
pub enum OtpOperation {
    Read(int),
    Write(int, u32),
    Lock,
    SoakProgram(int, Seq<u32>, SoakConfig),
    ProgramWithSoakFallback(int, Seq<u32>, SoakConfig),
    RecommendSoakConfig(Seq<u32>),
}

/// The device state after one operation.
pub open spec fn spec_step(s: OtpImage, op: OtpOperation) -> OtpImage {
    match op {
        OtpOperation::Read(_) => s,
        OtpOperation::Write(address, word) => spec_write(s, address, word).0,
        OtpOperation::Lock => spec_lock(s),
        OtpOperation::SoakProgram(address, data, cfg) => spec_soak_program(s, address, data, cfg).0,
        OtpOperation::ProgramWithSoakFallback(address, data, cfg) => spec_program_with_soak_fallback(
            s,
            address,
            data,
            cfg,
        ).0,
        OtpOperation::RecommendSoakConfig(_) => s,
    }
}

/// The device state after a sequence of operations, performed in order.
pub open spec fn spec_run(s: OtpImage, ops: Seq<OtpOperation>) -> OtpImage
    decreases ops.len(),
{
    if ops.len() == 0 {
        s
    } else {
        spec_step(spec_run(s, ops.drop_last()), ops.last())
    }
}

/// The lock is permanent over any sequence of operations: once locked, a
/// device stays exactly as it was (in particular locked) after every prefix
/// of the sequence, and every write in the sequence is refused.
pub proof fn law_lock_is_permanent_over_any_sequence(s: OtpImage, ops: Seq<OtpOperation>)
    requires
        s.locked,
    ensures
        spec_run(s, ops) == s,
        forall|k: int| 0 <= k <= ops.len() ==> #[trigger] spec_run(s, ops.take(k)) == s,
        forall|k: int|
            0 <= k < ops.len() ==> (#[trigger] ops[k] matches OtpOperation::Write(address, word)
                ==> spec_write(spec_run(s, ops.take(k)), address, word).1 is Err),
{
    assert forall|k: int| 0 <= k <= ops.len() implies #[trigger] spec_run(s, ops.take(k)) == s by {
        lemma_run_locked_stays(s, ops.take(k));
    }
    assert(ops.take(ops.len() as int) =~= ops);
    assert forall|k: int| 0 <= k < ops.len() implies (#[trigger] ops[k] matches OtpOperation::Write(
        address,
        word,
    ) ==> spec_write(spec_run(s, ops.take(k)), address, word).1 is Err) by {
        lemma_run_locked_stays(s, ops.take(k));
    }
}

/// A locked device is unchanged by any sequence of operations.
proof fn lemma_run_locked_stays(s: OtpImage, ops: Seq<OtpOperation>)
    requires
        s.locked,
    ensures
        spec_run(s, ops) == s,
    decreases ops.len(),
{
    if ops.len() > 0 {
        lemma_run_locked_stays(s, ops.drop_last());
        match ops.last() {
            OtpOperation::Write(address, word) => law_lock_is_permanent(s, address, word, seq![], default_config()),
            OtpOperation::SoakProgram(address, data, cfg) => law_lock_is_permanent(s, address, 0, data, cfg),
            OtpOperation::ProgramWithSoakFallback(address, data, cfg) => law_lock_is_permanent(s, address, 0, data, cfg),
            OtpOperation::Lock => {},
            _ => {},
        }
    }
}


/// Only locking changes the lock bit: a write, soak programming and
/// programming with soak fallback leave it as it was, so a device that was
/// unlocked still accepts normal writes afterwards.  None of them changes
/// the memory size or the soak region.
pub proof fn law_programming_keeps_lock_bit(
    s: OtpImage,
    address: int,
    word: u32,
    data: Seq<u32>,
    cfg: SoakConfig,
)
    ensures
        spec_write(s, address, word).0.locked == s.locked,
        spec_soak_program(s, address, data, cfg).0.locked == s.locked,
        spec_program_with_soak_fallback(s, address, data, cfg).0.locked == s.locked,
        spec_write(s, address, word).0.memory.len() == s.memory.len(),
        spec_soak_program(s, address, data, cfg).0.memory.len() == s.memory.len(),
        spec_program_with_soak_fallback(s, address, data, cfg).0.memory.len() == s.memory.len(),
        spec_write(s, address, word).0.soak_start == s.soak_start,
        spec_write(s, address, word).0.soak_end == s.soak_end,
        spec_soak_program(s, address, data, cfg).0.soak_start == s.soak_start,
        spec_soak_program(s, address, data, cfg).0.soak_end == s.soak_end,
{
}

/// Two writes to distinct in-range addresses of an unlocked device both
/// succeed, and afterwards each address reads back the word written to it
/// and the device is still unlocked.
pub proof fn law_two_writes_both_succeed(s: OtpImage, a: int, x: u32, b: int, y: u32)
    requires
        !s.locked,
        0 <= a < s.memory.len(),
        0 <= b < s.memory.len(),
        a != b,
    ensures
        spec_write(s, a, x).1 is Ok,
        spec_write(spec_write(s, a, x).0, b, y).1 is Ok,
        !spec_write(spec_write(s, a, x).0, b, y).0.locked,
        spec_read(spec_write(spec_write(s, a, x).0, b, y).0, a) == Ok::<u32, ExampleOtpError>(x),
        spec_read(spec_write(spec_write(s, a, x).0, b, y).0, b) == Ok::<u32, ExampleOtpError>(y),
{
}

/// Locking changes only the lock bit: every address reads as before, and
/// the soak region is kept.
pub proof fn law_lock_keeps_memory(s: OtpImage, address: int)
    ensures
        spec_lock(s).memory == s.memory,
        spec_read(spec_lock(s), address) == spec_read(s, address),
        spec_lock(s).soak_start == s.soak_start,
        spec_lock(s).soak_end == s.soak_end,
        spec_lock(s).locked,
{
}

/// Locking is idempotent.
pub proof fn law_lock_idempotent(s: OtpImage)
    ensures
        spec_lock(spec_lock(s)) == spec_lock(s),
{
}

/// On a fresh-style unlocked device, soak programming that succeeds leaves it
/// unlocked, so normal writes to in-range addresses are still accepted.
pub proof fn law_soak_program_then_write(
    s: OtpImage,
    address: int,
    data: Seq<u32>,
    cfg: SoakConfig,
    target: int,
    word: u32,
)
    requires
        !s.locked,
        0 <= target < s.memory.len(),
    ensures
        spec_write(spec_soak_program(s, address, data, cfg).0, target, word).1 is Ok,
        spec_write(spec_program_with_soak_fallback(s, address, data, cfg).0, target, word).1 is Ok,
{
}

/// The number of set bits of a sequence of words lies between zero and 32
/// bits per word; a word of all ones has 32 set bits and zero has none.
pub proof fn law_set_bits_bounds(data: Seq<u32>)
    ensures
        set_bits(data) <= data.len() * 32,
        popcount(0) == 0,
    decreases data.len(),
{
    if data.len() > 0 {
        law_set_bits_bounds(data.drop_last());
        lemma_popcount_word_le_32(data.last());
    }
}

/// A 32-bit word has at most 32 set bits.
proof fn lemma_popcount_word_le_32(x: u32)
    ensures
        popcount(x as nat) <= 32,
{
    vstd::arithmetic::power2::lemma2_to64();
    lemma_popcount_below_bits(x as nat, 32);
}

/// A number below `2^k` has at most `k` set bits.
proof fn lemma_popcount_below_bits(x: nat, k: nat)
    requires
        x < vstd::arithmetic::power2::pow2(k),
    ensures
        popcount(x) <= k,
    decreases k,
{
    if k == 0 {
        vstd::arithmetic::power2::lemma2_to64();
    } else {
        vstd::arithmetic::power2::lemma_pow2_unfold(k);
        lemma_popcount_below_bits(x / 2, (k - 1) as nat);
    }
}

/// The recommended configuration follows the share of set bits: above 80%
/// the extended {200µs, 5 attempts, 20µs}, above 50% (and at most 80%) the
/// moderate {150µs, 4 attempts, 15µs}, and otherwise the default.  The
/// extended configuration in particular is recommended for every pattern
/// with more than 80% of its bits set, not only for all-ones data.
pub proof fn law_recommended_config_follows_density(data: Seq<u32>)
    ensures
        set_bits(data) * 5 > data.len() * 32 * 4 ==> spec_recommended_config(data) == (SoakConfig {
            pulse_duration_us: 200,
            retry_count: 5,
            verify_delay_us: 20,
        }),
        set_bits(data) * 5 <= data.len() * 32 * 4 && set_bits(data) * 2 > data.len() * 32
            ==> spec_recommended_config(data) == (SoakConfig {
            pulse_duration_us: 150,
            retry_count: 4,
            verify_delay_us: 15,
        }),
        set_bits(data) * 2 <= data.len() * 32 ==> spec_recommended_config(data) == default_config(),
        data.len() == 0 ==> spec_recommended_config(data) == default_config(),
{
}

/// `set_bits` adds up the set bits word by word: the count for a sequence
/// extended by one word is the old count plus that word's set bits.
pub proof fn law_set_bits_push(data: Seq<u32>, word: u32)
    ensures
        set_bits(data.push(word)) == set_bits(data) + popcount(word as nat),
        set_bits(Seq::<u32>::empty()) == 0,
{
    assert(data.push(word).drop_last() =~= data);
}

/// An unlocked device stays unlocked over any sequence of operations that
/// does not lock it.
pub proof fn law_unlocked_stays_unlocked(s: OtpImage, ops: Seq<OtpOperation>)
    requires
        !s.locked,
        forall|k: int| 0 <= k < ops.len() ==> !((#[trigger] ops[k]) is Lock),
    ensures
        !spec_run(s, ops).locked,
    decreases ops.len(),
{
    if ops.len() > 0 {
        assert forall|k: int| 0 <= k < ops.drop_last().len() implies !(#[trigger] ops.drop_last()[k] is Lock) by {
            assert(ops.drop_last()[k] == ops[k]);
        }
        law_unlocked_stays_unlocked(s, ops.drop_last());
        assert(!(ops[ops.len() - 1] is Lock));
    }
}

} // verus!
