use proposed_traits::otp::examples::{ExampleOtpDevice, ExampleOtpError, SoakConfig};
use proposed_traits::otp::{Error, ErrorKind, OtpErrorInfo, OtpMemory, OtpSoakProgramming};

#[test]
fn basic_otp_usage() {
    let mut device = ExampleOtpDevice::new();

    // Normal OTP operations
    assert_eq!(device.read(0).unwrap(), 0);
    device.write(0, 0x12345678).unwrap();
    assert_eq!(device.read(0).unwrap(), 0x12345678);
}

#[test]
fn soak_programming_usage() {
    let mut device = ExampleOtpDevice::new();

    // Use soak programming for difficult data
    let difficult_data = [0xFFFFFFFF, 0xAAAAAAAA, 0x55555555];
    let config = device.default_soak_config();

    device.soak_program(0, &difficult_data, config).unwrap();

    // Verify the data was programmed correctly
    for (i, &expected) in difficult_data.iter().enumerate() {
        assert_eq!(device.read(i).unwrap(), expected);
    }
}

#[test]
fn automatic_fallback_usage() {
    let mut device = ExampleOtpDevice::new();

    // This will try normal programming first, then fall back to soak if needed
    let data = [0xDEADBEEF, 0xCAFEBABE];
    let config = device.recommend_soak_config(&data).unwrap();

    device.program_with_soak_fallback(0, &data, config).unwrap();

    // Verify programming was successful
    assert_eq!(device.read(0).unwrap(), 0xDEADBEEF);
    assert_eq!(device.read(1).unwrap(), 0xCAFEBABE);
}

fn config(retry_count: u8) -> SoakConfig {
    SoakConfig { pulse_duration_us: 100, retry_count, verify_delay_us: 10 }
}

#[test]
fn new_device_is_zeroed_and_unlocked() {
    let device = ExampleOtpDevice::new();
    assert!(!device.is_locked());
    assert_eq!(device.read(1023).unwrap(), 0);
    assert!(matches!(device.read(1024), Err(ExampleOtpError::InvalidAddress)));
}

#[test]
fn write_reads_back_and_leaves_neighbours() {
    let mut device = ExampleOtpDevice::new();
    device.write(7, 0xA5A5_5A5A).unwrap();
    assert_eq!(device.read(7).unwrap(), 0xA5A5_5A5A);
    assert_eq!(device.read(6).unwrap(), 0);
    assert_eq!(device.read(8).unwrap(), 0);
}

#[test]
fn write_out_of_range_is_invalid_address() {
    let mut device = ExampleOtpDevice::new();
    assert!(matches!(device.write(1024, 1), Err(ExampleOtpError::InvalidAddress)));
    assert!(matches!(device.write(usize::MAX, 1), Err(ExampleOtpError::InvalidAddress)));
}

#[test]
fn lock_refuses_later_writes() {
    let mut device = ExampleOtpDevice::new();
    device.write(3, 9).unwrap();
    device.lock().unwrap();
    assert!(device.is_locked());
    assert!(matches!(device.write(3, 10), Err(ExampleOtpError::WriteFailed)));
    assert_eq!(device.read(3).unwrap(), 9);
    // an out-of-range address is reported before the lock
    assert!(matches!(device.write(5000, 10), Err(ExampleOtpError::InvalidAddress)));
    device.lock().unwrap();
    assert!(device.is_locked());
}

#[test]
fn soak_availability_is_first_half() {
    let device = ExampleOtpDevice::new();
    assert!(device.is_soak_available(0).unwrap());
    assert!(device.is_soak_available(511).unwrap());
    assert!(!device.is_soak_available(512).unwrap());
    assert!(!device.is_soak_available(1023).unwrap());
}

#[test]
fn soak_program_outside_region_is_not_supported() {
    let mut device = ExampleOtpDevice::new();
    let r = device.soak_program(600, &[1, 2], config(3));
    assert!(matches!(r, Err(ExampleOtpError::SoakNotSupported)));
    assert_eq!(device.read(600).unwrap(), 0);
}

#[test]
fn soak_program_past_end_stops_with_invalid_address() {
    let mut device = ExampleOtpDevice::new();
    let data = vec![0x1111_1111u32; 600];
    let r = device.soak_program(500, &data, config(1));
    assert!(matches!(r, Err(ExampleOtpError::InvalidAddress)));
    // the words that fit were programmed
    assert_eq!(device.read(500).unwrap(), 0x1111_1111);
    assert_eq!(device.read(1023).unwrap(), 0x1111_1111);
    assert_eq!(device.read(499).unwrap(), 0);
}

#[test]
fn soak_program_without_attempts_fails_verification() {
    let mut device = ExampleOtpDevice::new();
    let r = device.soak_program(4, &[0xFFFF_FFFF], config(0));
    assert!(matches!(r, Err(ExampleOtpError::VerificationFailed)));
    assert_eq!(device.read(4).unwrap(), 0);
    // with no data there is nothing to verify
    assert!(device.soak_program(4, &[], config(0)).is_ok());
}

#[test]
fn soak_program_refuses_locked_memory() {
    let mut device = ExampleOtpDevice::new();
    device.write(10, 7).unwrap();
    device.lock().unwrap();
    let r = device.soak_program(10, &[42, 43], config(2));
    assert!(matches!(r, Err(ExampleOtpError::WriteFailed)));
    assert_eq!(device.read(10).unwrap(), 7);
    assert_eq!(device.read(11).unwrap(), 0);
    assert!(device.is_locked());
    // outside the soak region the region check answers first
    let r = device.soak_program(700, &[1], config(2));
    assert!(matches!(r, Err(ExampleOtpError::SoakNotSupported)));
    // with no attempts allowed nothing would be written: verification fails
    let r = device.soak_program(10, &[42], config(0));
    assert!(matches!(r, Err(ExampleOtpError::VerificationFailed)));
    // with no data nothing would be written either
    assert!(device.soak_program(10, &[], config(2)).is_ok());
    assert_eq!(device.read(10).unwrap(), 7);
}

#[test]
fn fallback_refuses_locked_memory() {
    let mut device = ExampleOtpDevice::new();
    device.lock().unwrap();
    let r = device.program_with_soak_fallback(20, &[5, 6, 7], config(3));
    assert!(matches!(r, Err(ExampleOtpError::WriteFailed)));
    assert_eq!(device.read(20).unwrap(), 0);
    assert_eq!(device.read(22).unwrap(), 0);
    let r = device.program_with_soak_fallback(700, &[1], config(3));
    assert!(matches!(r, Err(ExampleOtpError::SoakNotSupported)));
    assert_eq!(device.read(700).unwrap(), 0);
    let r = device.program_with_soak_fallback(20, &[5], config(0));
    assert!(matches!(r, Err(ExampleOtpError::VerificationFailed)));
    assert!(device.program_with_soak_fallback(20, &[], config(3)).is_ok());
    assert_eq!(device.read(20).unwrap(), 0);
}

#[test]
fn fallback_past_end_keeps_written_prefix() {
    let mut device = ExampleOtpDevice::new();
    let data = vec![0xABCD_0000u32; 30];
    let r = device.program_with_soak_fallback(1000, &data, config(3));
    assert!(matches!(r, Err(ExampleOtpError::SoakNotSupported)));
    assert_eq!(device.read(1000).unwrap(), 0xABCD_0000);
    assert_eq!(device.read(1023).unwrap(), 0xABCD_0000);
    assert_eq!(device.read(999).unwrap(), 0);
}

#[test]
fn recommended_configs_follow_bit_density() {
    let device = ExampleOtpDevice::new();
    let high = device.recommend_soak_config(&[0xFFFF_FFFF, 0xFFFF_FFFF]).unwrap();
    assert_eq!((high.pulse_duration_us, high.retry_count, high.verify_delay_us), (200, 5, 20));
    // 48 of 64 bits: 75%
    let medium = device.recommend_soak_config(&[0xFFFF_FFFF, 0xFFFF_0000]).unwrap();
    assert_eq!((medium.pulse_duration_us, medium.retry_count, medium.verify_delay_us), (150, 4, 15));
    // exactly half is not above one half
    let half = device.recommend_soak_config(&[0xAAAA_AAAA]).unwrap();
    assert_eq!((half.pulse_duration_us, half.retry_count, half.verify_delay_us), (100, 3, 10));
    // exactly 80% (4 of 5 words full) is not above 0.8
    let eighty = device
        .recommend_soak_config(&[0xFFFF_FFFF, 0xFFFF_FFFF, 0xFFFF_FFFF, 0xFFFF_FFFF, 0])
        .unwrap();
    assert_eq!(eighty.retry_count, 4);
    let empty = device.recommend_soak_config(&[]).unwrap();
    assert_eq!(empty.retry_count, 3);
    // the fallback example of the original: 0xDEADBEEF, 0xCAFEBABE have 24 + 22 set bits
    let example = device.recommend_soak_config(&[0xDEADBEEF, 0xCAFEBABE]).unwrap();
    assert_eq!(example.retry_count, 4);
}

#[test]
fn default_soak_config_values() {
    let c = SoakConfig::default();
    assert_eq!((c.pulse_duration_us, c.retry_count, c.verify_delay_us), (100, 3, 10));
    let d = ExampleOtpDevice::new().default_soak_config();
    assert_eq!(d.retry_count, 3);
}

#[test]
fn example_error_kinds() {
    assert_eq!(ExampleOtpError::InvalidAddress.kind(), ErrorKind::InvalidAddress);
    assert_eq!(ExampleOtpError::WriteFailed.kind(), ErrorKind::MemoryLocked);
    assert_eq!(ExampleOtpError::VerificationFailed.kind(), ErrorKind::VerificationFailed);
    assert_eq!(ExampleOtpError::SoakNotSupported.kind(), ErrorKind::Unknown);
}

#[test]
fn error_info_accessors() {
    let simple = OtpErrorInfo::Simple(ErrorKind::Timeout);
    assert_eq!(simple.kind(), ErrorKind::Timeout);
    assert_eq!(simple.address(), None);
    assert_eq!(simple.message(), None);

    let msg = OtpErrorInfo::WithMessage(ErrorKind::ReadFailed, "bad read");
    assert_eq!(msg.kind(), ErrorKind::ReadFailed);
    assert_eq!(msg.address(), None);
    assert_eq!(msg.message(), Some("bad read"));

    let addr = OtpErrorInfo::WithAddress(ErrorKind::InvalidAddress, 0x40);
    assert_eq!(addr.kind(), ErrorKind::InvalidAddress);
    assert_eq!(addr.address(), Some(0x40));
    assert_eq!(addr.message(), None);

    let ctx = OtpErrorInfo::WithContext(ErrorKind::MemoryLocked, 12, "locked");
    assert_eq!(ctx.kind(), ErrorKind::MemoryLocked);
    assert_eq!(ctx.address(), Some(12));
    assert_eq!(ctx.message(), Some("locked"));
}
