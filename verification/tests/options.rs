use rtlsdr::options::same_text;
use rtlsdr::{
    configuration, parse_auto_int, parse_infinite_int, Device, Operation, Reply, Request, TextError,
    AUTO_GAIN, INFINITE_SAMPLES,
};

fn opened(handle: usize) -> Device {
    Device::open(0, Reply { status: 0, os_code: 0 }, handle).unwrap()
}

fn request(handle: usize, operation: Operation) -> Request {
    Request { handle, operation }
}

#[test]
fn auto_reads_as_the_automatic_gain() {
    assert_eq!(AUTO_GAIN, -100);
    assert_eq!(parse_auto_int("auto"), Ok(-100));
}

#[test]
fn a_gain_reads_as_a_decimal_number() {
    assert_eq!(parse_auto_int("42"), Ok(42));
    assert_eq!(parse_auto_int("-7"), Ok(-7));
    assert_eq!(parse_auto_int("+496"), Ok(496));
    assert_eq!(parse_auto_int("0"), Ok(0));
    assert_eq!(parse_auto_int("2147483647"), Ok(i32::MAX));
}

#[test]
fn what_is_no_gain_is_refused() {
    assert!(parse_auto_int("").is_err());
    assert!(parse_auto_int("Auto").is_err());
    assert!(parse_auto_int("auto ").is_err());
    assert!(parse_auto_int("4x").is_err());
    assert!(parse_auto_int("2147483648").is_err());
}

#[test]
fn infinite_reads_as_no_bound() {
    assert_eq!(INFINITE_SAMPLES, 0);
    assert_eq!(parse_infinite_int("infinite"), Ok(0));
}

#[test]
fn a_sample_count_reads_as_a_decimal_number() {
    assert_eq!(parse_infinite_int("1024"), Ok(1024));
    assert_eq!(parse_infinite_int("0"), Ok(0));
    assert_eq!(parse_infinite_int("+5"), Ok(5));
}

#[test]
fn what_is_no_sample_count_is_refused() {
    assert!(parse_infinite_int("").is_err());
    assert!(parse_infinite_int("-1").is_err());
    assert!(parse_infinite_int("infinity").is_err());
    assert!(parse_infinite_int("12 ").is_err());
}

#[test]
fn same_text_compares_contents() {
    assert!(same_text("auto", "auto"));
    assert!(same_text("", ""));
    assert!(!same_text("auto", "autp"));
    assert!(!same_text("auto", "aut"));
    assert!(!same_text("aut", "auto"));
    assert!(same_text("Gerät", "Gerät"));
}

#[test]
fn configuration_with_automatic_gain() {
    let mut device = opened(3);
    let plan = configuration(&mut device, AUTO_GAIN, 0, 100_000_000, 2_048_000);
    assert_eq!(
        plan,
        vec![
            request(3, Operation::SetTunerGainMode { mode: 0 }),
            request(3, Operation::SetCenterFreq { hz: 100_000_000 }),
            request(3, Operation::SetSampleRate { hz: 2_048_000 }),
            request(3, Operation::ResetBuffer),
        ]
    );
}

#[test]
fn configuration_with_manual_gain_and_correction() {
    let mut device = opened(3);
    let plan = configuration(&mut device, 496, -12, 433_920_000, 1_024_000);
    assert_eq!(
        plan,
        vec![
            request(3, Operation::SetTunerGainMode { mode: 1 }),
            request(3, Operation::SetTunerGain { tenths_db: 496 }),
            request(3, Operation::SetFreqCorrection { ppm: -12 }),
            request(3, Operation::SetCenterFreq { hz: 433_920_000 }),
            request(3, Operation::SetSampleRate { hz: 1_024_000 }),
            request(3, Operation::ResetBuffer),
        ]
    );
}

#[test]
fn text_error_keeps_its_text() {
    let error = TextError::new("Could not open device: busy".to_string());
    assert_eq!(error.text(), "Could not open device: busy");
    assert_eq!(error, TextError::new("Could not open device: busy".to_string()));
}
