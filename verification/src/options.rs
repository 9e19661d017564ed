//! What the command line of a capture program means: the words it takes in
//! place of numbers, the configuration that follows from them, and the
//! failures it reports in plain text.
use crate::device::Device;
use crate::enumerate::DeviceInfo;
use crate::foreign::{Operation, Request};
use std::num::ParseIntError;
use vstd::prelude::*;
use vstd::string::StringSliceAdditionalSpecFns;
use vstd::utf8::encode_utf8_decode_utf8;

verus! {

/// The gain that stands for automatic gain control.
pub const AUTO_GAIN: i32 = -100;

/// The sample count that stands for a capture without end.
pub const INFINITE_SAMPLES: usize = 0;

#[verifier::external_type_specification]
#[verifier::external_body]
pub struct ExParseIntError(std::num::ParseIntError);

/// The `i32` that `text` denotes in decimal, if it denotes one.
pub uninterp spec fn decimal_i32(text: Seq<char>) -> Option<i32>;

/// The `usize` that `text` denotes in decimal, if it denotes one.
pub uninterp spec fn decimal_usize(text: Seq<char>) -> Option<usize>;

/// `i32::from_str_radix` in base ten. Whether it yields a number, and which,
/// depends on the text alone.
#[verifier::external_body]
fn i32_from_decimal(src: &str) -> (r: Result<i32, ParseIntError>)
    ensures
        r is Ok <==> decimal_i32(src@) is Some,
        r is Ok ==> decimal_i32(src@) == Some(r->Ok_0),
{
    i32::from_str_radix(src, 10)
}

/// `usize::from_str_radix` in base ten. Whether it yields a number, and
/// which, depends on the text alone.
#[verifier::external_body]
fn usize_from_decimal(src: &str) -> (r: Result<usize, ParseIntError>)
    ensures
        r is Ok <==> decimal_usize(src@) is Some,
        r is Ok ==> decimal_usize(src@) == Some(r->Ok_0),
{
    usize::from_str_radix(src, 10)
}

/// Whether two strings hold the same text, found by comparing their bytes.
pub fn same_text(left: &str, right: &str) -> (same: bool)
    ensures
        same == (left@ == right@),
{
    let a = left.as_bytes();
    let b = right.as_bytes();
    proof {
        // Equal bytes decode to equal text.
        encode_utf8_decode_utf8(left@);
        encode_utf8_decode_utf8(right@);
    }
    if a.len() != b.len() {
        return false;
    }
    let mut i: usize = 0;
    while i < a.len()
        invariant
            i <= a@.len(),
            a@.len() == b@.len(),
            a@ == left.spec_bytes(),
            b@ == right.spec_bytes(),
            forall|j: int| 0 <= j < i ==> a@[j] == b@[j],
        decreases a@.len() - i,
    {
        if a[i] != b[i] {
            return false;
        }
        i = i + 1;
    }
    assert(a@ =~= b@);
    true
}

/// Reads a gain: the word `auto` for [`AUTO_GAIN`], else a decimal number
/// of tenths of a dB.
pub fn parse_auto_int(src: &str) -> (r: Result<i32, ParseIntError>)
    ensures
        src@ == "auto"@ ==> r == Ok::<i32, ParseIntError>(AUTO_GAIN),
        src@ != "auto"@ ==> (r is Ok <==> decimal_i32(src@) is Some),
        src@ != "auto"@ && r is Ok ==> decimal_i32(src@) == Some(r->Ok_0),
{
    if same_text(src, "auto") {
        Ok(AUTO_GAIN)
    } else {
        i32_from_decimal(src)
    }
}

/// Reads a sample count: the word `infinite` for [`INFINITE_SAMPLES`], else
/// a decimal number of bytes.
pub fn parse_infinite_int(src: &str) -> (r: Result<usize, ParseIntError>)
    ensures
        src@ == "infinite"@ ==> r == Ok::<usize, ParseIntError>(INFINITE_SAMPLES),
        src@ != "infinite"@ ==> (r is Ok <==> decimal_usize(src@) is Some),
        src@ != "infinite"@ && r is Ok ==> decimal_usize(src@) == Some(r->Ok_0),
{
    if same_text(src, "infinite") {
        Ok(INFINITE_SAMPLES)
    } else {
        usize_from_decimal(src)
    }
}

/// The requests that set the gain: automatic gain control for
/// [`AUTO_GAIN`], else manual gain control and then the gain itself.
pub open spec fn spec_gain_requests(device: Device, gain: i32) -> Seq<Request> {
    if gain == AUTO_GAIN {
        seq![device.request(Operation::SetTunerGainMode { mode: 0 })]
    } else {
        seq![
            device.request(Operation::SetTunerGainMode { mode: 1 }),
            device.request(Operation::SetTunerGain { tenths_db: gain }),
        ]
    }
}

/// The requests that the frequency correction takes: none for zero.
pub open spec fn spec_correction_requests(device: Device, ppm_error: i32) -> Seq<Request> {
    if ppm_error == 0 {
        Seq::empty()
    } else {
        seq![device.request(Operation::SetFreqCorrection { ppm: ppm_error })]
    }
}

/// The requests that configure a device before a capture, in the order in
/// which they are made: gain, frequency correction, center frequency,
/// sample rate, and last the reset of the device's buffer.
pub open spec fn spec_configuration(
    device: Device,
    gain: i32,
    ppm_error: i32,
    frequency: u32,
    sample_rate: u32,
) -> Seq<Request> {
    spec_gain_requests(device, gain) + spec_correction_requests(device, ppm_error) + seq![
        device.request(Operation::SetCenterFreq { hz: frequency }),
        device.request(Operation::SetSampleRate { hz: sample_rate }),
        device.request(Operation::ResetBuffer),
    ]
}

/// Lists the requests that configure `device` before a capture. They are
/// to be made in order, and the first failure ends the configuration.
pub fn configuration(
    device: &mut Device,
    gain: i32,
    ppm_error: i32,
    frequency: u32,
    sample_rate: u32,
) -> (plan: Vec<Request>)
    ensures
        plan@ == spec_configuration(*old(device), gain, ppm_error, frequency, sample_rate),
        *final(device) == *old(device),
{
    let mut plan: Vec<Request> = Vec::new();
    if gain == AUTO_GAIN {
        plan.push(device.set_tuner_gain_mode(0));
    } else {
        plan.push(device.set_tuner_gain_mode(1));
        plan.push(device.set_tuner_gain(gain));
    }
    if ppm_error != 0 {
        plan.push(device.set_freq_correction(ppm_error));
    }
    plan.push(device.set_center_freq(frequency));
    plan.push(device.set_sample_rate(sample_rate));
    plan.push(device.reset_buffer());
    assert(plan@ =~= spec_configuration(*old(device), gain, ppm_error, frequency, sample_rate));
    plan
}

/// A failure that is told in plain text.
#[derive(Clone, Debug, PartialEq, Eq)]
pub struct TextError {
    text: String,
}

impl TextError {
    /// The text of the failure.
    pub closed spec fn spec_text(&self) -> Seq<char> {
        self.text@
    }

    /// Makes the failure that `text` tells.
    pub fn new(text: String) -> (error: Self)
        ensures
            error.spec_text() == text@,
    {
        TextError { text }
    }

    /// The text of the failure.
    pub fn text(&self) -> (text: &str)
        ensures
            text@ == self.spec_text(),
    {
        self.text.as_str()
    }
}

/// Fails where the list of attached devices is empty. This failure is told
/// apart from that of a single device's query by its type.
pub fn require_devices(devices: &Vec<DeviceInfo>) -> (r: Result<(), TextError>)
    ensures
        devices@.len() == 0 <==> r is Err,
        r is Err ==> r->Err_0.spec_text() == "No supported RTLSDR devices found."@,
{
    if devices.len() == 0 {
        Err(TextError::new("No supported RTLSDR devices found.".to_owned()))
    } else {
        Ok(())
    }
}

} // verus!
