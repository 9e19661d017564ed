//! Listing the attached receivers.
//!
//! The embedding program asks the driver for the identification strings of
//! each device index in turn and hands the raw answers over. Everything
//! else happens here: finding where each C string ends, decoding it, and
//! leaving out the indices whose query failed.
use crate::foreign::{Error, Reply};
use vstd::prelude::*;
use vstd::slice::slice_subrange;
use vstd::utf8::{decode_utf8, valid_utf8};

verus! {

/// The identification of one attached receiver.
#[derive(Clone, Debug, PartialEq, Eq)]
pub struct DeviceInfo {
    pub vendor: String,
    pub product: String,
    pub serial: String,
}

/// What a [`DeviceInfo`] holds, as plain text.
pub ghost struct DeviceInfoView {
    pub vendor: Seq<char>,
    pub product: Seq<char>,
    pub serial: Seq<char>,
}

impl View for DeviceInfo {
    type V = DeviceInfoView;

    open spec fn view(&self) -> DeviceInfoView {
        DeviceInfoView { vendor: self.vendor@, product: self.product@, serial: self.serial@ }
    }
}

/// The driver's raw answer to a query for one device's identification
/// strings: its reply, and the three buffers it was given to fill, each
/// holding a NUL-terminated string.
#[derive(Clone, Debug, PartialEq, Eq)]
pub struct UsbStrings {
    pub reply: Reply,
    pub vendor: Vec<u8>,
    pub product: Vec<u8>,
    pub serial: Vec<u8>,
}

/// The length of the C string at the start of `bytes`: the number of bytes
/// before the first NUL, or all of them where there is no NUL.
pub open spec fn c_str_len(bytes: Seq<u8>) -> nat
    decreases bytes.len(),
{
    if bytes.len() == 0 || bytes[0] == 0 {
        0
    } else {
        1 + c_str_len(bytes.drop_first())
    }
}

/// The bytes of the C string at the start of `bytes`, without the NUL.
pub open spec fn c_str(bytes: Seq<u8>) -> Seq<u8> {
    bytes.take(c_str_len(bytes) as int)
}

/// The text that a lossy UTF-8 decoding of `bytes` yields.
pub uninterp spec fn lossy_text(bytes: Seq<u8>) -> Seq<char>;

/// What the answer for one device says of it, once decoded.
pub open spec fn device_info_of(answer: UsbStrings) -> DeviceInfoView {
    DeviceInfoView {
        vendor: lossy_text(c_str(answer.vendor@)),
        product: lossy_text(c_str(answer.product@)),
        serial: lossy_text(c_str(answer.serial@)),
    }
}

/// The devices that a run of answers describes: those whose query
/// succeeded, in the order of their indices.
pub open spec fn devices_of(answers: Seq<UsbStrings>) -> Seq<DeviceInfoView>
    decreases answers.len(),
{
    if answers.len() == 0 {
        Seq::empty()
    } else if answers.last().reply.is_success() {
        devices_of(answers.drop_last()).push(device_info_of(answers.last()))
    } else {
        devices_of(answers.drop_last())
    }
}

/// The C string length is the position of the first NUL.
pub proof fn lemma_c_str_len_first_nul(bytes: Seq<u8>)
    ensures
        c_str_len(bytes) <= bytes.len(),
        forall|j: int| 0 <= j < c_str_len(bytes) ==> bytes[j] != 0,
        c_str_len(bytes) < bytes.len() ==> bytes[c_str_len(bytes) as int] == 0,
    decreases bytes.len(),
{
    if bytes.len() != 0 && bytes[0] != 0 {
        let rest = bytes.drop_first();
        lemma_c_str_len_first_nul(rest);
        assert forall|j: int| 0 <= j < c_str_len(bytes) implies bytes[j] != 0 by {
            if j > 0 {
                assert(bytes[j] == rest[j - 1]);
            }
        }
        if c_str_len(bytes) < bytes.len() {
            assert(bytes[c_str_len(bytes) as int] == rest[c_str_len(rest) as int]);
        }
    }
}

/// A prefix free of NUL that ends at a NUL, or at the end, is the C string.
proof fn lemma_c_str_len_found(bytes: Seq<u8>, n: int)
    requires
        0 <= n <= bytes.len(),
        forall|j: int| 0 <= j < n ==> bytes[j] != 0,
        n < bytes.len() ==> bytes[n] == 0,
    ensures
        c_str_len(bytes) == n,
    decreases bytes.len(),
{
    if n > 0 {
        let rest = bytes.drop_first();
        assert(bytes[0] != 0);
        assert forall|j: int| 0 <= j < n - 1 implies rest[j] != 0 by {
            assert(rest[j] == bytes[j + 1]);
        }
        if n - 1 < rest.len() {
            assert(rest[n - 1] == bytes[n]);
        }
        lemma_c_str_len_found(rest, n - 1);
    }
}

/// Finds where the C string at the start of `buffer` ends. A buffer that
/// holds no NUL is taken whole: the search never leaves the buffer.
pub fn c_str_end(buffer: &[u8]) -> (n: usize)
    ensures
        n == c_str_len(buffer@),
        n <= buffer@.len(),
{
    let mut i: usize = 0;
    while i < buffer.len() && buffer[i] != 0
        invariant
            i <= buffer@.len(),
            forall|j: int| 0 <= j < i ==> buffer@[j] != 0,
        decreases buffer@.len() - i,
    {
        i = i + 1;
    }
    proof {
        lemma_c_str_len_found(buffer@, i as int);
    }
    i
}

/// `String::from_utf8_lossy`, made into an owned `String`. It decodes the
/// bytes as UTF-8 and puts U+FFFD in place of what is not valid; the text it
/// yields depends on the bytes alone, and on valid UTF-8 it is the text that
/// the bytes encode.
#[verifier::external_body]
fn decode_lossy(bytes: &[u8]) -> (text: String)
    ensures
        text@ == lossy_text(bytes@),
        valid_utf8(bytes@) ==> text@ == decode_utf8(bytes@),
{
    String::from_utf8_lossy(bytes).into_owned()
}

/// Reads the NUL-terminated string that the driver left in `buffer`.
pub fn c_string(buffer: &[u8]) -> (text: String)
    ensures
        text@ == lossy_text(c_str(buffer@)),
        valid_utf8(c_str(buffer@)) ==> text@ == decode_utf8(c_str(buffer@)),
{
    let end: usize = c_str_end(buffer);
    decode_lossy(slice_subrange(buffer, 0, end))
}

/// Turns the driver's answer for the device at `index` into its
/// identification, or into the error that reports the failed query.
pub fn get_device(index: u32, answer: &UsbStrings) -> (r: Result<DeviceInfo, Error>)
    ensures
        answer.reply.is_success() ==> r is Ok && r->Ok_0@ == device_info_of(*answer),
        !answer.reply.is_success() ==> r == Err::<DeviceInfo, Error>(
            Error::Enumeration {
                index,
                status: answer.reply.status,
                os_code: answer.reply.os_code,
            },
        ),
{
    if answer.reply.status == 0 {
        let vendor = c_string(answer.vendor.as_slice());
        let product = c_string(answer.product.as_slice());
        let serial = c_string(answer.serial.as_slice());
        Ok(DeviceInfo { vendor, product, serial })
    } else {
        Err(
            Error::Enumeration {
                index,
                status: answer.reply.status,
                os_code: answer.reply.os_code,
            },
        )
    }
}

/// Lists the attached devices from the driver's answers, `answers[i]` being
/// the answer for device index `i`. A device whose query failed is left out;
/// the others keep the order of their indices.
pub fn get_devices(answers: &Vec<UsbStrings>) -> (devices: Vec<DeviceInfo>)
    requires
        answers@.len() <= u32::MAX,
    ensures
        devices@.map_values(|d: DeviceInfo| d@) == devices_of(answers@),
{
    let mut devices: Vec<DeviceInfo> = Vec::new();
    let mut j: usize = 0;
    while j < answers.len()
        invariant
            j <= answers@.len(),
            answers@.len() <= u32::MAX,
            devices@.map_values(|d: DeviceInfo| d@) == devices_of(answers@.take(j as int)),
        decreases answers@.len() - j,
    {
        let ghost before = devices@;
        let ghost seen = answers@.take(j as int);
        let ghost next = answers@.take(j + 1);
        proof {
            assert(next.drop_last() == seen);
            assert(next.last() == answers@[j as int]);
        }
        match get_device(j as u32, &answers[j]) {
            Ok(d) => {
                devices.push(d);
                proof {
                    assert(devices@.map_values(|d: DeviceInfo| d@) == before.map_values(
                        |d: DeviceInfo| d@,
                    ).push(d@));
                }
            },
            Err(_) => {},
        }
        j = j + 1;
    }
    proof {
        assert(answers@.take(j as int) == answers@);
    }
    devices
}

} // verus!
