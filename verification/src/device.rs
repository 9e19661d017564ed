//! The device handle: one native resource, shared by every clone of the
//! handle, configured and streamed through requests to the driver, and torn
//! down exactly once.
use crate::foreign::{Error, Operation, Reply, Request};
use std::sync::atomic::AtomicBool;
use std::sync::atomic::Ordering;
use std::sync::Arc;
use vstd::prelude::*;

verus! {

/// A handle on an open receiver.
///
/// A handle holds the driver's opaque reference to the native resource and
/// the close latch. Clones share both: they stand for the same device, and
/// whichever of them closes first tears the native resource down for all.
#[derive(Debug)]
pub struct Device {
    device: usize,
    has_closed_device: Arc<AtomicBool>,
}

/// `Arc::clone` on the close latch. The new pointer refers to the very latch
/// that the given one refers to.
#[verifier::external_body]
fn share_latch(latch: &Arc<AtomicBool>) -> (shared: Arc<AtomicBool>)
    ensures
        shared == *latch,
{
    Arc::clone(latch)
}

impl Clone for Device {
    /// Another handle on the same device, with the same close latch.
    fn clone(&self) -> (other: Self)
        ensures
            other.same_device(self),
    {
        Device { device: self.device, has_closed_device: share_latch(&self.has_closed_device) }
    }
}

impl Device {
    /// The driver's reference to the native resource.
    pub closed spec fn spec_handle(&self) -> usize {
        self.device
    }

    /// Whether two handles stand for the same device: the same native
    /// resource behind the same close latch.
    pub closed spec fn same_device(&self, other: &Device) -> bool {
        self.device == other.device && self.has_closed_device == other.has_closed_device
    }

    /// The request that this handle makes for `operation`.
    pub open spec fn request(&self, operation: Operation) -> Request {
        Request { handle: self.spec_handle(), operation }
    }

    /// What a call of [`Device::close`] asks of the driver, given what the
    /// test-and-set found in the latch: the teardown where the latch was
    /// still unset, nothing where it was set already.
    pub open spec fn spec_close_step(&self, latch_was_set: bool) -> Option<Request> {
        if latch_was_set {
            None
        } else {
            Some(self.request(Operation::Close))
        }
    }

    /// Handles on the same device make the same requests.
    pub proof fn lemma_same_device(&self, other: &Device)
        requires
            self.same_device(other),
        ensures
            other.same_device(self),
            self.spec_handle() == other.spec_handle(),
            forall|operation: Operation| self.request(operation) == other.request(operation),
            forall|set: bool| self.spec_close_step(set) == other.spec_close_step(set),
    {
    }

    /// Makes the handle for the device at `device_index` from the driver's
    /// answer to the open call: `reply`, and the native reference `handle`
    /// that the call stored. On a nonzero status there is no device, and the
    /// error carries the index and both codes.
    pub fn open(device_index: u32, reply: Reply, handle: usize) -> (r: Result<Device, Error>)
        ensures
            reply.is_success() ==> r is Ok && r->Ok_0.spec_handle() == handle,
            !reply.is_success() ==> r == Err::<Device, Error>(
                Error::DeviceOpen {
                    index: device_index,
                    status: reply.status,
                    os_code: reply.os_code,
                },
            ),
    {
        if reply.status != 0 {
            return Err(
                Error::DeviceOpen {
                    index: device_index,
                    status: reply.status,
                    os_code: reply.os_code,
                },
            );
        }
        Ok(Device { device: handle, has_closed_device: Arc::new(AtomicBool::new(false)) })
    }

    /// The driver's reference to the native resource.
    pub fn handle(&self) -> (handle: usize)
        ensures
            handle == self.spec_handle(),
    {
        self.device
    }

    /// Asks for automatic (0) or manual (1) tuner gain.
    pub fn set_tuner_gain_mode(&mut self, tuner_gain_mode: i32) -> (request: Request)
        ensures
            request == old(self).request(Operation::SetTunerGainMode { mode: tuner_gain_mode }),
            *final(self) == *old(self),
    {
        Request {
            handle: self.device,
            operation: Operation::SetTunerGainMode { mode: tuner_gain_mode },
        }
    }

    /// Asks for the tuner gain as the device reports it, in tenths of a dB.
    /// The reading is the status of the driver's reply.
    pub fn get_tuner_gain(&mut self) -> (request: Request)
        ensures
            request == old(self).request(Operation::GetTunerGain),
            *final(self) == *old(self),
    {
        Request { handle: self.device, operation: Operation::GetTunerGain }
    }

    /// Asks for a tuner gain of `tuner_gain` tenths of a dB.
    pub fn set_tuner_gain(&mut self, tuner_gain: i32) -> (request: Request)
        ensures
            request == old(self).request(Operation::SetTunerGain { tenths_db: tuner_gain }),
            *final(self) == *old(self),
    {
        Request { handle: self.device, operation: Operation::SetTunerGain { tenths_db: tuner_gain } }
    }

    /// Asks for a frequency correction of `ppm_error` parts per million.
    pub fn set_freq_correction(&mut self, ppm_error: i32) -> (request: Request)
        ensures
            request == old(self).request(Operation::SetFreqCorrection { ppm: ppm_error }),
            *final(self) == *old(self),
    {
        Request { handle: self.device, operation: Operation::SetFreqCorrection { ppm: ppm_error } }
    }

    /// Asks to tune to `frequency` Hz.
    pub fn set_center_freq(&mut self, frequency: u32) -> (request: Request)
        ensures
            request == old(self).request(Operation::SetCenterFreq { hz: frequency }),
            *final(self) == *old(self),
    {
        Request { handle: self.device, operation: Operation::SetCenterFreq { hz: frequency } }
    }

    /// Asks for a sample rate of `sample_rate` Hz.
    pub fn set_sample_rate(&mut self, sample_rate: u32) -> (request: Request)
        ensures
            request == old(self).request(Operation::SetSampleRate { hz: sample_rate }),
            *final(self) == *old(self),
    {
        Request { handle: self.device, operation: Operation::SetSampleRate { hz: sample_rate } }
    }

    /// Asks to discard what the device has buffered.
    pub fn reset_buffer(&mut self) -> (request: Request)
        ensures
            request == old(self).request(Operation::ResetBuffer),
            *final(self) == *old(self),
    {
        Request { handle: self.device, operation: Operation::ResetBuffer }
    }

    /// Asks for a streaming read in blocks of `output_block_size` bytes,
    /// through the driver's default number of buffers. The native call
    /// returns only when the stream is cancelled or fails; its reply is the
    /// outcome of the whole read.
    pub fn read_async(&mut self, output_block_size: u32) -> (request: Request)
        ensures
            request == old(self).request(
                Operation::ReadAsync { buffers: 0, block_size: output_block_size },
            ),
            *final(self) == *old(self),
    {
        Request {
            handle: self.device,
            operation: Operation::ReadAsync { buffers: 0, block_size: output_block_size },
        }
    }

    /// Asks the driver to end the streaming read in progress. The request
    /// may be made through any clone, from any thread.
    pub fn cancel_async(&mut self) -> (request: Request)
        ensures
            request == old(self).request(Operation::CancelAsync),
            *final(self) == *old(self),
    {
        Request { handle: self.device, operation: Operation::CancelAsync }
    }

    /// Decides what a close asks of the driver from what the test-and-set
    /// found in the latch.
    pub fn close_step(&self, latch_was_set: bool) -> (step: Option<Request>)
        ensures
            step == self.spec_close_step(latch_was_set),
    {
        if latch_was_set {
            None
        } else {
            Some(Request { handle: self.device, operation: Operation::Close })
        }
    }

    /// Closes the device: sets the shared latch in one atomic step and, if
    /// this call is the one that set it, asks for the native teardown. Any
    /// other call, through this clone or another, finds the latch set and
    /// asks for nothing; its close has succeeded as it stands.
    ///
    /// What the latch held depends on the other clones, so the contract
    /// says what holds either way; [`Device::close_step`] says which request
    /// goes with which finding.
    pub fn close(&mut self) -> (step: Option<Request>)
        ensures
            step == old(self).spec_close_step(true) || step == old(self).spec_close_step(false),
            *final(self) == *old(self),
    {
        let latch_was_set: bool = match self.has_closed_device.compare_exchange(
            false,
            true,
            Ordering::Relaxed,
            Ordering::Relaxed,
        ) {
            Ok(found) => found,
            Err(found) => found,
        };
        self.close_step(latch_was_set)
    }
}

} // verus!
