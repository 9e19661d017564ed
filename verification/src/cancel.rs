//! The cancellation controller: what turns an interrupt from outside into
//! the end of the streaming read.
//!
//! The thread that reads is blocked inside the driver for as long as the
//! stream lasts, so it cannot be told to stop. The controller holds a clone
//! of the reading handle and is fed the interrupts by a task of its own;
//! for each of them it asks the driver, through that clone, to cancel.
use crate::device::Device;
use crate::foreign::{Operation, Request};
use vstd::prelude::*;

verus! {

/// Answers every interrupt with a request to cancel the read on its device.
#[derive(Clone, Debug)]
pub struct CancellationController {
    device: Device,
}

impl CancellationController {
    /// The handle through which the controller cancels.
    pub closed spec fn device(&self) -> Device {
        self.device
    }

    /// Makes the controller for the read on `device`, which is to be a
    /// clone of the handle that reads.
    pub fn new(device: Device) -> (controller: Self)
        ensures
            controller.device() == device,
    {
        CancellationController { device }
    }

    /// Reacts to one interrupt: the driver is to be asked to cancel the
    /// read. The controller is left as it was, ready for the next
    /// interrupt; it has no end of its own.
    pub fn on_interrupt(&mut self) -> (request: Request)
        ensures
            request == old(self).device().request(Operation::CancelAsync),
            *final(self) == *old(self),
    {
        self.device.cancel_async()
    }
}

} // verus!
