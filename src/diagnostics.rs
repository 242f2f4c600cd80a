//! The diagnostic sink: decoded frames are logged without blocking, and the
//! USB interrupt moves the buffered text out.

use vstd::prelude::*;

verus! {

#[verifier::external_type_specification]
#[verifier::external_body]
pub struct ExPoller(imxrt_log::Poller);

/// Relies on imxrt_log::Poller::poll: one non-blocking step of the USB logging
/// transport; it hands nothing back to the caller.
pub assume_specification[ imxrt_log::Poller::poll ](poller: &mut imxrt_log::Poller);

/// USB interrupt handler: drains buffered log output to the host.
pub fn log_over_usb(poller: &mut imxrt_log::Poller) {
    poller.poll();
}

} // verus!
