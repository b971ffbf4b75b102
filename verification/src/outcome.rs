//! How an update session ends.
use vstd::prelude::*;

verus! {

/// Why an update session was given up.
#[derive(Debug)]
pub enum Error<D, S> {
    /// A version that the device reported does not fit a version identifier.
    Encode,
    /// A version that the update service sent does not fit a version identifier.
    Decode,
    /// The timer failed during a pause that the update service asked for.
    Delay,
    /// An operation of the device failed, with the device's own error.
    Device(D),
    /// The update service failed, with the service's own error. A session
    /// asks the service again after a failure, so no session ends this way.
    Service(S),
}

/// The state of the device when an update session has ended well.
#[derive(Clone, Copy, PartialEq, Eq, Structural, Debug)]
pub enum DeviceStatus {
    /// The device already runs the firmware that the update service wants.
    Synced,
    /// New firmware was written and handed to the device for activation. The
    /// device still has to be restarted into it.
    Updated,
}

} // verus!
