//! Client side of an over-the-air firmware update protocol, written without
//! any I/O of its own.
//!
//! An update session is a value of [`Step`]: it names the one operation that
//! has to be carried out next on the device, the update service or the timer,
//! and it takes the result of that operation to produce the step that
//! follows. Whoever owns the device and the transport runs the operations;
//! every decision of the protocol is taken here.
pub mod laws;
pub mod model;
pub mod outcome;
pub mod protocol;
pub mod session;
pub mod updater;
pub mod version;

pub use crate::outcome::{DeviceStatus, Error};
pub use crate::protocol::{Command, FirmwareStatus, Operation, StatusReport};
pub use crate::session::{AwaitCommand, AwaitDelay, AwaitDevice, AwaitStatus, Step};
pub use crate::updater::FirmwareUpdater;
pub use crate::version::{Version, MAX_VERSION_LEN};
