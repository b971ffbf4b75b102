//! The values that pass between a session and the device or the update
//! service.
use crate::model::{Action, Report, Snapshot};
use vstd::prelude::*;

verus! {

/// What a device says of itself: the version it runs, and how far a download
/// that it has kept has come.
#[derive(Clone, Copy, Debug, PartialEq, Eq)]
pub struct FirmwareStatus<'a> {
    pub current_version: &'a [u8],
    pub next_offset: u32,
    pub next_version: Option<&'a [u8]>,
}

impl<'a> View for FirmwareStatus<'a> {
    type V = Snapshot;

    open spec fn view(&self) -> Snapshot {
        Snapshot {
            current_version: self.current_version@,
            next_offset: self.next_offset,
            next_version: match self.next_version {
                Some(version) => Some(version@),
                None => None,
            },
        }
    }
}

/// The answer of the update service to a status report.
#[derive(Clone, Debug, PartialEq, Eq)]
pub enum Command {
    /// Nothing to do for now. Ask again, after `poll` seconds if given.
    Wait { correlation_id: Option<u32>, poll: Option<u32> },
    /// The device runs the version that is wanted.
    Sync { version: Vec<u8>, correlation_id: Option<u32>, poll: Option<u32> },
    /// A chunk of the firmware `version`, to be written at `offset`.
    Write { version: Vec<u8>, correlation_id: Option<u32>, offset: u32, data: Vec<u8> },
    /// The firmware `version` is complete and can be activated.
    Swap { version: Vec<u8>, correlation_id: Option<u32>, checksum: Vec<u8> },
}

impl View for Command {
    type V = crate::model::Command;

    open spec fn view(&self) -> crate::model::Command {
        match *self {
            Command::Wait { correlation_id, poll } => crate::model::Command::Wait {
                correlation_id,
                poll,
            },
            Command::Sync { version, correlation_id, poll } => crate::model::Command::Sync {
                version: version@,
                correlation_id,
                poll,
            },
            Command::Write { version, correlation_id, offset, data } => {
                crate::model::Command::Write {
                    version: version@,
                    correlation_id,
                    offset,
                    data: data@,
                }
            },
            Command::Swap { version, correlation_id, checksum } => crate::model::Command::Swap {
                version: version@,
                correlation_id,
                checksum: checksum@,
            },
        }
    }
}

impl Command {
    /// Whether the pause that the command asks for can be counted in
    /// milliseconds.
    pub fn in_range(&self) -> (ok: bool)
        ensures
            ok == self@.in_range(),
    {
        match self {
            Command::Wait { poll: Some(seconds), .. } => *seconds <= u32::MAX / 1000,
            _ => true,
        }
    }
}

/// The status report that a session sends to the update service.
#[derive(Clone, Copy, Debug, PartialEq, Eq)]
pub enum StatusReport<'a> {
    /// Nothing was written yet.
    First { version: &'a [u8], mtu: u32 },
    /// A part of `next_version` was written, up to `offset`.
    Update { version: &'a [u8], mtu: u32, offset: u32, next_version: &'a [u8] },
}

impl<'a> View for StatusReport<'a> {
    type V = Report;

    open spec fn view(&self) -> Report {
        match *self {
            StatusReport::First { version, mtu } => Report::First { version: version@, mtu },
            StatusReport::Update { version, mtu, offset, next_version } => Report::Update {
                version: version@,
                mtu,
                offset: offset as nat,
                next_version: next_version@,
            },
        }
    }
}

/// An operation that a session asks of the device.
#[derive(Clone, Copy, Debug, PartialEq, Eq)]
pub enum Operation<'a> {
    /// Prepare for new firmware of the given version.
    Start { version: &'a [u8] },
    /// Write `data` at `offset`.
    Write { offset: u32, data: &'a [u8] },
    /// Take note that the device is up to date.
    Synced,
    /// Check the written firmware against `checksum` and activate it.
    Update { version: &'a [u8], checksum: &'a [u8] },
}

impl<'a> View for Operation<'a> {
    type V = Action;

    open spec fn view(&self) -> Action {
        match *self {
            Operation::Start { version } => Action::Start { version: version@ },
            Operation::Write { offset, data } => Action::Write { offset, data: data@ },
            Operation::Synced => Action::Synced,
            Operation::Update { version, checksum } => Action::Update {
                version: version@,
                checksum: checksum@,
            },
        }
    }
}

/// The device's answer to a status query, as the state machine reads it.
pub open spec fn status_view<D>(result: Result<FirmwareStatus, D>) -> Result<Snapshot, D> {
    match result {
        Ok(status) => Ok(status@),
        Err(error) => Err(error),
    }
}

/// The update service's answer, as the state machine reads it.
pub open spec fn response_view<S>(result: Result<Command, S>) -> Result<
    crate::model::Command,
    S,
> {
    match result {
        Ok(command) => Ok(command@),
        Err(error) => Err(error),
    }
}

} // verus!
