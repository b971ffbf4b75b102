//! The steps of an update session.
//!
//! A [`Step`] either waits for the result of one operation or tells how the
//! session has ended. Each waiting step has its own type, with one function
//! `complete` that takes the result of that very operation, so that a result
//! cannot be handed to a step that did not ask for it.
use crate::model::{on_delay, on_device, on_response, on_status, Call, Pending, Session, State};
use crate::outcome::{DeviceStatus, Error};
use crate::protocol::{response_view, status_view, Command, FirmwareStatus, Operation, StatusReport};
use crate::version::Version;
use vstd::prelude::*;

verus! {

/// What a session remembers between two exchanges with the update service.
struct UpdaterState {
    current_version: Version,
    next_offset: u32,
    next_version: Option<Version>,
    mtu: u32,
}

impl View for UpdaterState {
    type V = State;

    closed spec fn view(&self) -> State {
        State {
            current_version: self.current_version@,
            next_offset: self.next_offset as nat,
            next_version: match self.next_version {
                Some(version) => Some(version@),
                None => None,
            },
            mtu: self.mtu,
        }
    }
}

/// A chunk of firmware that is on its way to the device.
struct Chunk {
    version: Vec<u8>,
    offset: u32,
    data: Vec<u8>,
}

impl View for Chunk {
    type V = crate::model::Chunk;

    closed spec fn view(&self) -> crate::model::Chunk {
        crate::model::Chunk { version: self.version@, offset: self.offset, data: self.data@ }
    }
}

/// The operation that the device carries out, with what the session needs
/// once it has ended.
enum PendingCall {
    Start(Chunk),
    Write(Chunk),
    Synced,
    Update { version: Vec<u8>, checksum: Vec<u8> },
}

impl View for PendingCall {
    type V = Call;

    closed spec fn view(&self) -> Call {
        match *self {
            PendingCall::Start(chunk) => Call::Start(chunk@),
            PendingCall::Write(chunk) => Call::Write(chunk@),
            PendingCall::Synced => Call::Synced,
            PendingCall::Update { version, checksum } => Call::Update {
                version: version@,
                checksum: checksum@,
            },
        }
    }
}

/// A session that waits for the device to say what it runs.
pub struct AwaitStatus {
    mtu: u32,
}

/// A session that waits for the update service to answer its status report.
pub struct AwaitCommand {
    state: UpdaterState,
}

/// A session that waits for the device to carry out an operation.
pub struct AwaitDevice {
    state: UpdaterState,
    call: PendingCall,
}

/// A session that waits for a pause to end.
pub struct AwaitDelay {
    state: UpdaterState,
    millis: u32,
}

/// An update session: the operation that it waits for, or how it has ended.
pub enum Step<D, S> {
    /// Ask the device for its status.
    Status(AwaitStatus),
    /// Send the status report to the update service.
    Request(AwaitCommand),
    /// Have the device carry out an operation.
    Device(AwaitDevice),
    /// Pause.
    Delay(AwaitDelay),
    /// The session has ended well.
    Finished(DeviceStatus),
    /// The session was given up.
    Failed(Error<D, S>),
}

impl<D, S> View for Step<D, S> {
    type V = Session<D, S>;

    open spec fn view(&self) -> Session<D, S> {
        match *self {
            Step::Status(waiting) => Session::Active(waiting.pending()),
            Step::Request(waiting) => Session::Active(waiting.pending()),
            Step::Device(waiting) => Session::Active(waiting.pending()),
            Step::Delay(waiting) => Session::Active(waiting.pending()),
            Step::Finished(status) => Session::Finished(status),
            Step::Failed(error) => Session::Failed(error),
        }
    }
}

impl<D, S> Step<D, S> {
    /// The first step of a session on a device that takes chunks of at most
    /// `mtu` bytes.
    pub(crate) fn begin(mtu: u32) -> (step: Self)
        ensures
            step@ == Session::<D, S>::Active(Pending::Status { mtu }),
    {
        Step::Status(AwaitStatus { mtu })
    }
}

impl AwaitStatus {
    /// The largest chunk that the device takes.
    pub closed spec fn mtu(&self) -> u32 {
        self.mtu
    }

    /// The session in the state machine.
    pub open spec fn pending(&self) -> Pending {
        Pending::Status { mtu: self.mtu() }
    }

    /// Takes what the device said of itself. The versions are copied; if one
    /// of them is too long, or the device failed, the session is given up.
    pub fn complete<D, S>(self, status: Result<FirmwareStatus<'_>, D>) -> (next: Step<D, S>)
        ensures
            next@ == on_status::<D, S>(self.mtu(), status_view(status)),
    {
        let initial = match status {
            Ok(initial) => initial,
            Err(error) => {
                return Step::Failed(Error::Device(error));
            },
        };
        let current_version = match Version::from_bytes(initial.current_version) {
            Some(version) => version,
            None => {
                return Step::Failed(Error::Encode);
            },
        };
        let next_version = match initial.next_version {
            Some(bytes) => match Version::from_bytes(bytes) {
                Some(version) => Some(version),
                None => {
                    return Step::Failed(Error::Encode);
                },
            },
            None => None,
        };
        Step::Request(
            AwaitCommand {
                state: UpdaterState {
                    current_version,
                    next_offset: initial.next_offset,
                    next_version,
                    mtu: self.mtu,
                },
            },
        )
    }
}

impl AwaitCommand {
    /// What the session remembers.
    pub closed spec fn state(&self) -> State {
        self.state@
    }

    /// The session in the state machine.
    pub open spec fn pending(&self) -> Pending {
        Pending::Request { state: self.state() }
    }

    /// The status report to send: the short form until a chunk was written,
    /// the long form after that. The versions in it are whole and within the
    /// bound.
    pub fn report(&self) -> (report: StatusReport<'_>)
        ensures
            report@ == self.state().report(),
            self.state().bounded(),
    {
        match &self.state.next_version {
            Some(next_version) => StatusReport::Update {
                version: self.state.current_version.as_bytes(),
                mtu: self.state.mtu,
                offset: self.state.next_offset,
                next_version: next_version.as_bytes(),
            },
            None => StatusReport::First {
                version: self.state.current_version.as_bytes(),
                mtu: self.state.mtu,
            },
        }
    }

    /// Takes the answer of the update service and decides what is done next.
    /// After a failure of the service the same report is to be sent again.
    pub fn complete<D, S>(self, response: Result<Command, S>) -> (next: Step<D, S>)
        requires
            response matches Ok(command) ==> command@.in_range(),
        ensures
            next@ == on_response::<D, S>(self.state(), response_view(response)),
    {
        let state = self.state;
        match response {
            Err(_) => Step::Request(AwaitCommand { state }),
            Ok(Command::Write { version, correlation_id: _, offset, data }) => {
                let chunk = Chunk { version, offset, data };
                if offset == 0 {
                    Step::Device(AwaitDevice { state, call: PendingCall::Start(chunk) })
                } else {
                    Step::Device(AwaitDevice { state, call: PendingCall::Write(chunk) })
                }
            },
            Ok(Command::Sync { version: _, correlation_id: _, poll: _ }) => Step::Device(
                AwaitDevice { state, call: PendingCall::Synced },
            ),
            Ok(Command::Wait { correlation_id: _, poll }) => match poll {
                Some(seconds) => Step::Delay(AwaitDelay { state, millis: seconds * 1000 }),
                None => Step::Request(AwaitCommand { state }),
            },
            Ok(Command::Swap { version, correlation_id: _, checksum }) => Step::Device(
                AwaitDevice { state, call: PendingCall::Update { version, checksum } },
            ),
        }
    }
}

impl AwaitDevice {
    /// What the session remembers.
    pub closed spec fn state(&self) -> State {
        self.state@
    }

    /// The operation that the device carries out.
    pub closed spec fn call(&self) -> Call {
        self.call@
    }

    /// The session in the state machine.
    pub open spec fn pending(&self) -> Pending {
        Pending::Device { state: self.state(), call: self.call() }
    }

    /// The operation to carry out on the device.
    pub fn operation(&self) -> (operation: Operation<'_>)
        ensures
            operation@ == self.call().action(),
    {
        match &self.call {
            PendingCall::Start(chunk) => Operation::Start { version: chunk.version.as_slice() },
            PendingCall::Write(chunk) => Operation::Write {
                offset: chunk.offset,
                data: chunk.data.as_slice(),
            },
            PendingCall::Synced => Operation::Synced,
            PendingCall::Update { version, checksum } => Operation::Update {
                version: version.as_slice(),
                checksum: checksum.as_slice(),
            },
        }
    }

    /// Whether the offset after the operation can be counted with 32 bits.
    pub fn in_range(&self) -> (ok: bool)
        ensures
            ok == self.call().in_range(self.state()),
    {
        match &self.call {
            PendingCall::Write(chunk) => chunk.data.len() <= (u32::MAX - self.state.next_offset)
                as usize,
            _ => true,
        }
    }

    /// Takes the result of the operation. A failure of the device ends the
    /// session. After a start the chunk is written; after a write the offset
    /// moves on by the length of the chunk and the chunk's version is kept,
    /// unless it is too long.
    pub fn complete<D, S>(self, result: Result<(), D>) -> (next: Step<D, S>)
        requires
            result is Ok ==> self.call().in_range(self.state()),
        ensures
            next@ == on_device::<D, S>(self.state(), self.call(), result),
    {
        if let Err(error) = result {
            return Step::Failed(Error::Device(error));
        }
        let mut state = self.state;
        match self.call {
            PendingCall::Start(chunk) => Step::Device(
                AwaitDevice { state, call: PendingCall::Write(chunk) },
            ),
            PendingCall::Write(chunk) => {
                state.next_offset = state.next_offset + chunk.data.len() as u32;
                match Version::from_bytes(chunk.version.as_slice()) {
                    Some(version) => {
                        state.next_version = Some(version);
                        Step::Request(AwaitCommand { state })
                    },
                    None => Step::Failed(Error::Decode),
                }
            },
            PendingCall::Synced => Step::Finished(DeviceStatus::Synced),
            PendingCall::Update { version: _, checksum: _ } => Step::Finished(
                DeviceStatus::Updated,
            ),
        }
    }
}

impl AwaitDelay {
    /// What the session remembers.
    pub closed spec fn state(&self) -> State {
        self.state@
    }

    /// The length of the pause in milliseconds.
    pub closed spec fn pause(&self) -> nat {
        self.millis as nat
    }

    /// The session in the state machine.
    pub open spec fn pending(&self) -> Pending {
        Pending::Delay { state: self.state(), millis: self.pause() }
    }

    /// The length of the pause in milliseconds.
    pub fn millis(&self) -> (millis: u32)
        ensures
            millis == self.pause(),
    {
        self.millis
    }

    /// Takes the result of the pause: the status report is sent again, or
    /// the session is given up if the timer failed.
    pub fn complete<D, S, E>(self, result: Result<(), E>) -> (next: Step<D, S>)
        ensures
            next@ == on_delay::<D, S>(self.state(), result is Ok),
    {
        match result {
            Ok(_) => Step::Request(AwaitCommand { state: self.state }),
            Err(_) => Step::Failed(Error::Delay),
        }
    }
}

} // verus!
