//! The update protocol as a state machine over mathematical values.
//!
//! A [`Session`] is either waiting for the result of one operation
//! ([`Pending`]) or has ended. [`Session::advance`] takes the result of the
//! pending operation, as an [`Event`], to the session that follows. The
//! executable steps of the crate are specified by these functions.
use crate::outcome::{DeviceStatus, Error};
use crate::version::fits;
use vstd::prelude::*;

verus! {

/// What a session remembers between two exchanges with the update service.
pub struct State {
    /// The version that the device runs. It never changes during a session.
    pub current_version: Seq<u8>,
    /// The offset in the new firmware at which the next chunk is expected.
    pub next_offset: nat,
    /// The version that is being written, once a chunk of it was written.
    pub next_version: Option<Seq<u8>>,
    /// The largest chunk that the device takes in one write.
    pub mtu: u32,
}

/// What a device says of itself at the start of a session.
pub struct Snapshot {
    pub current_version: Seq<u8>,
    pub next_offset: u32,
    pub next_version: Option<Seq<u8>>,
}

/// The status report that is sent to the update service.
pub enum Report {
    /// Nothing was written yet.
    First { version: Seq<u8>, mtu: u32 },
    /// A part of `next_version` was written, up to `offset`.
    Update { version: Seq<u8>, mtu: u32, offset: nat, next_version: Seq<u8> },
}

/// The answer of the update service to a status report.
pub enum Command {
    Wait { correlation_id: Option<u32>, poll: Option<u32> },
    Sync { version: Seq<u8>, correlation_id: Option<u32>, poll: Option<u32> },
    Write { version: Seq<u8>, correlation_id: Option<u32>, offset: u32, data: Seq<u8> },
    Swap { version: Seq<u8>, correlation_id: Option<u32>, checksum: Seq<u8> },
}

/// A piece of new firmware, as a write command carries it.
pub struct Chunk {
    pub version: Seq<u8>,
    pub offset: u32,
    pub data: Seq<u8>,
}

/// An operation of the device that a command leads to.
pub enum Call {
    /// Prepare the device for the firmware that `Chunk` begins; the chunk is
    /// written next.
    Start(Chunk),
    /// Write the chunk.
    Write(Chunk),
    /// Tell the device that it is up to date.
    Synced,
    /// Hand the written firmware over for activation.
    Update { version: Seq<u8>, checksum: Seq<u8> },
}

/// One operation on the device, the update service or the timer, with what
/// is handed to it.
pub enum Action {
    Status,
    Request { report: Report },
    Start { version: Seq<u8> },
    Write { offset: u32, data: Seq<u8> },
    Synced,
    Update { version: Seq<u8>, checksum: Seq<u8> },
    Delay { millis: nat },
}

/// The result of one operation.
pub enum Event<D, S> {
    /// What the device said of itself.
    Status(Result<Snapshot, D>),
    /// What the update service answered.
    Response(Result<Command, S>),
    /// How a start, write, synced or update operation of the device went.
    Device(Result<(), D>),
    /// Whether a pause ran to its end.
    Delay { completed: bool },
}

/// A session that waits for the result of an operation.
pub enum Pending {
    /// The device is asked for its status.
    Status { mtu: u32 },
    /// The status report of `state` is sent to the update service.
    Request { state: State },
    /// The device carries out `call`.
    Device { state: State, call: Call },
    /// The timer runs for `millis` milliseconds.
    Delay { state: State, millis: nat },
}

/// An update session.
pub enum Session<D, S> {
    Active(Pending),
    Finished(DeviceStatus),
    Failed(Error<D, S>),
}

impl Snapshot {
    /// Both versions are short enough to be kept.
    pub open spec fn bounded(self) -> bool {
        &&& fits(self.current_version)
        &&& self.next_version matches Some(version) ==> fits(version)
    }
}

impl State {
    /// The state in which a session starts on a device.
    pub open spec fn initial(snapshot: Snapshot, mtu: u32) -> State {
        State {
            current_version: snapshot.current_version,
            next_offset: snapshot.next_offset as nat,
            next_version: snapshot.next_version,
            mtu,
        }
    }

    /// The status report of this state.
    pub open spec fn report(self) -> Report {
        match self.next_version {
            Some(next_version) => Report::Update {
                version: self.current_version,
                mtu: self.mtu,
                offset: self.next_offset,
                next_version,
            },
            None => Report::First { version: self.current_version, mtu: self.mtu },
        }
    }

    /// The state after `chunk` was written.
    pub open spec fn written(self, chunk: Chunk) -> State {
        State {
            next_offset: self.next_offset + chunk.data.len(),
            next_version: Some(chunk.version),
            ..self
        }
    }

    /// Both versions are short enough to be kept.
    pub open spec fn bounded(self) -> bool {
        &&& fits(self.current_version)
        &&& self.next_version matches Some(version) ==> fits(version)
    }
}

impl Command {
    /// Whether the pause that the command asks for can be counted in
    /// milliseconds with 32 bits.
    pub open spec fn in_range(self) -> bool {
        self matches Command::Wait { poll: Some(seconds), .. } ==> seconds * 1000 <= u32::MAX
    }
}

impl Call {
    /// Whether the offset after the call can be counted with 32 bits.
    pub open spec fn in_range(self, state: State) -> bool {
        self matches Call::Write(chunk) ==> state.next_offset + chunk.data.len() <= u32::MAX
    }

    /// The operation as the device sees it.
    pub open spec fn action(self) -> Action {
        match self {
            Call::Start(chunk) => Action::Start { version: chunk.version },
            Call::Write(chunk) => Action::Write { offset: chunk.offset, data: chunk.data },
            Call::Synced => Action::Synced,
            Call::Update { version, checksum } => Action::Update { version, checksum },
        }
    }
}

/// The session after the device has said what it runs: its versions are
/// copied if both fit, or the session fails.
pub open spec fn on_status<D, S>(mtu: u32, result: Result<Snapshot, D>) -> Session<D, S> {
    match result {
        Err(error) => Session::Failed(Error::Device(error)),
        Ok(snapshot) => if snapshot.bounded() {
            Session::Active(Pending::Request { state: State::initial(snapshot, mtu) })
        } else {
            Session::Failed(Error::Encode)
        },
    }
}

/// The session after the update service has answered. A failure of the
/// service changes nothing: the same report is sent again.
pub open spec fn on_response<D, S>(state: State, result: Result<Command, S>) -> Session<D, S> {
    match result {
        Err(_) => Session::Active(Pending::Request { state }),
        Ok(Command::Write { version, offset, data, .. }) => {
            let chunk = Chunk { version, offset, data };
            if offset == 0 {
                Session::Active(Pending::Device { state, call: Call::Start(chunk) })
            } else {
                Session::Active(Pending::Device { state, call: Call::Write(chunk) })
            }
        },
        Ok(Command::Sync { .. }) => Session::Active(Pending::Device { state, call: Call::Synced }),
        Ok(Command::Wait { poll, .. }) => match poll {
            Some(seconds) => Session::Active(
                Pending::Delay { state, millis: (seconds * 1000) as nat },
            ),
            None => Session::Active(Pending::Request { state }),
        },
        Ok(Command::Swap { version, checksum, .. }) => Session::Active(
            Pending::Device { state, call: Call::Update { version, checksum } },
        ),
    }
}

/// The session after an operation of the device has ended.
pub open spec fn on_device<D, S>(state: State, call: Call, result: Result<(), D>) -> Session<D, S> {
    match result {
        Err(error) => Session::Failed(Error::Device(error)),
        Ok(_) => match call {
            Call::Start(chunk) => Session::Active(Pending::Device { state, call: Call::Write(chunk) }),
            Call::Write(chunk) => if fits(chunk.version) {
                Session::Active(Pending::Request { state: state.written(chunk) })
            } else {
                Session::Failed(Error::Decode)
            },
            Call::Synced => Session::Finished(DeviceStatus::Synced),
            Call::Update { .. } => Session::Finished(DeviceStatus::Updated),
        },
    }
}

/// The session after a pause.
pub open spec fn on_delay<D, S>(state: State, completed: bool) -> Session<D, S> {
    if completed {
        Session::Active(Pending::Request { state })
    } else {
        Session::Failed(Error::Delay)
    }
}

impl Pending {
    /// The operation that is waited for.
    pub open spec fn action(self) -> Action {
        match self {
            Pending::Status { .. } => Action::Status,
            Pending::Request { state } => Action::Request { report: state.report() },
            Pending::Device { call, .. } => call.action(),
            Pending::Delay { millis, .. } => Action::Delay { millis },
        }
    }

    /// Whether `event` is a result of the operation that is waited for.
    pub open spec fn expects<D, S>(self, event: Event<D, S>) -> bool {
        match (self, event) {
            (Pending::Status { .. }, Event::Status(_)) => true,
            (Pending::Request { .. }, Event::Response(_)) => true,
            (Pending::Device { .. }, Event::Device(_)) => true,
            (Pending::Delay { .. }, Event::Delay { .. }) => true,
            _ => false,
        }
    }

    /// The session after `event`. An event that is no result of the pending
    /// operation changes nothing.
    pub open spec fn advance<D, S>(self, event: Event<D, S>) -> Session<D, S> {
        match (self, event) {
            (Pending::Status { mtu }, Event::Status(result)) => on_status(mtu, result),
            (Pending::Request { state }, Event::Response(result)) => on_response(state, result),
            (Pending::Device { state, call }, Event::Device(result)) => on_device(
                state,
                call,
                result,
            ),
            (Pending::Delay { state, .. }, Event::Delay { completed }) => on_delay(
                state,
                completed,
            ),
            _ => Session::Active(self),
        }
    }
}

impl<D, S> Session<D, S> {
    /// The session after `event`. A session that has ended stays as it is.
    pub open spec fn advance(self, event: Event<D, S>) -> Session<D, S> {
        match self {
            Session::Active(pending) => pending.advance(event),
            _ => self,
        }
    }

    /// The session after the events of `events`, first to last.
    pub open spec fn run(self, events: Seq<Event<D, S>>) -> Session<D, S>
        decreases events.len(),
    {
        if events.len() == 0 {
            self
        } else {
            self.advance(events.first()).run(events.drop_first())
        }
    }

    /// The operations that the session asks for during `events`, in their
    /// order: one for each event that leaves the session waiting for the
    /// result of an operation. The operation that the session waits for at
    /// first is not among them.
    pub open spec fn actions(self, events: Seq<Event<D, S>>) -> Seq<Action>
        decreases events.len(),
    {
        if events.len() == 0 {
            Seq::empty()
        } else {
            self.issued(events.first()) + self.advance(events.first()).actions(
                events.drop_first(),
            )
        }
    }

    /// The operation that `event` makes the session ask for, if any.
    pub open spec fn issued(self, event: Event<D, S>) -> Seq<Action> {
        match (self, self.advance(event)) {
            (Session::Active(pending), Session::Active(next)) => if pending.expects(event) {
                seq![next.action()]
            } else {
                Seq::empty()
            },
            _ => Seq::empty(),
        }
    }

    /// The state of a session that has got past the device's status and has
    /// not ended.
    pub open spec fn state(self) -> Option<State> {
        match self {
            Session::Active(Pending::Request { state }) => Some(state),
            Session::Active(Pending::Device { state, .. }) => Some(state),
            Session::Active(Pending::Delay { state, .. }) => Some(state),
            _ => None,
        }
    }

    /// The versions that the session keeps are short enough.
    pub open spec fn bounded(self) -> bool {
        self.state() matches Some(state) ==> state.bounded()
    }
}

} // verus!
