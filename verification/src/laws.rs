//! What holds of every update session.
use crate::model::{
    on_delay, on_device, on_response, on_status, Action, Call, Chunk, Command, Event, Pending,
    Session, Snapshot, State,
};
use crate::outcome::{DeviceStatus, Error};
use crate::version::fits;
use vstd::prelude::*;

verus! {

/// A step of a session that waits is the step of the operation that it waits
/// for: the result of the status query, of the request, of a device
/// operation or of a pause is taken as that kind of result.
pub proof fn lemma_advance_by_kind<D, S>(
    mtu: u32,
    state: State,
    call: Call,
    millis: nat,
    status: Result<Snapshot, D>,
    response: Result<Command, S>,
    result: Result<(), D>,
    completed: bool,
)
    ensures
        Session::<D, S>::Active(Pending::Status { mtu }).advance(Event::Status(status))
            == on_status::<D, S>(mtu, status),
        Session::<D, S>::Active(Pending::Request { state }).advance(Event::Response(response))
            == on_response::<D, S>(state, response),
        Session::<D, S>::Active(Pending::Device { state, call }).advance(Event::Device(result))
            == on_device::<D, S>(state, call, result),
        Session::<D, S>::Active(Pending::Delay { state, millis }).advance(
            Event::Delay { completed },
        ) == on_delay::<D, S>(state, completed),
{
}

/// The result of an operation that the session does not wait for changes
/// nothing and asks for nothing.
pub proof fn lemma_unexpected_event_is_ignored<D, S>(pending: Pending, event: Event<D, S>)
    requires
        !pending.expects(event),
    ensures
        Session::<D, S>::Active(pending).advance(event) == Session::<D, S>::Active(pending),
        Session::<D, S>::Active(pending).issued(event) == Seq::<Action>::empty(),
{
}

/// A failure of the device ends the session at once with the device's own
/// error, in the status query as in every other operation, and a failure of
/// the timer ends it too. Nothing is tried again.
pub proof fn lemma_failures_end_session<D, S>(
    mtu: u32,
    state: State,
    call: Call,
    millis: nat,
    error: D,
)
    ensures
        Session::<D, S>::Active(Pending::Status { mtu }).advance(Event::Status(Err(error)))
            == Session::<D, S>::Failed(Error::Device(error)),
        Session::<D, S>::Active(Pending::Device { state, call }).advance(
            Event::Device(Err(error)),
        ) == Session::<D, S>::Failed(Error::Device(error)),
        Session::<D, S>::Active(Pending::Delay { state, millis }).advance(
            Event::Delay { completed: false },
        ) == Session::<D, S>::Failed(Error::Delay),
{
}

/// Running through two sequences of events one after the other is running
/// through their concatenation, for the session reached and for the
/// operations asked for.
pub proof fn lemma_run_concat<D, S>(
    session: Session<D, S>,
    first: Seq<Event<D, S>>,
    rest: Seq<Event<D, S>>,
)
    ensures
        session.run(first + rest) == session.run(first).run(rest),
        session.actions(first + rest) == session.actions(first) + session.run(first).actions(
            rest,
        ),
    decreases first.len(),
{
    if first.len() == 0 {
        assert(first + rest =~= rest);
        assert(session.actions(first) + session.run(first).actions(rest) =~= session.actions(
            rest,
        ));
    } else {
        let all = first + rest;
        assert(all.first() == first.first());
        assert(all.drop_first() =~= first.drop_first() + rest);
        let next = session.advance(first.first());
        lemma_run_concat(next, first.drop_first(), rest);
        assert(session.actions(all) =~= session.actions(first) + session.run(first).actions(
            rest,
        ));
    }
}

/// A run through a single event is one step.
pub proof fn lemma_run_one<D, S>(session: Session<D, S>, event: Event<D, S>)
    ensures
        session.run(seq![event]) == session.advance(event),
        session.actions(seq![event]) == session.issued(event),
{
    let events = seq![event];
    assert(events.first() == event);
    assert(events.drop_first() =~= Seq::<Event<D, S>>::empty());
    let next = session.advance(event);
    assert(next.run(events.drop_first()) == next);
    assert(next.actions(events.drop_first()) =~= Seq::<Action>::empty());
    assert(session.actions(events) =~= session.issued(event));
}

/// A run through two events is two steps.
pub proof fn lemma_run_two<D, S>(session: Session<D, S>, a: Event<D, S>, b: Event<D, S>)
    ensures
        session.run(seq![a, b]) == session.advance(a).advance(b),
        session.actions(seq![a, b]) == session.issued(a) + session.advance(a).issued(b),
{
    assert(seq![a, b] =~= seq![a] + seq![b]);
    lemma_run_concat(session, seq![a], seq![b]);
    lemma_run_one(session, a);
    lemma_run_one(session.advance(a), b);
}

/// A run through three events is three steps.
pub proof fn lemma_run_three<D, S>(
    session: Session<D, S>,
    a: Event<D, S>,
    b: Event<D, S>,
    c: Event<D, S>,
)
    ensures
        session.run(seq![a, b, c]) == session.advance(a).advance(b).advance(c),
        session.actions(seq![a, b, c]) == session.issued(a) + session.advance(a).issued(b)
            + session.advance(a).advance(b).issued(c),
{
    assert(seq![a, b, c] =~= seq![a, b] + seq![c]);
    lemma_run_concat(session, seq![a, b], seq![c]);
    lemma_run_two(session, a, b);
    lemma_run_one(session.advance(a).advance(b), c);
}

/// A failure of the update service is never the end of a session: the same
/// status report is sent again, and the session is what it was.
pub proof fn lemma_service_failure_repeats_request<D, S>(state: State, error: S)
    ensures
        ({
            let session = Session::<D, S>::Active(Pending::Request { state });
            let failure = Event::<D, S>::Response(Err(error));
            &&& session.advance(failure) == session
            &&& session.issued(failure) == seq![Action::Request { report: state.report() }]
        }),
{
}

/// A wait command with an interval leads to exactly one pause, of that many
/// seconds, and then to the status report that was sent before: the state of
/// the session has not changed.
pub proof fn lemma_wait_pauses_once<D, S>(state: State, seconds: u32, correlation_id: Option<u32>)
    ensures
        ({
            let session = Session::<D, S>::Active(Pending::Request { state });
            let wait = Event::<D, S>::Response(
                Ok(Command::Wait { correlation_id, poll: Some(seconds) }),
            );
            let elapsed = Event::<D, S>::Delay { completed: true };
            &&& session.run(seq![wait, elapsed]) == session
            &&& session.actions(seq![wait, elapsed]) == seq![
                Action::Delay { millis: (seconds * 1000) as nat },
                Action::Request { report: state.report() },
            ]
        }),
{
    let session = Session::<D, S>::Active(Pending::Request { state });
    let wait = Event::<D, S>::Response(Ok(Command::Wait { correlation_id, poll: Some(seconds) }));
    let elapsed = Event::<D, S>::Delay { completed: true };
    lemma_run_two(session, wait, elapsed);
    assert(session.issued(wait) + session.advance(wait).issued(elapsed) =~= seq![
        Action::Delay { millis: (seconds * 1000) as nat },
        Action::Request { report: state.report() },
    ]);
}

/// A wait command without an interval leads to no pause: the same status
/// report is sent again at once.
pub proof fn lemma_wait_without_interval<D, S>(state: State, correlation_id: Option<u32>)
    ensures
        ({
            let session = Session::<D, S>::Active(Pending::Request { state });
            let wait = Event::<D, S>::Response(Ok(Command::Wait { correlation_id, poll: None }));
            &&& session.advance(wait) == session
            &&& session.issued(wait) == seq![Action::Request { report: state.report() }]
        }),
{
}

/// The status report is made of the state alone: states that agree in their
/// four parts give reports that agree in every field.
pub proof fn lemma_report_follows_state(a: State, b: State)
    requires
        a.current_version == b.current_version,
        a.next_offset == b.next_offset,
        a.next_version == b.next_version,
        a.mtu == b.mtu,
    ensures
        a.report() == b.report(),
{
}

/// A version that is too long ends the session, whether the device reports
/// it or the update service sends it.
pub proof fn lemma_long_version_ends_session<D, S>(
    mtu: u32,
    snapshot: Snapshot,
    state: State,
    chunk: Chunk,
)
    ensures
        !snapshot.bounded() ==> on_status::<D, S>(mtu, Ok(snapshot)) == Session::<D, S>::Failed(
            Error::Encode,
        ),
        !fits(chunk.version) ==> on_device::<D, S>(state, Call::Write(chunk), Ok(()))
            == Session::<D, S>::Failed(Error::Decode),
{
}

/// A version that is kept is kept whole: the state holds the very bytes that
/// the device reported or that came with the chunk.
pub proof fn lemma_versions_are_kept_whole<D, S>(
    mtu: u32,
    snapshot: Snapshot,
    state: State,
    chunk: Chunk,
)
    ensures
        snapshot.bounded() ==> {
            &&& on_status::<D, S>(mtu, Ok(snapshot)).state() matches Some(first)
            &&& first.current_version == snapshot.current_version
            &&& first.next_version == snapshot.next_version
        },
        fits(chunk.version) ==> {
            &&& on_device::<D, S>(state, Call::Write(chunk), Ok(())).state() matches Some(next)
            &&& next.current_version == state.current_version
            &&& next.next_version == Some(chunk.version)
        },
{
}

/// A write that the device has carried out moves the offset on by exactly
/// the length of the chunk, so past where it was unless the chunk is empty.
pub proof fn lemma_write_moves_offset<D, S>(state: State, chunk: Chunk)
    requires
        fits(chunk.version),
    ensures
        on_device::<D, S>(state, Call::Write(chunk), Ok(())) == Session::<D, S>::Active(
            Pending::Request { state: state.written(chunk) },
        ),
        state.written(chunk).next_offset == state.next_offset + chunk.data.len(),
        chunk.data.len() > 0 ==> state.written(chunk).next_offset > state.next_offset,
{
}


/// Whether `later` is a state of the session that `earlier` belongs to, at
/// the same time or after it: the device and its version are the same, and
/// the offset is not lower.
pub open spec fn continues(earlier: Option<State>, later: Option<State>) -> bool {
    match (earlier, later) {
        (Some(before), Some(after)) => {
            &&& after.current_version == before.current_version
            &&& after.mtu == before.mtu
            &&& after.next_offset >= before.next_offset
        },
        _ => true,
    }
}

/// Within a session the offset never decreases, whatever happens, and the
/// version that the device runs stays what it was.
pub proof fn lemma_offset_never_decreases<D, S>(session: Session<D, S>, events: Seq<Event<D, S>>)
    ensures
        continues(session.state(), session.run(events).state()),
    decreases events.len(),
{
    if events.len() > 0 {
        let next = session.advance(events.first());
        lemma_offset_never_decreases(next, events.drop_first());
        if session.state() is Some && next.state() is None {
            lemma_ended_stays_ended(next, events.drop_first());
        }
    }
}

/// A session that has ended stays as it is.
pub proof fn lemma_ended_stays_ended<D, S>(session: Session<D, S>, events: Seq<Event<D, S>>)
    requires
        !(session is Active),
    ensures
        session.run(events) == session,
        session.actions(events) == Seq::<Action>::empty(),
    decreases events.len(),
{
    if events.len() > 0 {
        lemma_ended_stays_ended(session, events.drop_first());
        assert(session.issued(events.first()) + session.actions(events.drop_first())
            =~= Seq::<Action>::empty());
    }
}

/// The versions that a session keeps never exceed the bound: what holds at
/// one time holds ever after.
pub proof fn lemma_versions_stay_bounded<D, S>(session: Session<D, S>, events: Seq<Event<D, S>>)
    requires
        session.bounded(),
    ensures
        session.run(events).bounded(),
    decreases events.len(),
{
    if events.len() > 0 {
        lemma_versions_stay_bounded(session.advance(events.first()), events.drop_first());
    }
}

/// No session ends with a failure of the update service.
pub proof fn lemma_service_error_never_surfaces<D, S>(
    session: Session<D, S>,
    events: Seq<Event<D, S>>,
)
    requires
        !(session matches Session::Failed(Error::Service(_))),
    ensures
        !(session.run(events) matches Session::Failed(Error::Service(_))),
    decreases events.len(),
{
    if events.len() > 0 {
        lemma_service_error_never_surfaces(session.advance(events.first()), events.drop_first());
    }
}


/// Whether an operation changes the firmware that the device holds.
pub open spec fn touches_firmware(action: Action) -> bool {
    action is Start || action is Write || action is Update
}

/// Whether an event is anything but a command other than sync.
pub open spec fn answers_sync<D, S>(event: Event<D, S>) -> bool {
    event matches Event::Response(Ok(command)) ==> command is Sync
}

/// Whether a session has not been told anything but that the device is in
/// sync.
pub open spec fn in_sync<D, S>(session: Session<D, S>) -> bool {
    match session {
        Session::Active(Pending::Status { .. }) => true,
        Session::Active(Pending::Request { .. }) => true,
        Session::Active(Pending::Device { call, .. }) => call is Synced,
        Session::Active(Pending::Delay { .. }) => true,
        Session::Finished(status) => status == DeviceStatus::Synced,
        Session::Failed(error) => error is Encode || error is Device || error is Delay,
    }
}

/// While the update service answers nothing but sync, no operation changes
/// the firmware of the device, and a session that ends well ends as synced.
/// The service may fail in between.
pub proof fn lemma_sync_leaves_firmware_alone<D, S>(
    session: Session<D, S>,
    events: Seq<Event<D, S>>,
)
    requires
        in_sync(session),
        forall|i: int| 0 <= i < events.len() ==> answers_sync(#[trigger] events[i]),
    ensures
        in_sync(session.run(events)),
        forall|j: int|
            0 <= j < session.actions(events).len() ==> !touches_firmware(
                #[trigger] session.actions(events)[j],
            ),
        session.run(events) matches Session::Finished(status) ==> status == DeviceStatus::Synced,
    decreases events.len(),
{
    if events.len() > 0 {
        let event = events.first();
        let rest = events.drop_first();
        assert(answers_sync(event));
        assert forall|i: int| 0 <= i < rest.len() implies answers_sync(#[trigger] rest[i]) by {
            assert(rest[i] == events[i + 1]);
        }
        let next = session.advance(event);
        lemma_sync_leaves_firmware_alone(next, rest);
        let head = session.issued(event);
        let tail = next.actions(rest);
        assert forall|j: int| 0 <= j < session.actions(events).len() implies !touches_firmware(
            #[trigger] session.actions(events)[j],
        ) by {
            if j >= head.len() {
                assert(session.actions(events)[j] == tail[j - head.len()]);
            }
        }
    }
}

/// A session in which the update service answers sync at once and the
/// device works ends as synced, after the status query, one status report
/// and the confirmation to the device.
pub proof fn lemma_sync_session<D, S>(
    mtu: u32,
    snapshot: Snapshot,
    version: Seq<u8>,
    correlation_id: Option<u32>,
    poll: Option<u32>,
)
    requires
        snapshot.bounded(),
    ensures
        ({
            let session = Session::<D, S>::Active(Pending::Status { mtu });
            let events = seq![
                Event::<D, S>::Status(Ok(snapshot)),
                Event::<D, S>::Response(Ok(Command::Sync { version, correlation_id, poll })),
                Event::<D, S>::Device(Ok(())),
            ];
            &&& session.run(events) == Session::<D, S>::Finished(DeviceStatus::Synced)
            &&& session.actions(events) == seq![
                Action::Request { report: State::initial(snapshot, mtu).report() },
                Action::Synced,
            ]
        }),
{
    let session = Session::<D, S>::Active(Pending::Status { mtu });
    let a = Event::<D, S>::Status(Ok(snapshot));
    let b = Event::<D, S>::Response(Ok(Command::Sync { version, correlation_id, poll }));
    let c = Event::<D, S>::Device(Ok(()));
    lemma_run_three(session, a, b, c);
    assert(session.issued(a) + session.advance(a).issued(b) + session.advance(a).advance(
        b,
    ).issued(c) =~= seq![
        Action::Request { report: State::initial(snapshot, mtu).report() },
        Action::Synced,
    ]);
}


/// The number of start operations among `actions`.
pub open spec fn starts(actions: Seq<Action>) -> nat
    decreases actions.len(),
{
    if actions.len() == 0 {
        0
    } else if actions.first() is Start {
        1 + starts(actions.drop_first())
    } else {
        starts(actions.drop_first())
    }
}

/// The start operations of two sequences add up.
pub proof fn lemma_starts_concat(first: Seq<Action>, rest: Seq<Action>)
    ensures
        starts(first + rest) == starts(first) + starts(rest),
    decreases first.len(),
{
    if first.len() == 0 {
        assert(first + rest =~= rest);
    } else {
        assert((first + rest).first() == first.first());
        assert((first + rest).drop_first() =~= first.drop_first() + rest);
        lemma_starts_concat(first.drop_first(), rest);
    }
}

/// The chunk that a write command carries.
pub open spec fn chunk_of(command: Command) -> Chunk
    recommends
        command is Write,
{
    match command {
        Command::Write { version, offset, data, .. } => Chunk { version, offset, data },
        _ => Chunk { version: Seq::empty(), offset: 0, data: Seq::empty() },
    }
}

/// Whether `commands` are write commands whose chunks follow one another
/// without a gap from the offset `from`, none of them empty, each with a
/// version that is short enough to be kept.
pub open spec fn covers_image(commands: Seq<Command>, from: nat) -> bool
    decreases commands.len(),
{
    commands.len() > 0 ==> {
        let chunk = chunk_of(commands.first());
        &&& commands.first() is Write
        &&& chunk.offset == from
        &&& chunk.data.len() > 0
        &&& fits(chunk.version)
        &&& covers_image(commands.drop_first(), from + chunk.data.len())
    }
}

/// The number of bytes in the chunks of `commands`.
pub open spec fn total_payload(commands: Seq<Command>) -> nat
    decreases commands.len(),
{
    if commands.len() == 0 {
        0
    } else {
        chunk_of(commands.first()).data.len() + total_payload(commands.drop_first())
    }
}

/// The state after the chunks of `commands` were written one after the
/// other.
pub open spec fn after_writes(state: State, commands: Seq<Command>) -> State
    decreases commands.len(),
{
    if commands.len() == 0 {
        state
    } else {
        after_writes(state.written(chunk_of(commands.first())), commands.drop_first())
    }
}

/// The events of one write command on a device that works: the command,
/// the end of the start operation if the chunk begins the firmware, and the
/// end of the write.
pub open spec fn write_round<D, S>(command: Command) -> Seq<Event<D, S>> {
    if chunk_of(command).offset == 0 {
        seq![Event::Response(Ok(command)), Event::Device(Ok(())), Event::Device(Ok(()))]
    } else {
        seq![Event::Response(Ok(command)), Event::Device(Ok(()))]
    }
}

/// The events of a sequence of write commands on a device that works.
pub open spec fn transfer<D, S>(commands: Seq<Command>) -> Seq<Event<D, S>>
    decreases commands.len(),
{
    if commands.len() == 0 {
        Seq::empty()
    } else {
        write_round(commands.first()) + transfer(commands.drop_first())
    }
}

/// One write command on a device that works: the chunk is written, after a
/// start if it begins the firmware, and the next status report tells of it.
pub proof fn lemma_write_round<D, S>(state: State, command: Command)
    requires
        command is Write,
        fits(chunk_of(command).version),
    ensures
        ({
            let session = Session::<D, S>::Active(Pending::Request { state });
            let chunk = chunk_of(command);
            let events = write_round::<D, S>(command);
            let write = Action::Write { offset: chunk.offset, data: chunk.data };
            let request = Action::Request { report: state.written(chunk).report() };
            &&& session.run(events) == Session::<D, S>::Active(
                Pending::Request { state: state.written(chunk) },
            )
            &&& session.actions(events) == if chunk.offset == 0 {
                seq![Action::Start { version: chunk.version }, write, request]
            } else {
                seq![write, request]
            }
        }),
{
    let session = Session::<D, S>::Active(Pending::Request { state });
    let chunk = chunk_of(command);
    let a = Event::<D, S>::Response(Ok(command));
    let b = Event::<D, S>::Device(Ok(()));
    let write = Action::Write { offset: chunk.offset, data: chunk.data };
    let request = Action::Request { report: state.written(chunk).report() };
    if chunk.offset == 0 {
        lemma_run_three(session, a, b, b);
        assert(session.issued(a) + session.advance(a).issued(b) + session.advance(a).advance(
            b,
        ).issued(b) =~= seq![Action::Start { version: chunk.version }, write, request]);
    } else {
        lemma_run_two(session, a, b);
        assert(session.issued(a) + session.advance(a).issued(b) =~= seq![write, request]);
    }
}

/// A sequence of write commands that cover a part of the firmware, on a
/// device that works: every chunk is written, the offset moves on by the
/// number of bytes written, and the device is told to start exactly once if
/// the part begins the firmware, and not at all if it does not.
pub proof fn lemma_transfer<D, S>(state: State, commands: Seq<Command>, from: nat)
    requires
        covers_image(commands, from),
    ensures
        ({
            let session = Session::<D, S>::Active(Pending::Request { state });
            let events = transfer::<D, S>(commands);
            let last = after_writes(state, commands);
            &&& session.run(events) == Session::<D, S>::Active(Pending::Request { state: last })
            &&& starts(session.actions(events)) == if from == 0 && commands.len() > 0 {
                1nat
            } else {
                0nat
            }
            &&& from == 0 && commands.len() > 0 ==> session.actions(events).first()
                == (Action::Start { version: chunk_of(commands.first()).version })
            &&& last.next_offset == state.next_offset + total_payload(commands)
            &&& last.current_version == state.current_version
            &&& commands.len() > 0 ==> last.next_version == Some(
                chunk_of(commands.last()).version,
            )
        }),
    decreases commands.len(),
{
    let session = Session::<D, S>::Active(Pending::Request { state });
    if commands.len() == 0 {
        assert(session.actions(transfer::<D, S>(commands)) =~= Seq::<Action>::empty());
    } else {
        let command = commands.first();
        let rest = commands.drop_first();
        let chunk = chunk_of(command);
        let next = state.written(chunk);
        let round = write_round::<D, S>(command);
        lemma_write_round::<D, S>(state, command);
        lemma_transfer::<D, S>(next, rest, from + chunk.data.len());
        lemma_run_concat(session, round, transfer::<D, S>(rest));
        lemma_starts_concat(session.actions(round), session.run(round).actions(transfer(rest)));
        let write = Action::Write { offset: chunk.offset, data: chunk.data };
        let request = Action::Request { report: next.report() };
        if chunk.offset == 0 {
            let a = seq![Action::Start { version: chunk.version }, write, request];
            reveal_with_fuel(starts, 4);
            assert(a.drop_first() =~= seq![write, request]);
            assert(a.drop_first().drop_first() =~= seq![request]);
            assert(a.drop_first().drop_first().drop_first() =~= Seq::<Action>::empty());
            assert(starts(a) == 1);
        } else {
            let a = seq![write, request];
            reveal_with_fuel(starts, 3);
            assert(a.drop_first() =~= seq![request]);
            assert(a.drop_first().drop_first() =~= Seq::<Action>::empty());
            assert(starts(a) == 0);
        }
        if rest.len() > 0 {
            assert(rest.last() == commands.last());
        }
    }
}

/// A session in which the update service sends the whole firmware in write
/// commands and then a swap command, on a device that works, ends as
/// updated. The device is told to start exactly once, before anything else
/// and with the version of the first chunk; the last operation is the
/// activation. When the swap command comes the offset has moved on by the
/// number of bytes in all the chunks, so that a session which began at
/// offset 0 has counted the whole firmware.
pub proof fn lemma_image_session<D, S>(
    state: State,
    commands: Seq<Command>,
    version: Seq<u8>,
    checksum: Seq<u8>,
    correlation_id: Option<u32>,
)
    requires
        commands.len() > 0,
        covers_image(commands, 0),
    ensures
        ({
            let session = Session::<D, S>::Active(Pending::Request { state });
            let writes = transfer::<D, S>(commands);
            let swap = seq![
                Event::<D, S>::Response(Ok(Command::Swap { version, correlation_id, checksum })),
                Event::<D, S>::Device(Ok(())),
            ];
            &&& session.run(writes + swap) == Session::<D, S>::Finished(DeviceStatus::Updated)
            &&& starts(session.actions(writes + swap)) == 1
            &&& session.actions(writes + swap).first() == (Action::Start {
                version: chunk_of(commands.first()).version,
            })
            &&& session.actions(writes + swap).last() == (Action::Update { version, checksum })
            &&& session.run(writes).state() matches Some(last)
            &&& last.next_offset == state.next_offset + total_payload(commands)
        }),
{
    let session = Session::<D, S>::Active(Pending::Request { state });
    let writes = transfer::<D, S>(commands);
    let a = Event::<D, S>::Response(Ok(Command::Swap { version, correlation_id, checksum }));
    let b = Event::<D, S>::Device(Ok(()));
    let swap = seq![a, b];
    lemma_transfer::<D, S>(state, commands, 0);
    lemma_run_concat(session, writes, swap);
    let reached = session.run(writes);
    lemma_run_two(reached, a, b);
    lemma_starts_concat(session.actions(writes), reached.actions(swap));
    let update = seq![Action::Update { version, checksum }];
    assert(reached.issued(a) + reached.advance(a).issued(b) =~= update);
    reveal_with_fuel(starts, 2);
    assert(update.drop_first() =~= Seq::<Action>::empty());
    assert(starts(update) == 0);
}

} // verus!
