//! What the terminal engine does, step by step, as relations between its value
//! before and after.

use vstd::prelude::*;

use crate::paths::Platform;
use crate::pty::session::{
    accepted_in, is_blocked, is_interrupted, ExitStatus, IoError, IoErrorKind, PtySize,
    SessionCall, SessionError,
};
use crate::term::channel::{ChannelSendError, ChannelTryRecvError};
use crate::term::engine::{
    ingested, sync_flushed, sync_overdue, CoreModel, ReadEnd, ReadStep, TerminalEvent,
    TerminalRequest, EIO_RAW, MAX_RECEIVED,
};
use crate::term::error::Error;
use crate::term::escape::Action;
use crate::term::surface::{PictureModel, SurfaceCall, TerminalSize};

verus! {

/// The mathematical value of an engine: what it keeps, its size, the exit
/// status of its child and the requests that wait; the calls to its session,
/// the bytes that its parser was given and the batches of actions that it found
/// in them, what its surface shows; its tries to send an event, with the answers
/// of the channel, and what its channel has answered to each try to receive a
/// request; the room for one read, how many requests and events can wait, and
/// the channels that the requests come from and the events go into.
#[verifier::ext_equal]
pub struct EngineModel {
    pub platform: Platform,
    pub core: CoreModel,
    pub size: TerminalSize,
    pub exit_status: Option<ExitStatus>,
    pub requests: Seq<TerminalRequest>,
    pub calls: Seq<SessionCall>,
    pub parsed: Seq<u8>,
    pub batches: Seq<Seq<Action>>,
    pub picture: PictureModel,
    pub tries: Seq<(TerminalEvent, Result<(), ChannelSendError>)>,
    pub answers: Seq<Result<TerminalRequest, ChannelTryRecvError>>,
    pub room: nat,
    pub request_capacity: Option<usize>,
    pub event_capacity: Option<usize>,
    pub request_channel: int,
    pub event_channel: int,
}

/// The bytes that a request asks to write.
pub open spec fn bytes_of(request: TerminalRequest) -> Seq<u8> {
    match request {
        TerminalRequest::WriteBytes(bytes) => bytes@,
        _ => Seq::empty(),
    }
}

/// The bytes that requests ask to write, one after the other.
pub open spec fn bytes_of_all(requests: Seq<TerminalRequest>) -> Seq<u8>
    decreases requests.len(),
{
    if requests.len() == 0 {
        Seq::empty()
    } else {
        bytes_of(requests[0]) + bytes_of_all(requests.skip(1))
    }
}

/// The bytes that the session has taken over and those that still wait for it.
pub open spec fn outgoing(engine: EngineModel) -> Seq<u8> {
    accepted_in(engine.calls) + engine.core.pending
}

/// The engine after one more call to the session.
pub open spec fn with_session_call(engine: EngineModel, call: SessionCall) -> EngineModel {
    EngineModel { calls: engine.calls.push(call), ..engine }
}

/// What the engine keeps after one more call to the surface.
pub open spec fn with_call(core: CoreModel, call: SurfaceCall) -> CoreModel {
    CoreModel { asked: core.asked.push(call), ..core }
}

/// The engine after one more call to the surface, which then shows `picture`.
pub open spec fn surface_called(
    engine: EngineModel,
    call: SurfaceCall,
    picture: PictureModel,
) -> EngineModel {
    EngineModel { core: with_call(engine.core, call), picture, ..engine }
}

/// The surface is shown: a frame with the picture joins the events, and the
/// damage is reset.
pub open spec fn frame_shown(before: EngineModel, after: EngineModel) -> bool {
    &&& after.core.events.len() == before.core.events.len() + 1
    &&& after.core.events.last() matches TerminalEvent::Frame { frame } && frame@ == before.picture
    &&& after == (EngineModel {
        core: CoreModel {
            asked: before.core.asked.push(SurfaceCall::ResetDamage),
            events: before.core.events.push(after.core.events.last()),
            ..before.core
        },
        ..before
    })
}

/// The surface is changed by a call and shown.
pub open spec fn changed_and_shown(
    before: EngineModel,
    after: EngineModel,
    call: SurfaceCall,
) -> bool {
    frame_shown(surface_called(before, call, after.picture), after)
}

/// Whether a write went on: something was taken over, or the call was
/// interrupted.
pub open spec fn went_on(call: SessionCall) -> bool {
    match call {
        SessionCall::Write { taken: Ok(n), .. } => n > 0,
        SessionCall::Write { taken: Err(error), .. } => is_interrupted(error),
        _ => false,
    }
}

/// Whether there is one more try to write `bytes` after the given ones.
pub open spec fn tries_on(bytes: Seq<u8>, tries: Seq<SessionCall>) -> bool {
    &&& accepted_in(tries).len() < bytes.len()
    &&& tries.len() > 0 ==> went_on(tries.last())
}

/// Whether the calls are tries to write `bytes`, each with what those before it
/// have left.
pub open spec fn write_tries(bytes: Seq<u8>, tries: Seq<SessionCall>) -> bool
    decreases tries.len(),
{
    tries.len() == 0 || {
        let less = tries.drop_last();
        &&& write_tries(bytes, less)
        &&& tries_on(bytes, less)
        &&& tries.last() matches SessionCall::Write { input, taken } && {
            &&& input == bytes.skip(accepted_in(less).len() as int)
            &&& taken matches Ok(n) ==> n <= input.len()
        }
    }
}

/// The error with which tries to write have ended, if they have: any but one
/// that says that the call would block or was interrupted.
pub open spec fn write_failure(tries: Seq<SessionCall>) -> Option<SessionError> {
    if tries.len() == 0 {
        None
    } else {
        match tries.last() {
            SessionCall::Write { taken: Err(error), .. } => if is_blocked(error)
                || is_interrupted(error) {
                None
            } else {
                Some(error)
            },
            _ => None,
        }
    }
}

/// The calls to the session between two values of an engine.
pub open spec fn fresh_calls(before: EngineModel, after: EngineModel) -> Seq<SessionCall> {
    after.calls.skip(before.calls.len() as int)
}

/// The bytes that wait are written to the session, until it takes no more. What
/// it has taken over no longer waits, unless it fails.
pub open spec fn flushed(before: EngineModel, after: EngineModel, r: Result<(), Error>) -> bool {
    let tries = fresh_calls(before, after);
    let written = EngineModel { calls: before.calls + tries, ..before };
    &&& write_tries(before.core.pending, tries)
    &&& !tries_on(before.core.pending, tries)
    &&& match write_failure(tries) {
        Some(error) => r == Err::<(), _>(Error::Session(error)) && after == written,
        None => r is Ok && after == (EngineModel {
            core: CoreModel {
                pending: before.core.pending.skip(accepted_in(tries).len() as int),
                ..before.core
            },
            ..written
        }),
    }
}

/// The size of the session for a size of the terminal.
pub open spec fn pty_size(size: TerminalSize) -> PtySize {
    PtySize {
        rows: size.rows,
        cols: size.cols,
        cell_width: size.cell_width,
        cell_height: size.cell_height,
    }
}

/// What an answer of the session on its child means: the exit is noted and
/// told.
pub open spec fn exit_noted(
    engine: EngineModel,
    answer: Result<Option<ExitStatus>, SessionError>,
) -> EngineModel {
    match answer {
        Ok(Some(status)) => EngineModel {
            core: CoreModel {
                events: engine.core.events.push(TerminalEvent::ChildExit { status }),
                ..engine.core
            },
            exit_status: Some(status),
            ..engine
        },
        _ => engine,
    }
}

/// What is reported of one answer of the session on its child. An answer that
/// it would block or was interrupted reports nothing.
pub open spec fn exit_report(answer: Result<Option<ExitStatus>, SessionError>) -> Result<
    Option<ExitStatus>,
    Error,
> {
    match answer {
        Ok(status) => Ok(status),
        Err(error) => if is_blocked(error) || is_interrupted(error) {
            Ok(None)
        } else {
            Err(Error::Session(error))
        },
    }
}

/// The session is asked for the exit of its child, and the answer is noted.
pub open spec fn exit_asked(
    before: EngineModel,
    after: EngineModel,
    r: Result<Option<ExitStatus>, Error>,
) -> bool {
    &&& after.calls.len() == before.calls.len() + 1
    &&& after.calls.last() matches SessionCall::CheckExit { status: outcome } && {
        &&& after == exit_noted(with_session_call(before, after.calls.last()), outcome)
        &&& r == exit_report(outcome)
    }
}

/// What the end of the session means: its code is the raw status.
pub open spec fn close_noted(engine: EngineModel, outcome: Result<i32, SessionError>) -> EngineModel {
    match outcome {
        Ok(code) => exit_noted(engine, Ok(Some(ExitStatus { raw: code }))),
        Err(_) => engine,
    }
}

/// One request is carried out.
///
/// Bytes join those that wait, which are then written. A resize goes to the
/// session, and to the surface where the session has agreed. Scrolling and
/// selecting go to the surface. A shutdown closes the session, whatever comes
/// of it.
pub open spec fn request_step(
    before: EngineModel,
    after: EngineModel,
    request: TerminalRequest,
    r: Result<(), Error>,
) -> bool {
    match request {
        TerminalRequest::WriteBytes(bytes) => flushed(
            EngineModel {
                core: CoreModel { pending: before.core.pending + bytes@, ..before.core },
                ..before
            },
            after,
            r,
        ),
        TerminalRequest::Resize(size) => {
            &&& after.calls.len() == before.calls.len() + 1
            &&& after.calls.last() matches SessionCall::Resize { size: asked, agreed: outcome } && {
                let called = with_session_call(before, after.calls.last());
                &&& asked == pty_size(size)
                &&& match outcome {
                    Ok(_) => r is Ok && changed_and_shown(
                        EngineModel { size, ..called },
                        after,
                        SurfaceCall::Resize(size),
                    ),
                    Err(error) => r == Err::<(), _>(Error::Session(error)) && after == called,
                }
            }
        },
        TerminalRequest::ScrollDisplay(direction) => r is Ok && changed_and_shown(
            before,
            after,
            SurfaceCall::ScrollDisplay(direction),
        ),
        TerminalRequest::StartSelection { ty, point, direction } => r is Ok && changed_and_shown(
            before,
            after,
            SurfaceCall::StartSelection(ty, point, direction),
        ),
        TerminalRequest::UpdateSelection { point, direction } => r is Ok && changed_and_shown(
            before,
            after,
            SurfaceCall::UpdateSelection(point, direction),
        ),
        TerminalRequest::Shutdown => {
            &&& after.calls.len() == before.calls.len() + 1
            &&& after.calls.last() matches SessionCall::Close { code: outcome } && after == close_noted(
                with_session_call(before, after.calls.last()),
                outcome,
            )
            &&& r is Ok
        },
    }
}

/// The engine without the first of the requests that wait.
pub open spec fn popped(engine: EngineModel) -> EngineModel {
    EngineModel { requests: engine.requests.skip(1), ..engine }
}

/// The requests that wait are carried out one after the other, until one fails.
/// Those after it go on waiting.
pub open spec fn requests_run(before: EngineModel, after: EngineModel, r: Result<(), Error>) -> bool
    decreases before.requests.len(),
{
    if before.requests.len() == 0 {
        after == before && r is Ok
    } else {
        exists|next: EngineModel, q: Result<(), Error>|
            {
                &&& #[trigger] request_step(popped(before), next, before.requests[0], q)
                &&& next.requests == before.requests.skip(1)
                &&& q is Ok ==> requests_run(next, after, r)
                &&& q is Err ==> after == next && r == q
            }
    }
}

/// The requests that a channel has handed out in a run of answers, in order.
pub open spec fn handed_out(
    answers: Seq<Result<TerminalRequest, ChannelTryRecvError>>,
) -> Seq<TerminalRequest>
    decreases answers.len(),
{
    if answers.len() == 0 {
        Seq::empty()
    } else {
        match answers.last() {
            Ok(request) => handed_out(answers.drop_last()).push(request),
            Err(_) => handed_out(answers.drop_last()),
        }
    }
}

/// Whether a run of answers goes on to the first that brings no request. A run
/// of `MAX_RECEIVED` answers ends too.
pub open spec fn drained(answers: Seq<Result<TerminalRequest, ChannelTryRecvError>>) -> bool {
    &&& 0 < answers.len() <= MAX_RECEIVED
    &&& forall|i: int| 0 <= i < answers.len() - 1 ==> (#[trigger] answers[i]) is Ok
    &&& answers.last() is Err || answers.len() == MAX_RECEIVED
}

/// Requests are taken out of the channel until it has none, and join those that
/// wait.
pub open spec fn requests_taken(before: EngineModel, after: EngineModel) -> bool {
    let fresh = after.answers.skip(before.answers.len() as int);
    &&& drained(fresh)
    &&& after == (EngineModel {
        answers: before.answers + fresh,
        requests: before.requests + handed_out(fresh),
        ..before
    })
}

/// Requests are taken out of the channel until it has none, and all that wait
/// are carried out.
pub open spec fn pending_run(before: EngineModel, after: EngineModel, r: Result<(), Error>) -> bool {
    exists|taken: EngineModel| #[trigger]
        requests_taken(before, taken) && requests_run(taken, after, r)
}

/// The events that listeners got in a run of tries, in order.
pub open spec fn sent_in(tries: Seq<(TerminalEvent, Result<(), ChannelSendError>)>) -> Seq<
    TerminalEvent,
>
    decreases tries.len(),
{
    if tries.len() == 0 {
        Seq::empty()
    } else if tries.last().1 is Ok {
        sent_in(tries.drop_last()).push(tries.last().0)
    } else {
        sent_in(tries.drop_last())
    }
}

/// The error of the engine for an event that the channel did not take.
pub open spec fn send_failure(answer: ChannelSendError) -> Error {
    match answer {
        ChannelSendError::Full => Error::EventChannelFull,
        ChannelSendError::Disconnected => Error::EventChannelClosed,
    }
}

/// The events that wait are sent to the listeners one after the other, until
/// the channel does not take one. That one is lost, and those after it go on
/// waiting. Only a channel with a limit can be full.
pub open spec fn told(before: EngineModel, after: EngineModel, r: Result<(), Error>) -> bool {
    let events = before.core.events;
    let fresh = after.tries.skip(before.tries.len() as int);
    &&& fresh.len() <= events.len()
    &&& forall|i: int| 0 <= i < fresh.len() ==> (#[trigger] fresh[i]).0 == events[i]
    &&& forall|i: int| 0 <= i < fresh.len() - 1 ==> (#[trigger] fresh[i]).1 is Ok
    &&& after == (EngineModel {
        core: CoreModel { events: events.skip(fresh.len() as int), ..before.core },
        tries: before.tries + fresh,
        ..before
    })
    &&& match r {
        Ok(_) => fresh.len() == events.len() && (fresh.len() > 0 ==> fresh.last().1 is Ok),
        Err(error) => fresh.len() > 0 && match fresh.last().1 {
            Ok(_) => false,
            Err(answer) => error == send_failure(answer) && (answer is Full
                ==> before.event_capacity is Some),
        },
    }
}

/// Whether an error says that the session is closed. The error number counts
/// only on Unix systems.
pub open spec fn is_closed_error(platform: Platform, error: IoError) -> bool {
    error.kind == IoErrorKind::UnexpectedEof || (platform is Unix && error.raw_os_error == Some(
        EIO_RAW,
    ))
}

/// What a read means for the engine: data is taken in, an interrupted call is
/// repeated, a call that would block ends the reading, a closed session ends it
/// too, and any other error is passed on.
pub open spec fn step_of(platform: Platform, outcome: Result<usize, SessionError>) -> ReadStep {
    match outcome {
        Ok(n) => if n == 0 {
            ReadStep::Stop(ReadEnd::Drained)
        } else {
            ReadStep::Chunk(n)
        },
        Err(error) => if is_interrupted(error) {
            ReadStep::Again
        } else if is_blocked(error) {
            ReadStep::Stop(ReadEnd::Drained)
        } else if error matches SessionError::IO(err) && is_closed_error(platform, err) {
            ReadStep::Stop(ReadEnd::Closed)
        } else {
            ReadStep::Fail(error)
        },
    }
}

/// What the last call to the session, a read, means for the engine.
pub open spec fn last_step(engine: EngineModel) -> ReadStep {
    match engine.calls.last() {
        SessionCall::Read { got: outcome, .. } => step_of(engine.platform, outcome),
        _ => ReadStep::Again,
    }
}

/// The moments that a clock can tell.
pub open spec fn moments_of<C: Fn() -> u64>(clock: C) -> spec_fn(u64) -> bool {
    |moment: u64| call_ensures(clock, (), moment)
}

/// Whether the clock has told the moments.
pub open spec fn all_told(clock: spec_fn(u64) -> bool, times: Seq<u64>) -> bool {
    forall|i: int| 0 <= i < times.len() ==> clock(#[trigger] times[i])
}

/// The engine once the parser has found `batch` in `bytes`, after which the
/// surface shows `picture`. `times` are what the clock told meanwhile: a moment
/// for each action, and two for the update that is held back.
pub open spec fn batch_taken_in(
    engine: EngineModel,
    bytes: Seq<u8>,
    batch: Seq<Action>,
    picture: PictureModel,
    times: Seq<u64>,
) -> EngineModel {
    EngineModel {
        core: ingested(engine.core, batch, times),
        parsed: engine.parsed + bytes,
        batches: engine.batches.push(batch),
        picture,
        ..engine
    }
}

/// Whether the surface shows the same where nothing more was asked of it.
pub open spec fn picture_kept(before: EngineModel, after: EngineModel) -> bool {
    after.core.asked == before.core.asked ==> after.picture == before.picture
}

/// Whether a chunk is taken in, at moments that the clock tells.
pub open spec fn chunk_taken_in(
    called: EngineModel,
    after: EngineModel,
    bytes: Seq<u8>,
    clock: spec_fn(u64) -> bool,
) -> bool {
    exists|times: Seq<u64>|
        {
            &&& times.len() == after.batches.last().len() + 2
            &&& #[trigger] all_told(clock, times)
            &&& picture_kept(called, after)
            &&& after == batch_taken_in(
                called,
                bytes,
                after.batches.last(),
                after.picture,
                times,
            )
        }
}

/// The session is read once, with all the room that the engine has, and what
/// comes is taken in.
pub open spec fn one_read(
    before: EngineModel,
    after: EngineModel,
    clock: spec_fn(u64) -> bool,
) -> bool {
    let called = with_session_call(before, after.calls.last());
    &&& after.calls.len() == before.calls.len() + 1
    &&& after.platform == before.platform
    &&& after.calls.last() matches SessionCall::Read { room, bytes, .. } && room == before.room
        && match last_step(after) {
        ReadStep::Chunk(n) => bytes.len() == n && chunk_taken_in(called, after, bytes, clock),
        _ => bytes.len() == 0 && after == called,
    }
}

/// Whether the last read ends the reading.
pub open spec fn read_ends(engine: EngineModel) -> bool {
    last_step(engine) is Stop || last_step(engine) is Fail
}

/// What comes of the reading that the last read ends.
pub open spec fn read_result(engine: EngineModel) -> Result<ReadEnd, Error> {
    match last_step(engine) {
        ReadStep::Stop(end) => Ok(end),
        ReadStep::Fail(error) => Err(Error::Session(error)),
        _ => Ok(ReadEnd::Drained),
    }
}

/// The session is read until it has no more.
pub open spec fn read_run(
    before: EngineModel,
    after: EngineModel,
    clock: spec_fn(u64) -> bool,
    r: Result<ReadEnd, Error>,
) -> bool
    decreases after.calls.len() - before.calls.len(),
{
    before.calls.len() < after.calls.len() && exists|next: EngineModel|
        {
            &&& #[trigger] one_read(before, next, clock)
            &&& next.calls.len() == before.calls.len() + 1
            &&& if read_ends(next) {
                after == next && r == read_result(next)
            } else {
                read_run(next, after, clock, r)
            }
        }
}

/// A closed session is asked for the exit of its child.
pub open spec fn closed_asked(
    closed: bool,
    before: EngineModel,
    after: EngineModel,
    r: Result<Option<ExitStatus>, Error>,
) -> bool {
    if closed {
        exit_asked(before, after, r)
    } else {
        after == before && r == Ok::<Option<ExitStatus>, Error>(None)
    }
}

/// A surface that has changed is shown.
pub open spec fn update_shown(updated: bool, before: EngineModel, after: EngineModel) -> bool {
    if updated {
        frame_shown(before, after)
    } else {
        after == before
    }
}

/// A surface that has changed is shown, and the session is asked for the exit of
/// its child.
pub open spec fn shown_and_asked(
    before: EngineModel,
    after: EngineModel,
    updated: bool,
    r: Result<(), Error>,
) -> bool {
    exists|shown: EngineModel, q: Result<Option<ExitStatus>, Error>|
        {
            &&& update_shown(updated, before, shown)
            &&& #[trigger] exit_asked(shown, after, q)
            &&& match q {
                Err(error) => r == Err::<(), _>(error),
                Ok(_) => r is Ok,
            }
        }
}

/// What joins the events once output was taken in, in this order: the exit of
/// the child of a closed session, the new frame, and the exit of the child.
pub open spec fn announced(
    before: EngineModel,
    after: EngineModel,
    updated: bool,
    closed: bool,
    r: Result<(), Error>,
) -> bool {
    exists|asked: EngineModel, q: Result<Option<ExitStatus>, Error>|
        {
            &&& #[trigger] closed_asked(closed, before, asked, q)
            &&& match q {
                Err(error) => after == asked && r == Err::<(), _>(error),
                Ok(_) => shown_and_asked(asked, after, updated, r),
            }
        }
}

/// What there is to tell joins the events, and all events are told.
pub open spec fn announced_and_told(
    before: EngineModel,
    after: EngineModel,
    updated: bool,
    closed: bool,
    r: Result<(), Error>,
) -> bool {
    exists|ready: EngineModel, q: Result<(), Error>|
        {
            &&& #[trigger] announced(before, ready, updated, closed, q)
            &&& match q {
                Err(_) => after == ready && r == q,
                Ok(_) => told(ready, after, r),
            }
        }
}

/// The output is taken in, and the listeners are told. The result says whether
/// there was output.
pub open spec fn read_and_told(
    before: EngineModel,
    after: EngineModel,
    clock: spec_fn(u64) -> bool,
    r: Result<bool, Error>,
) -> bool {
    exists|read: EngineModel, q: Result<ReadEnd, Error>|
        {
            let updated = read.batches.len() > before.batches.len();
            &&& #[trigger] read_run(before, read, clock, q)
            &&& match q {
                Err(error) => after == read && r == Err::<bool, _>(error),
                Ok(end) => match r {
                    Err(error) => announced_and_told(
                        read,
                        after,
                        updated,
                        end is Closed,
                        Err(error),
                    ),
                    Ok(output) => output == updated && announced_and_told(
                        read,
                        after,
                        updated,
                        end is Closed,
                        Ok(()),
                    ),
                },
            }
        }
}

/// The session has output: requests are carried out, the output is taken in,
/// and the listeners are told of a new frame and of an exit. The result says
/// whether there was output.
pub open spec fn readable_run(
    before: EngineModel,
    after: EngineModel,
    clock: spec_fn(u64) -> bool,
    r: Result<bool, Error>,
) -> bool {
    exists|ready: EngineModel, q: Result<(), Error>|
        {
            &&& #[trigger] pending_run(before, ready, q)
            &&& match q {
                Err(error) => after == ready && r == Err::<bool, _>(error),
                Ok(_) => read_and_told(ready, after, clock, r),
            }
        }
}

/// What waits is written, and the listeners are told. The result says whether
/// bytes still wait.
pub open spec fn written_and_told(
    before: EngineModel,
    after: EngineModel,
    r: Result<bool, Error>,
) -> bool {
    exists|written: EngineModel, q: Result<(), Error>|
        {
            &&& #[trigger] flushed(before, written, q)
            &&& match q {
                Err(error) => after == written && r == Err::<bool, _>(error),
                Ok(_) => match r {
                    Err(error) => told(written, after, Err(error)),
                    Ok(waiting) => told(written, after, Ok(())) && waiting == (
                    after.core.pending.len() > 0),
                },
            }
        }
}

/// The session can take bytes: requests are carried out, what waits is written,
/// and the listeners are told. The result says whether bytes still wait.
pub open spec fn writable_run(
    before: EngineModel,
    after: EngineModel,
    r: Result<bool, Error>,
) -> bool {
    exists|ready: EngineModel, q: Result<(), Error>|
        {
            &&& #[trigger] pending_run(before, ready, q)
            &&& match q {
                Err(error) => after == ready && r == Err::<bool, _>(error),
                Ok(_) => written_and_told(ready, after, r),
            }
        }
}

/// The engine once it has given up on an update that has taken too long, after
/// which the surface shows `picture`. The update is looked at in the moment
/// `now` and given up in the moment `then`.
pub open spec fn update_given_up(
    engine: EngineModel,
    picture: PictureModel,
    now: u64,
    then: u64,
) -> EngineModel {
    EngineModel { core: sync_flushed(engine.core, now, then), picture, ..engine }
}

/// An update that has taken too long is given up, and the listeners are told.
pub open spec fn given_up_and_told(
    before: EngineModel,
    after: EngineModel,
    clock: spec_fn(u64) -> bool,
    r: Result<(), Error>,
) -> bool {
    exists|picture: PictureModel, now: u64, then: u64|
        {
            &&& clock(now)
            &&& clock(then)
            &&& picture_kept(before, update_given_up(before, picture, now, then))
            &&& announced_and_told(
                #[trigger] update_given_up(before, picture, now, then),
                after,
                sync_overdue(before.core, now),
                false,
                r,
            )
        }
}

/// Regular maintenance: requests are carried out, an update that has taken too
/// long is given up, and the listeners are told.
pub open spec fn tick_run(
    before: EngineModel,
    after: EngineModel,
    clock: spec_fn(u64) -> bool,
    r: Result<(), Error>,
) -> bool {
    exists|ready: EngineModel, q: Result<(), Error>|
        {
            &&& #[trigger] pending_run(before, ready, q)
            &&& match q {
                Err(_) => after == ready && r == q,
                Ok(_) => given_up_and_told(ready, after, clock, r),
            }
        }
}

} // verus!
