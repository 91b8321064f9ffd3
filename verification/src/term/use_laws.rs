//! What whoever holds an engine gets for their calls.

use vstd::prelude::*;

use crate::paths::Platform;
use crate::pty::session::{ExitStatus, Session, SessionCall};
use crate::term::channel::{
    ChannelConfig, ChannelSendError, ChannelTryRecvError, TerminalEvents, TerminalHandle,
};
use crate::term::engine::{
    event_send_error, read_step, ReadEnd, ReadStep, TerminalEngine, TerminalEvent, TerminalOptions,
    TerminalRequest,
};
use crate::term::engine_laws::{
    answered_part, found_meanwhile, no_update_meanwhile, on_the_screen, output_goes_where_it_belongs,
    resize_reaches_session_and_screen, screen_part, shutdown_closes_the_session,
    written_bytes_go_to_the_session,
};
use crate::term::error::Error;
use crate::term::escape::EscapeParser;
use crate::term::laws::writing_keeps_the_stream;
use crate::term::steps::{bytes_of_all, handed_out, moments_of, outgoing, EngineModel};
use crate::term::surface::{Surface, SurfaceCall, TerminalSize};
use crate::term::sync::SyncState;

verus! {

/// A new engine has nothing behind it: nothing was asked of its session, its
/// parser or its surface by it, nothing waits, and its size is the usual one. It
/// receives from the handle and sends to the events that come with it, which hold
/// as many as was asked for.
pub proof fn new_engine_starts_fresh<P: Session, E: EscapeParser, S: Surface>(
    session: P,
    parser: E,
    surface: S,
    options: TerminalOptions,
    now: u64,
    r: (TerminalEngine<P, E, S>, TerminalHandle, TerminalEvents),
)
    requires
        call_ensures(
            TerminalEngine::<P, E, S>::new,
            (session, parser, surface, options, now),
            r,
        ),
    ensures
        r.0@.request_channel == r.1.channel(),
        r.0@.event_channel == r.2.channel(),
        r.0@.platform == options.platform,
        r.0@.calls == session.calls(),
        r.0@.parsed == parser.consumed(),
        r.0@.core.asked == surface.asked(),
        r.0@.core.events.len() == 0 && r.0@.core.pending.len() == 0 && r.0@.requests.len() == 0,
        r.0@.tries.len() == 0 && r.0@.answers.len() == 0,
        r.0@.exit_status is None,
        !r.0@.core.sync.active,
        r.0@.size.rows == 24 && r.0@.size.cols == 80,
        r.0@.room >= 1024 && r.0@.room >= options.read_buffer_capacity,
        r.0@.room == 1024 || r.0@.room == options.read_buffer_capacity,
        options.channel_config.request_capacity matches Some(n) && n < usize::MAX
            ==> r.1.limit() == options.channel_config.request_capacity,
        options.channel_config.event_capacity is None ==> r.2.limit() is None,
        r.1.tries().len() == 0 && r.2.answers().len() == 0,
{
}

/// A resize that is carried out reaches the session and the screen in the size
/// that was asked for.
pub proof fn carried_out_resize<P: Session, E: EscapeParser, S: Surface>(
    engine: &mut TerminalEngine<P, E, S>,
    size: TerminalSize,
    r: Result<(), Error>,
)
    requires
        call_ensures(
            TerminalEngine::<P, E, S>::process_request,
            (engine, TerminalRequest::Resize(size)),
            r,
        ),
    ensures
        final(engine)@.calls.last() matches SessionCall::Resize { size: wanted, agreed }
            && wanted.rows == size.rows && wanted.cols == size.cols && wanted.cell_width
            == size.cell_width && wanted.cell_height == size.cell_height && r is Ok == agreed is Ok
            && (agreed is Ok ==> final(engine)@.size == size && final(engine)@.core.asked == old(
            engine,
        )@.core.asked.push(SurfaceCall::Resize(size)).push(SurfaceCall::ResetDamage)),
{
    resize_reaches_session_and_screen(old(engine)@, final(engine)@, size, r);
}

/// Bytes that are to be written go to the session after those that wait, and
/// nothing goes to the screen.
pub proof fn carried_out_write<P: Session, E: EscapeParser, S: Surface>(
    engine: &mut TerminalEngine<P, E, S>,
    bytes: Vec<u8>,
    r: Result<(), Error>,
)
    requires
        call_ensures(
            TerminalEngine::<P, E, S>::process_request,
            (engine, TerminalRequest::WriteBytes(bytes)),
            r,
        ),
    ensures
        r is Ok ==> outgoing(final(engine)@) == outgoing(old(engine)@) + bytes@,
        final(engine)@.core.asked == old(engine)@.core.asked,
        final(engine)@.core.events == old(engine)@.core.events,
{
    written_bytes_go_to_the_session(old(engine)@, final(engine)@, bytes, r);
}

/// A shutdown closes the session.
pub proof fn carried_out_shutdown<P: Session, E: EscapeParser, S: Surface>(
    engine: &mut TerminalEngine<P, E, S>,
    r: Result<(), Error>,
)
    requires
        call_ensures(
            TerminalEngine::<P, E, S>::process_request,
            (engine, TerminalRequest::Shutdown),
            r,
        ),
    ensures
        r is Ok,
        final(engine)@.calls.last() matches SessionCall::Close { code } && (code matches Ok(code)
            ==> final(engine)@.exit_status == Some(ExitStatus { raw: code })),
{
    shutdown_closes_the_session(old(engine)@, final(engine)@, r);
}

/// Output that is read while no update is under way is on the screen, complete
/// and in its order, and the answers to it go to the session.
pub proof fn read_output_is_on_the_screen<
    P: Session,
    E: EscapeParser,
    S: Surface,
    C: Fn() -> u64,
>(engine: &mut TerminalEngine<P, E, S>, clock: &C, updated: bool)
    requires
        call_ensures(
            TerminalEngine::<P, E, S>::on_readable::<C>,
            (engine, clock),
            Ok::<bool, Error>(updated),
        ),
        !old(engine)@.core.sync.active,
        no_update_meanwhile(old(engine)@, final(engine)@),
    ensures
        ({
            let found = found_meanwhile(old(engine)@, final(engine)@);
            &&& on_the_screen(final(engine)@.core.asked) == on_the_screen(old(engine)@.core.asked)
                + screen_part(found)
            &&& outgoing(final(engine)@) == outgoing(old(engine)@) + bytes_of_all(
                old(engine)@.requests + handed_out(
                    final(engine)@.answers.skip(old(engine)@.answers.len() as int),
                ),
            ) + answered_part(found)
            &&& updated == (final(engine)@.batches.len() > old(engine)@.batches.len())
        }),
{
    output_goes_where_it_belongs(old(engine)@, final(engine)@, moments_of(*clock), updated);
}

/// When the session can take bytes it gets those that wait and those of the
/// requests, in their order.
pub proof fn writable_session_gets_the_bytes<P: Session, E: EscapeParser, S: Surface>(
    engine: &mut TerminalEngine<P, E, S>,
    waiting: bool,
)
    requires
        call_ensures(
            TerminalEngine::<P, E, S>::on_writable,
            (engine,),
            Ok::<bool, Error>(waiting),
        ),
    ensures
        outgoing(final(engine)@) == outgoing(old(engine)@) + bytes_of_all(
            old(engine)@.requests + handed_out(
                final(engine)@.answers.skip(old(engine)@.answers.len() as int),
            ),
        ),
        waiting == (final(engine)@.core.pending.len() > 0),
{
    writing_keeps_the_stream(old(engine)@, final(engine)@, waiting);
}

/// A request that is queued waits behind the others, and nothing else happens.
pub proof fn queued_request_waits<P: Session, E: EscapeParser, S: Surface>(
    engine: &mut TerminalEngine<P, E, S>,
    request: TerminalRequest,
    r: Result<(), Error>,
)
    requires
        call_ensures(TerminalEngine::<P, E, S>::queue_request, (engine, request), r),
    ensures
        r is Ok,
        final(engine)@.requests.len() == old(engine)@.requests.len() + 1,
        final(engine)@.requests.last() == request,
        old(engine)@.requests.is_prefix_of(final(engine)@.requests),
        final(engine)@ == (EngineModel {
            requests: final(engine)@.requests,
            ..old(engine)@
        }),
{
}

/// Each try to send goes on the record with what came of it, and a handle stays
/// on its channel. A channel without a limit is never full.
pub proof fn tries_are_on_the_record(
    handle: &mut TerminalHandle,
    request: TerminalRequest,
    sent: Result<(), ChannelSendError>,
    events: &mut TerminalEvents,
    got: Result<TerminalEvent, ChannelTryRecvError>,
)
    requires
        call_ensures(TerminalHandle::send, (handle, request), sent),
        call_ensures(TerminalEvents::try_recv, (events,), got),
    ensures
        final(handle).tries().len() == old(handle).tries().len() + 1,
        final(handle).tries().last() == (request, sent),
        final(handle).channel() == old(handle).channel(),
        old(handle).limit() is None ==> sent != Err::<(), _>(ChannelSendError::Full),
        final(events).answers().len() == old(events).answers().len() + 1,
        final(events).answers().last() == got,
        final(events).channel() == old(events).channel(),
{
}

/// What a read means: bytes are taken in, nothing or a call that would block ends
/// the reading for now, an interrupted call is repeated, and an end is an end.
pub proof fn reads_mean_what_they_say(
    platform: Platform,
    n: usize,
    step: ReadStep,
)
    requires
        call_ensures(
            read_step,
            (platform, Ok::<usize, crate::pty::session::SessionError>(n)),
            step,
        ),
    ensures
        n > 0 ==> step == ReadStep::Chunk(n),
        n == 0 ==> step == ReadStep::Stop(ReadEnd::Drained),
{
}

/// A full channel and one that nobody listens to are different errors.
pub proof fn channel_errors_are_told_apart(full: Error, gone: Error)
    requires
        call_ensures(event_send_error, (ChannelSendError::Full,), full),
        call_ensures(event_send_error, (ChannelSendError::Disconnected,), gone),
    ensures
        full is EventChannelFull,
        gone is EventChannelClosed,
{
}

/// A bounded configuration limits both channels alike.
pub proof fn bounded_limits_both(capacity: usize, config: ChannelConfig)
    requires
        call_ensures(ChannelConfig::bounded, (capacity,), config),
    ensures
        config.event_capacity == Some(capacity),
        config.request_capacity == Some(capacity),
{
}

/// An update that ends or is given up hands out what it held back, in order, and
/// is then over.
pub proof fn ended_update_hands_out_what_it_held(
    sync: &mut SyncState,
    now: u64,
    actions: Vec<crate::term::escape::Action>,
)
    requires
        call_ensures(SyncState::end, (sync, now), actions) || call_ensures(
            SyncState::cancel,
            (sync, now),
            actions,
        ),
    ensures
        actions@ == old(sync)@.buffer,
        !final(sync)@.active,
        final(sync)@.buffer.len() == 0,
        now + 10_000_000 <= u64::MAX ==> final(sync)@.deadline == Some((now + 10_000_000) as u64),
{
}

} // verus!
