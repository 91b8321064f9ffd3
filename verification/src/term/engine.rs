//! The terminal engine: bytes from the session go to the parser and on to the
//! surface, requests go to the session, and events go to the listeners.

use std::collections::VecDeque;

use cursor_icon::CursorIcon;
use flume::Sender;
use vstd::prelude::*;
use vstd::slice::slice_subrange;

use crate::paths::Platform;
use crate::pty::session::{
    accepted_in, read_bytes, ExitStatus, IoError, IoErrorKind, PtySize, Session, SessionCall,
    SessionError,
};
use crate::term::channel::{
    event_channel, event_channel_of, event_limit, event_tries, limit_for, request_channel, try_send_event,
    ChannelConfig, ChannelSendError, ChannelTryRecvError, RequestSource, TerminalEvents,
    TerminalHandle,
};
use crate::term::error::Error;
use crate::term::escape::{Action, CursorShape, CursorStyle, EscapeParser, Hyperlink};
use crate::term::steps::{
    all_told, announced, announced_and_told, batch_taken_in, chunk_taken_in, close_noted,
    closed_asked, drained, exit_asked, exit_noted, exit_report, flushed, frame_shown, fresh_calls,
    handed_out, is_closed_error, last_step, moments_of, one_read, pending_run, popped, pty_size,
    read_run, readable_run, request_step, requests_run, requests_taken, send_failure,
    shown_and_asked, step_of, surface_called, tick_run, told, tries_on, update_given_up,
    update_shown, went_on, with_session_call, writable_run, write_failure, write_tries, EngineModel,
};
use crate::term::surface::{
    GridPoint, Scroll, SelectionType, Side, SnapshotOwned, Surface, SurfaceCall, TerminalSize,
};
use crate::term::sync::{
    deadline_from, is_past, sync_begun, sync_idle, SyncModel, SyncState, MAX_SYNC_ACTIONS,
};

verus! {

/// The least size of the read buffer.
pub const DEFAULT_READ_BUFFER_CAPACITY: usize = 1024;

/// How many requests are received in one go at most.
pub const MAX_RECEIVED: u64 = 0xffff_ffff_ffff_ffff;

/// The error number with which a closed terminal answers on unix.
pub const EIO_RAW: i32 = 5;

/// What the engine tells its listeners.
#[derive(Debug)]
pub enum TerminalEvent {
    /// The surface has changed.
    Frame { frame: SnapshotOwned },
    /// The child process has exited.
    ChildExit { status: ExitStatus },
    /// The title has changed.
    TitleChanged { title: String },
    /// The title is the default one again.
    ResetTitle,
    /// The bell was rung.
    Bell,
    /// The shape of the cursor has changed.
    CursorShapeChanged { shape: CursorShape },
    /// The style of the cursor has changed.
    CursorStyleChanged { style: Option<CursorStyle> },
    /// The icon of the pointing device has changed.
    CursorIconChanged { icon: CursorIcon },
    /// The link under the cursor has changed.
    Hyperlink { link: Option<Hyperlink> },
}

/// What listeners ask of the engine.
#[derive(Debug)]
pub enum TerminalRequest {
    /// Write bytes to the session.
    WriteBytes(Vec<u8>),
    /// Resize the session.
    Resize(TerminalSize),
    /// Scroll the display.
    ScrollDisplay(Scroll),
    /// Start a selection.
    StartSelection { ty: SelectionType, point: GridPoint, direction: Side },
    /// Extend the selection.
    UpdateSelection { point: GridPoint, direction: Side },
    /// Close the session.
    Shutdown,
}

impl Clone for Hyperlink {
    fn clone(&self) -> (r: Self)
        ensures
            r == *self,
    {
        Hyperlink {
            id: match &self.id {
                Some(id) => Some(id.clone()),
                None => None,
            },
            uri: self.uri.clone(),
        }
    }
}

/// What the engine keeps besides the session and the parser.
#[derive(Debug)]
pub struct EngineCore<S> {
    pub surface: S,
    pub events: VecDeque<TerminalEvent>,
    pub pending_input: VecDeque<u8>,
    pub sync_state: SyncState,
}

/// The mathematical value of what the engine keeps: what was asked of the
/// surface, the events that wait for their listeners, the bytes that wait for
/// the session, and the update that is held back.
#[verifier::ext_equal]
pub struct CoreModel {
    pub asked: Seq<SurfaceCall>,
    pub events: Seq<TerminalEvent>,
    pub pending: Seq<u8>,
    pub sync: SyncModel,
}

impl<S: Surface> View for EngineCore<S> {
    type V = CoreModel;

    open spec fn view(&self) -> CoreModel {
        CoreModel {
            asked: self.surface.asked(),
            events: self.events@,
            pending: self.pending_input@,
            sync: self.sync_state@,
        }
    }
}

/// The event that an action gives rise to, if any.
pub open spec fn event_of(action: Action) -> Option<TerminalEvent> {
    match action {
        Action::SetWindowTitle(title) => Some(TerminalEvent::TitleChanged { title }),
        Action::ResetWindowTitle => Some(TerminalEvent::ResetTitle),
        Action::Bell => Some(TerminalEvent::Bell),
        Action::SetCursorShape(shape) => Some(TerminalEvent::CursorShapeChanged { shape }),
        Action::SetCursorStyle(style) => Some(TerminalEvent::CursorStyleChanged { style }),
        Action::SetCursorIcon(icon) => Some(TerminalEvent::CursorIconChanged { icon }),
        Action::SetHyperlink(link) => Some(TerminalEvent::Hyperlink { link }),
        _ => None,
    }
}

/// Whether an action goes to the surface.
pub open spec fn goes_to_surface(action: Action) -> bool {
    match action {
        Action::Print(_) => true,
        Action::SetCursorShape(_) => true,
        Action::SetCursorStyle(_) => true,
        Action::SetHyperlink(_) => true,
        Action::Control(_) => true,
        _ => false,
    }
}

/// The bytes with which an action is answered.
pub open spec fn answer_of(action: Action) -> Seq<u8> {
    match action {
        Action::Report(bytes) => bytes@,
        _ => Seq::empty(),
    }
}

/// The effect of an action that is not held back.
pub open spec fn applied(core: CoreModel, action: Action) -> CoreModel {
    CoreModel {
        asked: if goes_to_surface(action) {
            core.asked.push(SurfaceCall::Apply(action))
        } else {
            core.asked
        },
        events: match event_of(action) {
            Some(event) => core.events.push(event),
            None => core.events,
        },
        pending: core.pending + answer_of(action),
        ..core
    }
}

/// The effect of actions that are not held back.
pub open spec fn applied_all(core: CoreModel, actions: Seq<Action>) -> CoreModel
    decreases actions.len(),
{
    if actions.len() == 0 {
        core
    } else {
        applied(applied_all(core, actions.drop_last()), actions.last())
    }
}

/// The effect of an action that the parser has found: within an update it is
/// held back, as long as there is room.
pub open spec fn handled(core: CoreModel, action: Action, now: u64) -> CoreModel {
    match action {
        Action::BeginSync => CoreModel { sync: sync_begun(now), ..core },
        Action::EndSync => applied_all(
            CoreModel { sync: sync_idle(now), ..core },
            core.sync.buffer,
        ),
        _ => if core.sync.active && core.sync.buffer.len() < MAX_SYNC_ACTIONS {
            CoreModel {
                sync: SyncModel {
                    buffer: core.sync.buffer.push(action),
                    deadline: deadline_from(now, true),
                    ..core.sync
                },
                ..core
            }
        } else {
            applied(core, action)
        },
    }
}

/// The effect of actions that the parser has found, each in its own moment.
pub open spec fn handled_all(core: CoreModel, actions: Seq<Action>, times: Seq<u64>) -> CoreModel
    decreases actions.len(),
{
    if actions.len() == 0 {
        core
    } else {
        handled(
            handled_all(core, actions.drop_last(), times),
            actions.last(),
            times[actions.len() - 1],
        )
    }
}

/// Whether an update has taken too long.
pub open spec fn sync_overdue(core: CoreModel, now: u64) -> bool {
    core.sync.active && is_past(core.sync.deadline, now)
}

/// The effect of giving up, in the moment `then`, on an update that has taken
/// too long in the moment `now`.
pub open spec fn sync_flushed(core: CoreModel, now: u64, then: u64) -> CoreModel {
    if sync_overdue(core, now) {
        applied_all(CoreModel { sync: sync_idle(then), ..core }, core.sync.buffer)
    } else {
        core
    }
}

/// The effect of one batch of actions from the parser: each action has its
/// moment, and the update that is held back is looked at in the two after them.
pub open spec fn ingested(core: CoreModel, batch: Seq<Action>, times: Seq<u64>) -> CoreModel {
    sync_flushed(
        handled_all(core, batch, times),
        times[batch.len() as int],
        times[batch.len() as int + 1],
    )
}

/// Whether the surface shows the same as long as nothing was asked of it, and
/// what was asked of it before is still on its record.
pub open spec fn surface_kept<S: Surface>(before: EngineCore<S>, after: EngineCore<S>) -> bool {
    &&& before.surface.asked().len() <= after.surface.asked().len()
    &&& before.surface.asked().len() == after.surface.asked().len() ==> after.surface
        == before.surface
}

fn append_bytes(queue: &mut VecDeque<u8>, bytes: &Vec<u8>)
    ensures
        final(queue)@ == old(queue)@ + bytes@,
{
    let mut i: usize = 0;
    while i < bytes.len()
        invariant
            i <= bytes@.len(),
            queue@ == old(queue)@ + bytes@.take(i as int),
        decreases bytes@.len() - i,
    {
        queue.push_back(bytes[i]);
        i += 1;
        assert(queue@ =~= old(queue)@ + bytes@.take(i as int));
    }
    assert(bytes@.take(bytes@.len() as int) =~= bytes@);
    assert(queue@ =~= old(queue)@ + bytes@);
}

impl<S: Surface> EngineCore<S> {
    fn apply(&mut self, action: Action)
        ensures
            final(self)@ == applied(old(self)@, action),
            surface_kept(*old(self), *final(self)),
    {
        let ghost before = self@;
        match action {
            Action::SetWindowTitle(title) => {
                self.events.push_back(TerminalEvent::TitleChanged { title });
            },
            Action::ResetWindowTitle => {
                self.events.push_back(TerminalEvent::ResetTitle);
            },
            Action::Bell => {
                self.events.push_back(TerminalEvent::Bell);
            },
            Action::SetCursorShape(shape) => {
                self.surface.apply(Action::SetCursorShape(shape));
                self.events.push_back(TerminalEvent::CursorShapeChanged { shape });
            },
            Action::SetCursorStyle(style) => {
                self.surface.apply(Action::SetCursorStyle(style));
                self.events.push_back(TerminalEvent::CursorStyleChanged { style });
            },
            Action::SetCursorIcon(icon) => {
                self.events.push_back(TerminalEvent::CursorIconChanged { icon });
            },
            Action::SetHyperlink(link) => {
                let copy = match &link {
                    Some(link) => Some(link.clone()),
                    None => None,
                };
                self.surface.apply(Action::SetHyperlink(copy));
                self.events.push_back(TerminalEvent::Hyperlink { link });
            },
            Action::Report(bytes) => {
                append_bytes(&mut self.pending_input, &bytes);
            },
            Action::BeginSync => {},
            Action::EndSync => {},
            Action::Print(c) => {
                self.surface.apply(Action::Print(c));
            },
            Action::Control(code) => {
                self.surface.apply(Action::Control(code));
            },
        }
        assert(self@ =~= applied(before, action));
    }

    fn apply_all(&mut self, actions: Vec<Action>)
        ensures
            final(self)@ == applied_all(old(self)@, actions@),
            surface_kept(*old(self), *final(self)),
    {
        let ghost all = actions@;
        let ghost before = self@;
        let mut queue: VecDeque<Action> = VecDeque::new();
        to_queue(actions, &mut queue);
        let ghost mut done: int = 0;
        assert(all.take(0) =~= Seq::empty());
        assert(queue@ =~= all.skip(0));
        while queue.len() > 0
            invariant
                0 <= done <= all.len(),
                queue@ == all.skip(done),
                self@ == applied_all(before, all.take(done)),
                surface_kept(*old(self), *self),
            decreases queue@.len(),
        {
            if let Some(action) = queue.pop_front() {
                assert(action == all[done]);
                self.apply(action);
                proof {
                    assert(all.take(done + 1).drop_last() =~= all.take(done));
                    assert(queue@ =~= all.skip(done + 1));
                    done = done + 1;
                }
            }
        }
        assert(all.take(done) =~= all);
    }

    /// Take in an action that the parser has found.
    pub fn handle(&mut self, action: Action, now: u64)
        ensures
            final(self)@ == handled(old(self)@, action, now),
            surface_kept(*old(self), *final(self)),
    {
        let ghost before = self@;
        match action {
            Action::BeginSync => {
                self.sync_state.begin(now);
                assert(self@ =~= handled(before, action, now));
            },
            Action::EndSync => {
                let actions = self.sync_state.end(now);
                assert(self@ =~= (CoreModel { sync: sync_idle(now), ..before }));
                self.apply_all(actions);
            },
            other => {
                if self.sync_state.is_active() {
                    match self.sync_state.push(other, now) {
                        Ok(()) => {
                            assert(self@ =~= handled(before, action, now));
                        },
                        Err(action) => {
                            assert(self@ =~= before);
                            self.apply(action);
                        },
                    }
                } else {
                    self.apply(other);
                }
            },
        }
    }

    /// Take in a batch of actions that the parser has found. The result stands
    /// for the moments that the clock told, one for each action.
    fn handle_all<C: Fn() -> u64>(&mut self, actions: Vec<Action>, clock: &C) -> (times: Ghost<
        Seq<u64>,
    >)
        requires
            call_requires(*clock, ()),
        ensures
            times@.len() == actions@.len(),
            all_told(moments_of(*clock), times@),
            final(self)@ == handled_all(old(self)@, actions@, times@),
            surface_kept(*old(self), *final(self)),
    {
        let ghost all = actions@;
        let ghost before = self@;
        let mut queue: VecDeque<Action> = VecDeque::new();
        to_queue(actions, &mut queue);
        let ghost mut times: Seq<u64> = Seq::empty();
        assert(all.take(0) =~= Seq::empty());
        assert(queue@ =~= all.skip(0));
        while queue.len() > 0
            invariant
                call_requires(*clock, ()),
                times.len() <= all.len(),
                queue@ == all.skip(times.len() as int),
                all_told(moments_of(*clock), times),
                self@ == handled_all(before, all.take(times.len() as int), times),
                surface_kept(*old(self), *self),
            decreases queue@.len(),
        {
            if let Some(action) = queue.pop_front() {
                let now: u64 = clock();
                let ghost done = times.len() as int;
                assert(action == all[done]);
                self.handle(action, now);
                proof {
                    let less = times;
                    times = less.push(now);
                    lemma_same_times(before, all.take(done), less, times);
                    assert(all.take(done + 1).drop_last() =~= all.take(done));
                    assert(queue@ =~= all.skip(done + 1));
                }
            }
        }
        assert(all.take(times.len() as int) =~= all);
        Ghost(times)
    }

    /// Give up on an update that has taken too long; whether there was one. The
    /// second result stands for the moments in which that was looked at and
    /// done.
    fn flush_sync_timeout<C: Fn() -> u64>(&mut self, clock: &C) -> (r: (bool, Ghost<(u64, u64)>))
        requires
            call_requires(*clock, ()),
        ensures
            call_ensures(*clock, (), r.1@.0),
            call_ensures(*clock, (), r.1@.1),
            r.0 == sync_overdue(old(self)@, r.1@.0),
            final(self)@ == sync_flushed(old(self)@, r.1@.0, r.1@.1),
            surface_kept(*old(self), *final(self)),
    {
        let ghost before = self@;
        let now: u64 = clock();
        if self.sync_state.is_active() && self.sync_state.is_expired(now) {
            let then: u64 = clock();
            let actions = self.sync_state.cancel(then);
            assert(self@ =~= (CoreModel { sync: sync_idle(then), ..before }));
            self.apply_all(actions);
            return (true, Ghost((now, then)));
        }
        (false, Ghost((now, now)))
    }
}

/// Only the moments of the actions themselves count.
proof fn lemma_same_times(core: CoreModel, actions: Seq<Action>, a: Seq<u64>, b: Seq<u64>)
    requires
        actions.len() <= a.len(),
        a.is_prefix_of(b) || b.is_prefix_of(a),
        actions.len() <= b.len(),
    ensures
        handled_all(core, actions, a) == handled_all(core, actions, b),
    decreases actions.len(),
{
    if actions.len() > 0 {
        lemma_same_times(core, actions.drop_last(), a, b);
        let i = actions.len() - 1;
        if a.is_prefix_of(b) {
            assert(a[i] == b.subrange(0, a.len() as int)[i]);
        } else {
            assert(b[i] == a.subrange(0, b.len() as int)[i]);
        }
    }
}

fn to_queue(actions: Vec<Action>, queue: &mut VecDeque<Action>)
    requires
        old(queue)@.len() == 0,
    ensures
        final(queue)@ == actions@,
{
    let ghost all = actions@;
    let mut actions = actions;
    while actions.len() > 0
        invariant
            actions@.len() <= all.len(),
            actions@ == all.take(actions@.len() as int),
            queue@ == all.skip(actions@.len() as int),
        decreases actions@.len(),
    {
        if let Some(action) = actions.pop() {
            queue.push_front(action);
            assert(queue@ =~= all.skip(actions@.len() as int));
        }
    }
    assert(queue@ =~= all);
}

/// How an engine is set up.
#[derive(Debug, Clone, Copy)]
pub struct TerminalOptions {
    pub platform: Platform,
    pub read_buffer_capacity: usize,
    pub channel_config: ChannelConfig,
}

impl Default for TerminalOptions {
    fn default() -> (r: Self)
        ensures
            r.platform == Platform::Unix,
            r.read_buffer_capacity == DEFAULT_READ_BUFFER_CAPACITY,
            r.channel_config == (ChannelConfig { event_capacity: None, request_capacity: None }),
    {
        TerminalOptions {
            platform: Platform::Unix,
            read_buffer_capacity: DEFAULT_READ_BUFFER_CAPACITY,
            channel_config: ChannelConfig::default(),
        }
    }
}

/// Connects a session with the escape parser and the surface.
pub struct TerminalEngine<P, E, S> {
    pub session: P,
    platform: Platform,
    parser: E,
    core: EngineCore<S>,
    size: TerminalSize,
    read_buffer: Vec<u8>,
    exit_status: Option<ExitStatus>,
    event_tx: Sender<TerminalEvent>,
    request_rx: RequestSource,
    pending_requests: VecDeque<TerminalRequest>,
}

impl<P: Session, E: EscapeParser, S: Surface> View for TerminalEngine<P, E, S> {
    type V = EngineModel;

    closed spec fn view(&self) -> EngineModel {
        EngineModel {
            platform: self.platform,
            core: self.core@,
            size: self.size,
            exit_status: self.exit_status,
            requests: self.pending_requests@,
            calls: self.session.calls(),
            parsed: self.parser.consumed(),
            batches: self.parser.batches(),
            picture: self.core.surface.picture(),
            tries: event_tries(&self.event_tx),
            answers: self.request_rx.answers(),
            room: self.read_buffer@.len(),
            request_capacity: self.request_rx.limit(),
            event_capacity: event_limit(&self.event_tx),
            request_channel: self.request_rx.channel(),
            event_channel: event_channel_of(&self.event_tx),
        }
    }
}

/// How reading from the session came to an end.
#[derive(Debug)]
pub enum ReadEnd {
    /// There is nothing to read for now.
    Drained,
    /// The session is closed.
    Closed,
}

/// What a read means for the engine.
pub enum ReadStep {
    /// That many bytes have come.
    Chunk(usize),
    /// Try again.
    Again,
    /// Stop reading.
    Stop(ReadEnd),
    /// Give up.
    Fail(SessionError),
}

fn is_session_closed_error(platform: Platform, error: &IoError) -> (r: bool)
    ensures
        r == is_closed_error(platform, *error),
{
    if error.kind == IoErrorKind::UnexpectedEof {
        return true;
    }
    match (platform, error.raw_os_error) {
        (Platform::Unix, Some(code)) => code == EIO_RAW,
        _ => false,
    }
}

/// What a read means for the engine.
pub fn read_step(platform: Platform, outcome: Result<usize, SessionError>) -> (step: ReadStep)
    ensures
        step == step_of(platform, outcome),
{
    match outcome {
        Ok(n) => if n == 0 {
            ReadStep::Stop(ReadEnd::Drained)
        } else {
            ReadStep::Chunk(n)
        },
        Err(SessionError::IO(err)) => {
            if err.kind == IoErrorKind::Interrupted {
                return ReadStep::Again;
            }
            if err.kind == IoErrorKind::WouldBlock {
                return ReadStep::Stop(ReadEnd::Drained);
            }
            if is_session_closed_error(platform, &err) {
                return ReadStep::Stop(ReadEnd::Closed);
            }
            ReadStep::Fail(SessionError::IO(err))
        },
        Err(error) => ReadStep::Fail(error),
    }
}

/// The error of the engine for a value that could not be sent to a listener.
pub fn event_send_error(error: ChannelSendError) -> (r: Error)
    ensures
        r == send_failure(error),
{
    match error {
        ChannelSendError::Full => Error::EventChannelFull,
        ChannelSendError::Disconnected => Error::EventChannelClosed,
    }
}

/// The bytes of a queue, in order.
fn queue_to_vec(queue: &VecDeque<u8>) -> (bytes: Vec<u8>)
    ensures
        bytes@ == queue@,
{
    let mut bytes: Vec<u8> = Vec::new();
    let mut i: usize = 0;
    while i < queue.len()
        invariant
            i <= queue@.len(),
            bytes@ == queue@.take(i as int),
        decreases queue@.len() - i,
    {
        bytes.push(queue[i]);
        i += 1;
        assert(bytes@ =~= queue@.take(i as int));
    }
    assert(bytes@ =~= queue@);
    bytes
}

/// Take the first bytes out of a queue.
fn drop_front(queue: &mut VecDeque<u8>, count: usize)
    requires
        count <= old(queue)@.len(),
    ensures
        final(queue)@ == old(queue)@.skip(count as int),
{
    let mut i: usize = 0;
    assert(queue@ =~= old(queue)@.skip(0));
    while i < count
        invariant
            i <= count <= old(queue)@.len(),
            queue@ == old(queue)@.skip(i as int),
        decreases count - i,
    {
        queue.pop_front();
        i += 1;
        assert(queue@ =~= old(queue)@.skip(i as int));
    }
}

impl<P: Session, E: EscapeParser, S: Surface> TerminalEngine<P, E, S> {
    /// Set up an engine, with the handle whose requests come to it and the
    /// events that it sends.
    pub fn new(session: P, parser: E, surface: S, options: TerminalOptions, now: u64) -> (r: (
        TerminalEngine<P, E, S>,
        TerminalHandle,
        TerminalEvents,
    ))
        ensures
            r.0@ == (EngineModel {
                platform: options.platform,
                core: CoreModel {
                    asked: surface.asked(),
                    events: Seq::empty(),
                    pending: Seq::empty(),
                    sync: sync_idle(now),
                },
                size: TerminalSize::spec_default(),
                exit_status: None,
                requests: Seq::empty(),
                calls: session.calls(),
                parsed: parser.consumed(),
                batches: parser.batches(),
                picture: surface.picture(),
                tries: Seq::empty(),
                answers: Seq::empty(),
                room: if options.read_buffer_capacity > DEFAULT_READ_BUFFER_CAPACITY {
                    options.read_buffer_capacity as nat
                } else {
                    DEFAULT_READ_BUFFER_CAPACITY as nat
                },
                request_capacity: limit_for(options.channel_config.request_capacity),
                event_capacity: limit_for(options.channel_config.event_capacity),
                request_channel: r.1.channel(),
                event_channel: r.2.channel(),
            }),
            r.1.limit() == limit_for(options.channel_config.request_capacity),
            r.1.tries().len() == 0,
            r.2.limit() == limit_for(options.channel_config.event_capacity),
            r.2.answers().len() == 0,
    {
        let (event_tx, events) = event_channel(options.channel_config.event_capacity);
        let (handle, request_rx) = request_channel(options.channel_config.request_capacity);
        let capacity: usize = if options.read_buffer_capacity > DEFAULT_READ_BUFFER_CAPACITY {
            options.read_buffer_capacity
        } else {
            DEFAULT_READ_BUFFER_CAPACITY
        };
        assert(event_tries(&event_tx) =~= Seq::empty());
        assert(request_rx.answers() =~= Seq::empty());
        let engine = TerminalEngine {
            session,
            platform: options.platform,
            parser,
            core: EngineCore {
                surface,
                events: VecDeque::new(),
                pending_input: VecDeque::new(),
                sync_state: SyncState::new(now),
            },
            size: TerminalSize::default(),
            read_buffer: vec![0u8; capacity],
            exit_status: None,
            event_tx,
            request_rx,
            pending_requests: VecDeque::new(),
        };
        (engine, handle, events)
    }

    /// Queue a request.
    pub fn queue_request(&mut self, request: TerminalRequest) -> (r: Result<(), Error>)
        ensures
            r is Ok,
            final(self)@ == (EngineModel {
                requests: old(self)@.requests.push(request),
                ..old(self)@
            }),
    {
        self.pending_requests.push_back(request);
        Ok(())
    }

    /// Whether bytes wait for the session, or a request to write some.
    pub fn has_pending_output(&self) -> (r: bool)
        ensures
            r == (self@.core.pending.len() > 0 || exists|i: int|
                0 <= i < self@.requests.len() && (#[trigger] self@.requests[i]) is WriteBytes),
    {
        if self.core.pending_input.len() > 0 {
            return true;
        }
        let mut i: usize = 0;
        while i < self.pending_requests.len()
            invariant
                i <= self.pending_requests@.len(),
                self@.core.pending.len() == 0,
                forall|j: int| 0 <= j < i ==> !((#[trigger] self.pending_requests@[j]) is WriteBytes),
            decreases self.pending_requests@.len() - i,
        {
            if let TerminalRequest::WriteBytes(_) = &self.pending_requests[i] {
                assert(self@.requests[i as int] is WriteBytes);
                return true;
            }
            i += 1;
        }
        false
    }

    /// The bytes that wait for the session.
    pub fn pending_input(&self) -> (bytes: &VecDeque<u8>)
        ensures
            bytes@ == self@.core.pending,
    {
        &self.core.pending_input
    }

    /// The size of the terminal.
    pub fn size(&self) -> (size: TerminalSize)
        ensures
            size == self@.size,
    {
        self.size
    }

    /// When the next maintenance tick is due.
    pub fn next_deadline(&self) -> (deadline: Option<u64>)
        ensures
            deadline == self@.core.sync.deadline,
    {
        self.core.sync_state.deadline()
    }

    /// Write bytes to the session; how many it has taken over.
    fn write(&mut self, bytes: &Vec<u8>) -> (r: Result<usize, Error>)
        ensures
            final(self)@ == (EngineModel {
                calls: old(self)@.calls + fresh_calls(old(self)@, final(self)@),
                ..old(self)@
            }),
            final(self).core == old(self).core,
            final(self).read_buffer == old(self).read_buffer,
            write_tries(bytes@, fresh_calls(old(self)@, final(self)@)),
            !tries_on(bytes@, fresh_calls(old(self)@, final(self)@)),
            accepted_in(fresh_calls(old(self)@, final(self)@)).len() <= bytes@.len(),
            match write_failure(fresh_calls(old(self)@, final(self)@)) {
                Some(error) => r == Err::<usize, _>(Error::Session(error)),
                None => r matches Ok(n) && n == accepted_in(
                    fresh_calls(old(self)@, final(self)@),
                ).len(),
            },
    {
        let ghost before = self@;
        let ghost mut tries: Seq<SessionCall> = Seq::empty();
        let mut written: usize = 0;
        let total: usize = bytes.len();
        proof {
            assert(before.calls + tries =~= before.calls);
        }
        while written < total
            invariant
                total == bytes@.len(),
                written <= total,
                before == old(self)@,
                self@ == (EngineModel { calls: before.calls + tries, ..before }),
                self.core == old(self).core,
                self.read_buffer == old(self).read_buffer,
                write_tries(bytes@, tries),
                tries.len() > 0 ==> went_on(tries.last()),
                accepted_in(tries).len() == written,
            decreases total - written, self.session.patience(),
        {
            let rest = slice_subrange(bytes.as_slice(), written, total);
            let ghost less = tries;
            let outcome = self.session.write(rest);
            proof {
                let call = SessionCall::Write { input: rest@, taken: outcome };
                tries = less.push(call);
                assert(rest@ =~= bytes@.skip(written as int));
                assert(tries.drop_last() =~= less);
                assert(before.calls + tries =~= (before.calls + less).push(call));
                assert(self@ =~= (EngineModel { calls: before.calls + tries, ..before }));
                assert(self@.calls.skip(before.calls.len() as int) =~= tries);
                assert(write_tries(bytes@, tries));
            }
            match outcome {
                Ok(count) => {
                    if count == 0 {
                        return Ok(written);
                    }
                    written += count;
                },
                Err(SessionError::IO(err)) => {
                    if err.kind == IoErrorKind::Interrupted {
                        continue;
                    }
                    if err.kind == IoErrorKind::WouldBlock {
                        return Ok(written);
                    }
                    return Err(Error::Session(SessionError::IO(err)));
                },
                Err(error) => {
                    return Err(Error::Session(error));
                },
            }
        }
        assert(self@.calls.skip(before.calls.len() as int) =~= tries);
        Ok(written)
    }

    /// Hand the bytes that wait to the session, as far as it takes them. What
    /// it does not take goes on waiting.
    fn flush_pending_input(&mut self) -> (r: Result<(), Error>)
        ensures
            flushed(old(self)@, final(self)@, r),
    {
        if self.core.pending_input.len() == 0 {
            proof {
                let tries = fresh_calls(self@, self@);
                assert(tries =~= Seq::empty());
                assert(self@.calls + tries =~= self@.calls);
                assert(self@.core.pending.skip(0) =~= self@.core.pending);
                assert(flushed(self@, self@, Ok(())));
            }
            return Ok(());
        }
        let chunk = queue_to_vec(&self.core.pending_input);
        match self.write(&chunk) {
            Ok(written) => {
                let ghost wrote = self@;
                drop_front(&mut self.core.pending_input, written);
                proof {
                    let tries = fresh_calls(old(self)@, self@);
                    assert(tries == fresh_calls(old(self)@, wrote));
                    assert(self@ =~= (EngineModel {
                        core: CoreModel {
                            pending: old(self)@.core.pending.skip(accepted_in(tries).len() as int),
                            ..old(self)@.core
                        },
                        calls: old(self)@.calls + tries,
                        ..old(self)@
                    }));
                }
                Ok(())
            },
            Err(error) => Err(error),
        }
    }

    /// Tell the listeners what the surface shows.
    fn emit_frame(&mut self)
        ensures
            frame_shown(old(self)@, final(self)@),
    {
        let frame = self.core.surface.snapshot_owned();
        self.core.surface.reset_damage();
        self.core.events.push_back(TerminalEvent::Frame { frame });
        assert(self@ =~= (EngineModel {
            core: CoreModel {
                asked: old(self)@.core.asked.push(SurfaceCall::ResetDamage),
                events: old(self)@.core.events.push(self@.core.events.last()),
                ..old(self)@.core
            },
            ..old(self)@
        }));
    }

    /// Take note of an answer of the session on its child.
    fn note_exit(&mut self, answer: Result<Option<ExitStatus>, SessionError>) -> (r: Result<
        Option<ExitStatus>,
        Error,
    >)
        ensures
            final(self)@ == exit_noted(old(self)@, answer),
            r == exit_report(answer),
    {
        match answer {
            Ok(Some(status)) => {
                self.exit_status = Some(status);
                self.core.events.push_back(TerminalEvent::ChildExit { status });
                assert(self@ =~= exit_noted(old(self)@, answer));
                Ok(Some(status))
            },
            Ok(None) => Ok(None),
            Err(SessionError::IO(err)) => {
                if err.kind == IoErrorKind::WouldBlock || err.kind == IoErrorKind::Interrupted {
                    return Ok(None);
                }
                Err(Error::Session(SessionError::IO(err)))
            },
            Err(error) => Err(Error::Session(error)),
        }
    }

    fn capture_exit(&mut self) -> (r: Result<Option<ExitStatus>, Error>)
        ensures
            exit_asked(old(self)@, final(self)@, r),
    {
        let answer = self.session.try_get_child_exit_status();
        let ghost call = SessionCall::CheckExit { status: answer };
        let ghost asked = self@;
        assert(asked =~= with_session_call(old(self)@, call));
        let r = self.note_exit(answer);
        assert(self@.calls == asked.calls);
        assert(self@.calls.last() == call);
        r
    }

    /// Ask the session whether its child has exited, and take note of it.
    pub fn check_child_exit(&mut self) -> (r: Result<Option<ExitStatus>, Error>)
        ensures
            exit_asked(old(self)@, final(self)@, r),
    {
        self.capture_exit()
    }

    /// Take note of the end of the session.
    fn note_close(&mut self, outcome: Result<i32, SessionError>)
        ensures
            final(self)@ == close_noted(old(self)@, outcome),
    {
        if let Ok(code) = outcome {
            let status = ExitStatus { raw: code };
            self.core.events.push_back(TerminalEvent::ChildExit { status });
            self.exit_status = Some(status);
            assert(self@ =~= close_noted(old(self)@, outcome));
        }
    }

    fn resize(&mut self, size: TerminalSize) -> (r: Result<(), Error>)
        ensures
            request_step(old(self)@, final(self)@, TerminalRequest::Resize(size), r),
    {
        let request = PtySize {
            rows: size.rows,
            cols: size.cols,
            cell_width: size.cell_width,
            cell_height: size.cell_height,
        };
        assert(request == pty_size(size));
        let outcome = self.session.resize(request);
        let ghost call = SessionCall::Resize { size: request, agreed: outcome };
        let ghost called = self@;
        assert(called =~= with_session_call(old(self)@, call));
        match outcome {
            Ok(()) => {},
            Err(error) => {
                assert(self@.calls.last() == call);
                return Err(Error::Session(error));
            },
        }
        self.core.surface.resize(size);
        self.size = size;
        assert(self@ =~= surface_called(
            EngineModel { size, ..called },
            SurfaceCall::Resize(size),
            self@.picture,
        ));
        self.emit_frame();
        assert(self@.calls.last() == call);
        Ok(())
    }

    /// Carry out a request.
    pub fn process_request(&mut self, request: TerminalRequest) -> (r: Result<(), Error>)
        ensures
            request_step(old(self)@, final(self)@, request, r),
    {
        let ghost before = self@;
        match request {
            TerminalRequest::WriteBytes(bytes) => {
                append_bytes(&mut self.core.pending_input, &bytes);
                assert(self@ =~= (EngineModel {
                    core: CoreModel { pending: before.core.pending + bytes@, ..before.core },
                    ..before
                }));
                self.flush_pending_input()
            },
            TerminalRequest::Resize(size) => self.resize(size),
            TerminalRequest::ScrollDisplay(direction) => {
                self.core.surface.scroll_display(direction);
                assert(self@ =~= surface_called(
                    before,
                    SurfaceCall::ScrollDisplay(direction),
                    self@.picture,
                ));
                self.emit_frame();
                Ok(())
            },
            TerminalRequest::StartSelection { ty, point, direction } => {
                self.core.surface.start_selection(ty, point, direction);
                assert(self@ =~= surface_called(
                    before,
                    SurfaceCall::StartSelection(ty, point, direction),
                    self@.picture,
                ));
                self.emit_frame();
                Ok(())
            },
            TerminalRequest::UpdateSelection { point, direction } => {
                self.core.surface.update_selection(point, direction);
                assert(self@ =~= surface_called(
                    before,
                    SurfaceCall::UpdateSelection(point, direction),
                    self@.picture,
                ));
                self.emit_frame();
                Ok(())
            },
            TerminalRequest::Shutdown => {
                let outcome = self.session.close();
                let ghost call = SessionCall::Close { code: outcome };
                assert(self@ =~= with_session_call(before, call));
                self.note_close(outcome);
                assert(self@.calls.last() == call);
                Ok(())
            },
        }
    }

    /// Take in the requests that wait in the channel.
    fn receive_requests(&mut self)
        ensures
            requests_taken(old(self)@, final(self)@),
    {
        let ghost before = self@;
        let ghost mut fresh: Seq<Result<TerminalRequest, ChannelTryRecvError>> = Seq::empty();
        let mut left: u64 = MAX_RECEIVED;
        assert(before.requests + handed_out(fresh) =~= before.requests);
        assert(before.answers + fresh =~= before.answers);
        while left > 0
            invariant_except_break
                forall|i: int| 0 <= i < fresh.len() ==> (#[trigger] fresh[i]) is Ok,
            invariant
                before == old(self)@,
                fresh.len() + left == MAX_RECEIVED,
                self@ == (EngineModel {
                    requests: before.requests + handed_out(fresh),
                    answers: before.answers + fresh,
                    ..before
                }),
            ensures
                drained(fresh),
            decreases left,
        {
            let answer = self.request_rx.try_recv();
            let ghost less = fresh;
            proof {
                fresh = less.push(answer);
                assert(fresh.drop_last() =~= less);
                assert((before.answers + less).push(answer) =~= before.answers + fresh);
            }
            left -= 1;
            match answer {
                Ok(request) => {
                    self.pending_requests.push_back(request);
                    assert((before.requests + handed_out(less)).push(request) =~= before.requests
                        + handed_out(fresh));
                },
                Err(_) => {
                    break;
                },
            }
        }
        assert(self@.answers.skip(before.answers.len() as int) =~= fresh);
    }

    /// Carry out the requests that wait, until one fails. Those after it go on
    /// waiting.
    fn run_requests(&mut self) -> (r: Result<(), Error>)
        ensures
            requests_run(old(self)@, final(self)@, r),
    {
        while self.pending_requests.len() > 0
            invariant
                forall|after: EngineModel, r: Result<(), Error>| #[trigger]
                    requests_run(self@, after, r) ==> requests_run(old(self)@, after, r),
            decreases self@.requests.len(),
        {
            let ghost before = self@;
            let request = match self.pending_requests.pop_front() {
                Some(request) => request,
                None => return Ok(()),
            };
            assert(self@ =~= popped(before));
            assert(request == before.requests[0]);
            let q = self.process_request(request);
            assert(request_step(popped(before), self@, before.requests[0], q));
            proof {
                lemma_step_keeps_requests(popped(before), self@, request, q);
            }
            match q {
                Ok(()) => {
                    assert forall|after: EngineModel, r: Result<(), Error>| #[trigger]
                        requests_run(self@, after, r) implies requests_run(
                        old(self)@,
                        after,
                        r,
                    ) by {
                        assert(requests_run(before, after, r));
                    }
                },
                Err(error) => {
                    assert(requests_run(before, self@, Err(error)));
                    return Err(error);
                },
            }
        }
        assert(requests_run(self@, self@, Ok(())));
        Ok(())
    }

    /// Take in the requests that wait in the channel and carry them out after
    /// those that waited already.
    pub fn process_pending_requests(&mut self) -> (r: Result<(), Error>)
        ensures
            pending_run(old(self)@, final(self)@, r),
    {
        self.receive_requests();
        self.run_requests()
    }

    /// Hand the events that wait to the listeners. An event that they do not
    /// take is lost, and those after it go on waiting.
    fn flush_event_queue(&mut self) -> (r: Result<(), Error>)
        ensures
            told(old(self)@, final(self)@, r),
    {
        let ghost before = self@;
        let ghost all = self@.core.events;
        let ghost mut fresh: Seq<(TerminalEvent, Result<(), ChannelSendError>)> = Seq::empty();
        assert(all.skip(0) =~= all);
        assert(before.tries + fresh =~= before.tries);
        while self.core.events.len() > 0
            invariant
                before == old(self)@,
                all == before.core.events,
                fresh.len() <= all.len(),
                forall|i: int| 0 <= i < fresh.len() ==> (#[trigger] fresh[i]).0 == all[i],
                forall|i: int| 0 <= i < fresh.len() ==> (#[trigger] fresh[i]).1 is Ok,
                self@ == (EngineModel {
                    core: CoreModel { events: all.skip(fresh.len() as int), ..before.core },
                    tries: before.tries + fresh,
                    ..before
                }),
            decreases self@.core.events.len(),
        {
            let event = match self.core.events.pop_front() {
                Some(event) => event,
                None => return Ok(()),
            };
            let ghost less = fresh;
            assert(event == all[less.len() as int]);
            let answer = try_send_event(&mut self.event_tx, event);
            proof {
                fresh = less.push((event, answer));
                assert(self@.core.events =~= all.skip(fresh.len() as int));
                assert((before.tries + less).push((event, answer)) =~= before.tries + fresh);
                assert(self@.tries.skip(before.tries.len() as int) =~= fresh);
            }
            match answer {
                Ok(()) => {},
                Err(error) => {
                    return Err(event_send_error(error));
                },
            }
        }
        assert(self@.tries.skip(before.tries.len() as int) =~= fresh);
        Ok(())
    }

    /// The session can take bytes: carry out requests, hand over what waits and
    /// tell the listeners. Whether bytes still wait.
    pub fn on_writable(&mut self) -> (r: Result<bool, Error>)
        ensures
            writable_run(old(self)@, final(self)@, r),
    {
        match self.process_pending_requests() {
            Ok(()) => {},
            Err(error) => return Err(error),
        }
        let ghost ready = self@;
        match self.flush_pending_input() {
            Ok(()) => {},
            Err(error) => return Err(error),
        }
        let ghost written = self@;
        assert(flushed(ready, written, Ok(())));
        match self.flush_event_queue() {
            Ok(()) => {},
            Err(error) => return Err(error),
        }
        Ok(self.core.pending_input.len() > 0)
    }

    /// Take in a chunk of the output of the session.
    fn ingest<C: Fn() -> u64>(&mut self, count: usize, clock: &C)
        requires
            call_requires(*clock, ()),
            count <= old(self).read_buffer@.len(),
        ensures
            chunk_taken_in(
                old(self)@,
                final(self)@,
                old(self).read_buffer@.take(count as int),
                moments_of(*clock),
            ),
            final(self).session == old(self).session,
    {
        let chunk = slice_subrange(self.read_buffer.as_slice(), 0, count);
        assert(chunk@ =~= self.read_buffer@.take(count as int));
        let actions = self.parser.advance(chunk);
        let ghost batch = actions@;
        let ghost core = self.core@;
        let Ghost(first) = self.core.handle_all(actions, clock);
        let (_, Ghost(last)) = self.core.flush_sync_timeout(clock);
        proof {
            let times = first.push(last.0).push(last.1);
            assert(first =~= times.subrange(0, first.len() as int));
            lemma_same_times(core, batch, first, times);
            assert(all_told(moments_of(*clock), times));
            assert(self@.batches.last() == batch);
            assert(self@ =~= batch_taken_in(
                old(self)@,
                old(self).read_buffer@.take(count as int),
                batch,
                self@.picture,
                times,
            ));
        }
    }

    /// Read from the session until it has no more, and take in what comes.
    fn read_all<C: Fn() -> u64>(&mut self, clock: &C) -> (r: Result<(bool, ReadEnd), Error>)
        requires
            call_requires(*clock, ()),
        ensures
            match r {
                Ok((updated, end)) => read_run(old(self)@, final(self)@, moments_of(*clock), Ok(end)) && updated
                    == (final(self)@.batches.len() > old(self)@.batches.len()),
                Err(error) => read_run(old(self)@, final(self)@, moments_of(*clock), Err(error)),
            },
    {
        let mut updated = false;
        loop
            invariant
                call_requires(*clock, ()),
                forall|after: EngineModel, r: Result<ReadEnd, Error>| #[trigger]
                    read_run(self@, after, moments_of(*clock), r) ==> read_run(old(self)@, after, moments_of(*clock), r),
                updated == (self@.batches.len() > old(self)@.batches.len()),
                self@.batches.len() >= old(self)@.batches.len(),
            decreases self.session.patience(),
        {
            let ghost before = self@;
            let ghost room = self.read_buffer@.len();
            let outcome = self.session.read(self.read_buffer.as_mut_slice());
            let ghost bytes = read_bytes(self.read_buffer@, outcome);
            let ghost call = SessionCall::Read { room, bytes, got: outcome };
            let ghost called = self@;
            assert(called =~= with_session_call(before, call));
            let step = read_step(self.platform, outcome);
            assert(step == last_step(called));
            match step {
                ReadStep::Chunk(count) => {
                    self.ingest(count, clock);
                    updated = true;
                    assert(self@.calls.last() == call);
                    assert(one_read(before, self@, moments_of(*clock)));
                    assert(forall|after: EngineModel, r: Result<ReadEnd, Error>| #[trigger]
                        read_run(self@, after, moments_of(*clock), r) ==> read_run(before, after, moments_of(*clock), r));
                },
                ReadStep::Again => {
                    assert(one_read(before, self@, moments_of(*clock)));
                    assert(forall|after: EngineModel, r: Result<ReadEnd, Error>| #[trigger]
                        read_run(self@, after, moments_of(*clock), r) ==> read_run(before, after, moments_of(*clock), r));
                },
                ReadStep::Stop(end) => {
                    assert(bytes =~= Seq::empty());
                    assert(one_read(before, self@, moments_of(*clock)));
                    assert(read_run(before, self@, moments_of(*clock), Ok(end)));
                    return Ok((updated, end));
                },
                ReadStep::Fail(error) => {
                    assert(one_read(before, self@, moments_of(*clock)));
                    assert(read_run(before, self@, moments_of(*clock), Err(Error::Session(error))));
                    return Err(Error::Session(error));
                },
            }
        }
    }

    /// Tell the listeners of a new frame, if there is one, and of an exit of
    /// the child after it. A closed session is asked for the exit before.
    fn announce(&mut self, updated: bool, closed: bool) -> (r: Result<(), Error>)
        ensures
            announced_and_told(old(self)@, final(self)@, updated, closed, r),
    {
        let ghost before = self@;
        if closed {
            match self.capture_exit() {
                Ok(status) => {
                    assert(closed_asked(closed, before, self@, Ok(status)));
                },
                Err(error) => {
                    assert(closed_asked(closed, before, self@, Err(error)));
                    assert(announced(before, self@, updated, closed, Err(error)));
                    return Err(error);
                },
            }
        } else {
            assert(closed_asked(closed, before, self@, Ok(None)));
        }
        let ghost asked = self@;
        if updated {
            self.emit_frame();
        }
        let ghost shown = self@;
        assert(update_shown(updated, asked, shown));
        match self.capture_exit() {
            Ok(status) => {
                assert(exit_asked(shown, self@, Ok(status)));
                assert(shown_and_asked(asked, self@, updated, Ok(())));
                assert(announced(before, self@, updated, closed, Ok(())));
            },
            Err(error) => {
                assert(exit_asked(shown, self@, Err(error)));
                assert(shown_and_asked(asked, self@, updated, Err(error)));
                assert(announced(before, self@, updated, closed, Err(error)));
                return Err(error);
            },
        }
        self.flush_event_queue()
    }

    /// The session has output: carry out requests, take in the output, and
    /// tell the listeners of a new frame and of an exit. Whether there was
    /// output. The clock tells nanoseconds since a fixed start.
    pub fn on_readable<C: Fn() -> u64>(&mut self, clock: &C) -> (r: Result<bool, Error>)
        requires
            call_requires(*clock, ()),
        ensures
            readable_run(old(self)@, final(self)@, moments_of(*clock), r),
    {
        match self.process_pending_requests() {
            Ok(()) => {},
            Err(error) => return Err(error),
        }
        let ghost ready = self@;
        let (updated, end) = match self.read_all(clock) {
            Ok(result) => result,
            Err(error) => return Err(error),
        };
        let ghost read = self@;
        assert(read_run(ready, read, moments_of(*clock), Ok(end)));
        let closed = match end {
            ReadEnd::Closed => true,
            ReadEnd::Drained => false,
        };
        match self.announce(updated, closed) {
            Ok(()) => Ok(updated),
            Err(error) => Err(error),
        }
    }

    /// Regular maintenance: carry out requests, give up on an update that has
    /// taken too long, and tell the listeners. The clock tells nanoseconds since
    /// a fixed start.
    pub fn tick<C: Fn() -> u64>(&mut self, clock: &C) -> (r: Result<(), Error>)
        requires
            call_requires(*clock, ()),
        ensures
            tick_run(old(self)@, final(self)@, moments_of(*clock), r),
    {
        match self.process_pending_requests() {
            Ok(()) => {},
            Err(error) => return Err(error),
        }
        let ghost ready = self@;
        let (flushed, Ghost(times)) = self.core.flush_sync_timeout(clock);
        assert(self@ =~= update_given_up(ready, self@.picture, times.0, times.1));
        self.announce(flushed, false)
    }
}

/// Carrying out a request leaves those that wait alone.
proof fn lemma_step_keeps_requests(
    before: EngineModel,
    after: EngineModel,
    request: TerminalRequest,
    r: Result<(), Error>,
)
    requires
        request_step(before, after, request, r),
    ensures
        after.requests == before.requests,
{
}

} // verus!
