//! What comes of the output of a session, and of the requests of listeners.

use vstd::prelude::*;

use crate::pty::session::{
    accepted_in, given_by, ExitStatus, IoErrorKind, SessionCall, SessionError,
};
use crate::term::channel::ChannelSendError;
use crate::term::engine::{
    applied_all, handled, handled_all, ingested, sync_overdue, CoreModel, ReadEnd, TerminalEvent,
    TerminalRequest,
};
use crate::term::error::Error;
use crate::term::escape::Action;
use crate::term::laws::{
    flushing_keeps_the_stream, no_sync_marks, requests_are_written_in_order,
};
use crate::term::steps::{
    all_told, announced, announced_and_told, batch_taken_in, bytes_of_all, chunk_taken_in,
    closed_asked, exit_asked, flushed, frame_shown, given_up_and_told, handed_out, last_step,
    one_read, outgoing, pending_run, popped, read_and_told, read_ends, read_result, read_run,
    readable_run, request_step, requests_run, requests_taken, sent_in, shown_and_asked, tick_run,
    told, update_given_up, update_shown, with_session_call, write_failure, EngineModel,
};
use crate::term::surface::{GridPoint, Scroll, SelectionType, Side, SurfaceCall, TerminalSize};
use crate::term::sync::{sync_idle, MAX_SYNC_ACTIONS};

verus! {

/// What the screen has to be asked for, of the actions that a parser found: all
/// but titles, bells, icons of the pointing device, answers and the marks of an
/// update.
pub open spec fn screen_part(actions: Seq<Action>) -> Seq<Action>
    decreases actions.len(),
{
    if actions.len() == 0 {
        Seq::empty()
    } else {
        let rest = screen_part(actions.drop_last());
        match actions.last() {
            Action::SetWindowTitle(_)
            | Action::ResetWindowTitle
            | Action::Bell
            | Action::SetCursorIcon(_)
            | Action::Report(_)
            | Action::BeginSync
            | Action::EndSync => rest,
            _ => rest.push(actions.last()),
        }
    }
}

/// What the listeners have to be told, of the actions that a parser found.
pub open spec fn told_part(actions: Seq<Action>) -> Seq<TerminalEvent>
    decreases actions.len(),
{
    if actions.len() == 0 {
        Seq::empty()
    } else {
        let rest = told_part(actions.drop_last());
        match actions.last() {
            Action::SetWindowTitle(title) => rest.push(TerminalEvent::TitleChanged { title }),
            Action::ResetWindowTitle => rest.push(TerminalEvent::ResetTitle),
            Action::Bell => rest.push(TerminalEvent::Bell),
            Action::SetCursorShape(shape) => rest.push(TerminalEvent::CursorShapeChanged { shape }),
            Action::SetCursorStyle(style) => rest.push(TerminalEvent::CursorStyleChanged { style }),
            Action::SetCursorIcon(icon) => rest.push(TerminalEvent::CursorIconChanged { icon }),
            Action::SetHyperlink(link) => rest.push(TerminalEvent::Hyperlink { link }),
            _ => rest,
        }
    }
}

/// The bytes with which the session has to be answered, of the actions that a
/// parser found.
pub open spec fn answered_part(actions: Seq<Action>) -> Seq<u8>
    decreases actions.len(),
{
    if actions.len() == 0 {
        Seq::empty()
    } else {
        let rest = answered_part(actions.drop_last());
        match actions.last() {
            Action::Report(bytes) => rest + bytes@,
            _ => rest,
        }
    }
}

/// The actions that the screen was asked for, in order.
pub open spec fn on_the_screen(asked: Seq<SurfaceCall>) -> Seq<Action>
    decreases asked.len(),
{
    if asked.len() == 0 {
        Seq::empty()
    } else {
        let rest = on_the_screen(asked.drop_last());
        match asked.last() {
            SurfaceCall::Apply(action) => rest.push(action),
            _ => rest,
        }
    }
}

/// Events without frames and exits: those that actions give rise to.
pub open spec fn news_in(events: Seq<TerminalEvent>) -> Seq<TerminalEvent>
    decreases events.len(),
{
    if events.len() == 0 {
        Seq::empty()
    } else {
        let rest = news_in(events.drop_last());
        match events.last() {
            TerminalEvent::Frame { .. } | TerminalEvent::ChildExit { .. } => rest,
            _ => rest.push(events.last()),
        }
    }
}

/// Batches of actions one after the other.
pub open spec fn all_of(batches: Seq<Seq<Action>>) -> Seq<Action>
    decreases batches.len(),
{
    if batches.len() == 0 {
        Seq::empty()
    } else {
        all_of(batches.drop_last()) + batches.last()
    }
}

proof fn lemma_parts_concat(a: Seq<Action>, b: Seq<Action>)
    ensures
        screen_part(a + b) == screen_part(a) + screen_part(b),
        told_part(a + b) == told_part(a) + told_part(b),
        answered_part(a + b) == answered_part(a) + answered_part(b),
    decreases b.len(),
{
    if b.len() == 0 {
        assert(a + b =~= a);
        assert(screen_part(a) + screen_part(b) =~= screen_part(a));
        assert(told_part(a) + told_part(b) =~= told_part(a));
        assert(answered_part(a) + answered_part(b) =~= answered_part(a));
    } else {
        lemma_parts_concat(a, b.drop_last());
        assert((a + b).drop_last() =~= a + b.drop_last());
        assert(screen_part(a + b) =~= screen_part(a) + screen_part(b));
        assert(told_part(a + b) =~= told_part(a) + told_part(b));
        assert(answered_part(a + b) =~= answered_part(a) + answered_part(b));
    }
}

proof fn lemma_on_the_screen_concat(a: Seq<SurfaceCall>, b: Seq<SurfaceCall>)
    ensures
        on_the_screen(a + b) == on_the_screen(a) + on_the_screen(b),
    decreases b.len(),
{
    if b.len() == 0 {
        assert(a + b =~= a);
        assert(on_the_screen(a) + on_the_screen(b) =~= on_the_screen(a));
    } else {
        lemma_on_the_screen_concat(a, b.drop_last());
        assert((a + b).drop_last() =~= a + b.drop_last());
        assert(on_the_screen(a + b) =~= on_the_screen(a) + on_the_screen(b));
    }
}

proof fn lemma_news_concat(a: Seq<TerminalEvent>, b: Seq<TerminalEvent>)
    ensures
        news_in(a + b) == news_in(a) + news_in(b),
    decreases b.len(),
{
    if b.len() == 0 {
        assert(a + b =~= a);
        assert(news_in(a) + news_in(b) =~= news_in(a));
    } else {
        lemma_news_concat(a, b.drop_last());
        assert((a + b).drop_last() =~= a + b.drop_last());
        assert(news_in(a + b) =~= news_in(a) + news_in(b));
    }
}

proof fn lemma_told_is_news(actions: Seq<Action>)
    ensures
        news_in(told_part(actions)) == told_part(actions),
    decreases actions.len(),
{
    if actions.len() > 0 {
        lemma_told_is_news(actions.drop_last());
        let rest = told_part(actions.drop_last());
        let all = told_part(actions);
        if all.len() > rest.len() {
            assert(all.drop_last() =~= rest);
        }
    }
}

proof fn lemma_all_of_concat(a: Seq<Seq<Action>>, b: Seq<Seq<Action>>)
    ensures
        all_of(a + b) == all_of(a) + all_of(b),
    decreases b.len(),
{
    if b.len() == 0 {
        assert(a + b =~= a);
        assert(all_of(a) + all_of(b) =~= all_of(a));
    } else {
        lemma_all_of_concat(a, b.drop_last());
        assert((a + b).drop_last() =~= a + b.drop_last());
        assert(all_of(a + b) =~= all_of(a) + all_of(b));
    }
}

/// Actions that are not held back go where they belong: to the screen, to the
/// listeners and to the session, each in their order and once, and nowhere else.
pub proof fn actions_go_where_they_belong(core: CoreModel, actions: Seq<Action>)
    ensures
        ({
            let after = applied_all(core, actions);
            &&& after.asked.len() == core.asked.len() + screen_part(actions).len()
            &&& core.asked.is_prefix_of(after.asked)
            &&& on_the_screen(after.asked) == on_the_screen(core.asked) + screen_part(actions)
            &&& after.events == core.events + told_part(actions)
            &&& after.pending == core.pending + answered_part(actions)
            &&& after.sync == core.sync
        }),
    decreases actions.len(),
{
    let after = applied_all(core, actions);
    if actions.len() == 0 {
        assert(on_the_screen(core.asked) + screen_part(actions) =~= on_the_screen(core.asked));
        assert(core.events + told_part(actions) =~= core.events);
        assert(core.pending + answered_part(actions) =~= core.pending);
    } else {
        let less = applied_all(core, actions.drop_last());
        actions_go_where_they_belong(core, actions.drop_last());
        assert(after.asked.len() > less.asked.len() ==> after.asked.drop_last() =~= less.asked);
        assert(on_the_screen(after.asked) =~= on_the_screen(core.asked) + screen_part(actions));
        assert(after.events =~= core.events + told_part(actions));
        assert(after.pending =~= core.pending + answered_part(actions));
    }
}

/// One action outside an update: what the program prints and every control code
/// goes to the screen as it is, and nothing else happens; a title, a bell or an
/// icon is told and does not reach the screen; a shape, a style or a link does
/// both; an answer only waits for the session.
pub proof fn action_outside_an_update(core: CoreModel, action: Action, now: u64)
    requires
        !core.sync.active,
        !(action is BeginSync) && !(action is EndSync),
    ensures
        ({
            let after = handled(core, action, now);
            let to_screen = core.asked.push(SurfaceCall::Apply(action));
            &&& (action is Print || action is Control) ==> after == (CoreModel {
                asked: to_screen,
                ..core
            })
            &&& (action is SetCursorShape || action is SetCursorStyle || action is SetHyperlink)
                ==> after.asked == to_screen && after.events.len() == core.events.len() + 1
            &&& (action is SetWindowTitle || action is ResetWindowTitle || action is Bell
                || action is SetCursorIcon) ==> after.asked == core.asked && after.events.len()
                == core.events.len() + 1
            &&& action matches Action::Report(bytes) ==> after == (CoreModel {
                pending: core.pending + bytes@,
                ..core
            })
            &&& !(action is Report) ==> after.pending == core.pending
            &&& after.sync == core.sync
        }),
{
}

proof fn lemma_handled_plainly(core: CoreModel, actions: Seq<Action>, times: Seq<u64>)
    requires
        !core.sync.active,
        no_sync_marks(actions),
    ensures
        handled_all(core, actions, times) == applied_all(core, actions),
        applied_all(core, actions).sync == core.sync,
    decreases actions.len(),
{
    if actions.len() > 0 {
        let less = actions.drop_last();
        assert forall|i: int| 0 <= i < less.len() implies !crate::term::laws::is_sync_mark(
            #[trigger] less[i],
        ) by {
            assert(!crate::term::laws::is_sync_mark(actions[i]));
        }
        lemma_handled_plainly(core, less, times);
        assert(!crate::term::laws::is_sync_mark(actions[actions.len() - 1]));
    }
}

/// A batch of actions outside an update is shown, told and answered at once,
/// whatever the clock says.
pub proof fn batch_goes_where_it_belongs(core: CoreModel, batch: Seq<Action>, times: Seq<u64>)
    requires
        !core.sync.active,
        no_sync_marks(batch),
    ensures
        ({
            let after = ingested(core, batch, times);
            &&& after.asked.len() == core.asked.len() + screen_part(batch).len()
            &&& core.asked.is_prefix_of(after.asked)
            &&& on_the_screen(after.asked) == on_the_screen(core.asked) + screen_part(batch)
            &&& after.events == core.events + told_part(batch)
            &&& after.pending == core.pending + answered_part(batch)
            &&& after.sync == core.sync
        }),
{
    lemma_handled_plainly(core, batch, times);
    actions_go_where_they_belong(core, batch);
}

/// What is held back during an update is held back in its order; when the update
/// ends, it goes where it belongs, and nothing is held back any more.
pub proof fn update_goes_where_it_belongs(core: CoreModel, now: u64)
    ensures
        ({
            let after = handled(core, Action::EndSync, now);
            let held = core.sync.buffer;
            &&& on_the_screen(after.asked) == on_the_screen(core.asked) + screen_part(held)
            &&& after.events == core.events + told_part(held)
            &&& after.pending == core.pending + answered_part(held)
            &&& !after.sync.active
            &&& after.sync.buffer.len() == 0
        }),
{
    actions_go_where_they_belong(
        CoreModel { sync: sync_idle(now), ..core },
        core.sync.buffer,
    );
}

/// During an update an action only joins those that are held back, as long as
/// there is room; one for which there is none is carried out at once.
pub proof fn action_during_an_update(core: CoreModel, action: Action, now: u64)
    requires
        core.sync.active,
        !(action is BeginSync) && !(action is EndSync),
    ensures
        ({
            let after = handled(core, action, now);
            if core.sync.buffer.len() < MAX_SYNC_ACTIONS {
                &&& after.asked == core.asked && after.events == core.events && after.pending
                    == core.pending
                &&& after.sync.active && after.sync.buffer == core.sync.buffer.push(action)
                &&& after.sync.deadline matches Some(deadline) && deadline >= now && (now
                    + 10_000_000 <= u64::MAX ==> deadline == now + 10_000_000)
            } else {
                after.sync == core.sync && after == applied_all(core, seq![action])
            }
        }),
{
    assert(seq![action].drop_last() =~= Seq::empty());
    assert(seq![action].last() == action);
    assert(applied_all(core, Seq::<Action>::empty()) == core);
    reveal_with_fuel(applied_all, 2);
}

/// An update begins with nothing held back, and is given a hundredth of a
/// second.
pub proof fn update_begins_empty(core: CoreModel, now: u64)
    requires
        now + 10_000_000 <= u64::MAX,
    ensures
        ({
            let after = handled(core, Action::BeginSync, now);
            &&& after.asked == core.asked && after.events == core.events && after.pending
                == core.pending
            &&& after.sync.active && after.sync.buffer.len() == 0
            &&& after.sync.deadline == Some((now + 10_000_000) as u64)
            &&& !sync_overdue(after, (now + 10_000_000) as u64)
            &&& forall|later: u64| later > now + 10_000_000 ==> sync_overdue(after, later)
        }),
{
}

/// Whether no batch that the parser has found meanwhile begins or ends an
/// update.
pub open spec fn no_update_meanwhile(before: EngineModel, after: EngineModel) -> bool {
    forall|i: int|
        before.batches.len() <= i < after.batches.len() ==> no_sync_marks(
            #[trigger] after.batches[i],
        )
}

/// The actions that the parser has found meanwhile.
pub open spec fn found_meanwhile(before: EngineModel, after: EngineModel) -> Seq<Action> {
    all_of(after.batches.skip(before.batches.len() as int))
}

proof fn lemma_reading_goes_where_it_belongs(
    before: EngineModel,
    after: EngineModel,
    clock: spec_fn(u64) -> bool,
    r: Result<ReadEnd, Error>,
)
    requires
        read_run(before, after, clock, r),
        !before.core.sync.active,
        no_update_meanwhile(before, after),
    ensures
        before.batches.is_prefix_of(after.batches),
        on_the_screen(after.core.asked) == on_the_screen(before.core.asked) + screen_part(
            found_meanwhile(before, after),
        ),
        after.core.events == before.core.events + told_part(found_meanwhile(before, after)),
        after.core.pending == before.core.pending + answered_part(found_meanwhile(before, after)),
        after.tries == before.tries,
        after.answers == before.answers,
        after.requests == before.requests,
        accepted_in(after.calls) == accepted_in(before.calls),
    decreases after.calls.len() - before.calls.len(),
{
    lemma_batches_grow(before, after, clock, r);
    let next = choose|next: EngineModel|
        {
            &&& #[trigger] one_read(before, next, clock)
            &&& next.calls.len() == before.calls.len() + 1
            &&& if read_ends(next) {
                after == next && r == read_result(next)
            } else {
                read_run(next, after, clock, r)
            }
        };
    let called = with_session_call(before, next.calls.last());
    assert(next.calls.drop_last() =~= before.calls);
    assert(accepted_in(next.calls) =~= accepted_in(before.calls));
    if !read_ends(next) {
        lemma_batches_grow(next, after, clock, r);
    }
    if last_step(next) is Chunk {
        let bytes = given_by(next.calls.last());
        assert(chunk_taken_in(called, next, bytes, clock));
        let times = choose|times: Seq<u64>|
            times.len() == next.batches.last().len() + 2 && #[trigger] all_told(clock, times)
                && next == batch_taken_in(
                called,
                bytes,
                next.batches.last(),
                next.picture,
                times,
            );
        let batch = next.batches.last();
        let n = before.batches.len() as int;
        assert(after.batches[n] == next.batches[n]);
        assert(next.batches[n] == batch);
        assert(no_sync_marks(after.batches[n]));
        batch_goes_where_it_belongs(before.core, batch, times);
        assert forall|i: int| next.batches.len() <= i < after.batches.len() implies no_sync_marks(
            #[trigger] after.batches[i],
        ) by {}
        lemma_reading_goes_where_it_belongs(next, after, clock, r);
        let rest = found_meanwhile(next, after);
        assert(after.batches.skip(n) =~= seq![batch] + after.batches.skip(n + 1));
        lemma_all_of_concat(seq![batch], after.batches.skip(n + 1));
        assert(seq![batch].drop_last() =~= Seq::empty());
        assert(all_of(seq![batch]) =~= batch) by {
            assert(all_of(Seq::<Seq<Action>>::empty()) =~= Seq::empty());
        }
        assert(found_meanwhile(before, after) == batch + rest);
        lemma_parts_concat(batch, rest);
        assert(on_the_screen(after.core.asked) =~= on_the_screen(before.core.asked) + screen_part(
            batch + rest,
        ));
        assert(after.core.events =~= before.core.events + told_part(batch + rest));
        assert(after.core.pending =~= before.core.pending + answered_part(batch + rest));
    } else {
        assert(next == called);
        if !read_ends(next) {
            assert forall|i: int| next.batches.len() <= i < after.batches.len() implies
                no_sync_marks(#[trigger] after.batches[i]) by {}
            lemma_reading_goes_where_it_belongs(next, after, clock, r);
        } else {
            let none = found_meanwhile(before, after);
            assert(after.batches.skip(before.batches.len() as int) =~= Seq::empty());
            assert(on_the_screen(after.core.asked) =~= on_the_screen(before.core.asked)
                + screen_part(none));
            assert(after.core.events =~= before.core.events + told_part(none));
            assert(after.core.pending =~= before.core.pending + answered_part(none));
        }
    }
}

proof fn lemma_batches_grow(
    before: EngineModel,
    after: EngineModel,
    clock: spec_fn(u64) -> bool,
    r: Result<ReadEnd, Error>,
)
    requires
        read_run(before, after, clock, r),
    ensures
        before.batches.is_prefix_of(after.batches),
    decreases after.calls.len() - before.calls.len(),
{
    let next = choose|next: EngineModel|
        {
            &&& #[trigger] one_read(before, next, clock)
            &&& next.calls.len() == before.calls.len() + 1
            &&& if read_ends(next) {
                after == next && r == read_result(next)
            } else {
                read_run(next, after, clock, r)
            }
        };
    if !read_ends(next) {
        lemma_batches_grow(next, after, clock, r);
    }
}

proof fn lemma_request_shows_nothing_new(
    before: EngineModel,
    after: EngineModel,
    request: TerminalRequest,
    r: Result<(), Error>,
)
    requires
        request_step(before, after, request, r),
    ensures
        on_the_screen(after.core.asked) == on_the_screen(before.core.asked),
        news_in(after.core.events) == news_in(before.core.events),
        after.tries == before.tries,
        after.batches == before.batches,
        after.core.sync == before.core.sync,
{
    let asked = before.core.asked;
    let events = before.core.events;
    match request {
        TerminalRequest::WriteBytes(_) => {},
        TerminalRequest::Shutdown => {
            assert(after.core.events.len() > events.len() ==> after.core.events.drop_last()
                =~= events);
        },
        _ => {
            if after.core.asked.len() > asked.len() {
                assert(after.core.asked.drop_last().drop_last() =~= asked);
                assert(after.core.events.drop_last() =~= events);
                reveal_with_fuel(on_the_screen, 3);
            }
        },
    }
}

proof fn lemma_requests_show_nothing_new(
    before: EngineModel,
    after: EngineModel,
    r: Result<(), Error>,
)
    requires
        requests_run(before, after, r),
    ensures
        on_the_screen(after.core.asked) == on_the_screen(before.core.asked),
        news_in(after.core.events) == news_in(before.core.events),
        after.tries == before.tries,
        after.batches == before.batches,
        after.answers == before.answers,
        after.core.sync == before.core.sync,
    decreases before.requests.len(),
{
    if before.requests.len() > 0 {
        let (next, q) = choose|next: EngineModel, q: Result<(), Error>|
            {
                &&& #[trigger] request_step(popped(before), next, before.requests[0], q)
                &&& next.requests == before.requests.skip(1)
                &&& q is Ok ==> requests_run(next, after, r)
                &&& q is Err ==> after == next && r == q
            };
        lemma_request_shows_nothing_new(popped(before), next, before.requests[0], q);
        if q is Ok {
            lemma_requests_show_nothing_new(next, after, r);
        }
    }
}

proof fn lemma_all_told(before: EngineModel, after: EngineModel)
    requires
        told(before, after, Ok(())),
    ensures
        sent_in(after.tries) == sent_in(before.tries) + before.core.events,
        after.core.events.len() == 0,
        after.core.asked == before.core.asked,
        after.core.pending == before.core.pending,
        after.core.sync == before.core.sync,
        after.calls == before.calls,
        after.batches == before.batches,
        after.answers == before.answers,
{
    crate::term::laws::events_are_told_in_order(before, after, Ok(()));
}

proof fn lemma_announcing_adds_no_news(
    before: EngineModel,
    after: EngineModel,
    updated: bool,
    closed: bool,
)
    requires
        announced_and_told(before, after, updated, closed, Ok(())),
    ensures
        on_the_screen(after.core.asked) == on_the_screen(before.core.asked),
        news_in(sent_in(after.tries)) == news_in(sent_in(before.tries)) + news_in(
            before.core.events,
        ),
        after.core.events.len() == 0,
        after.core.pending == before.core.pending,
        after.core.sync == before.core.sync,
        after.batches == before.batches,
        after.answers == before.answers,
        accepted_in(after.calls) == accepted_in(before.calls),
{
    let (ready, q) = choose|ready: EngineModel, q: Result<(), Error>|
        #[trigger] announced(before, ready, updated, closed, q) && q is Ok && told(
            ready,
            after,
            Ok(()),
        );
    let (asked, p) = choose|asked: EngineModel, p: Result<Option<ExitStatus>, Error>|
        #[trigger] closed_asked(closed, before, asked, p) && p is Ok && shown_and_asked(
            asked,
            ready,
            updated,
            q,
        );
    let (shown, o) = choose|shown: EngineModel, o: Result<Option<ExitStatus>, Error>|
        #[trigger] exit_asked(shown, ready, o) && update_shown(updated, asked, shown);
    if closed {
        lemma_exit_adds_no_news(before, asked, p);
    }
    if updated {
        lemma_frame_adds_no_news(asked, shown);
    }
    lemma_exit_adds_no_news(shown, ready, o);
    lemma_all_told(ready, after);
    lemma_news_concat(sent_in(ready.tries), ready.core.events);
}

proof fn lemma_exit_adds_no_news(
    before: EngineModel,
    after: EngineModel,
    r: Result<Option<ExitStatus>, Error>,
)
    requires
        exit_asked(before, after, r),
    ensures
        after.core.asked == before.core.asked,
        news_in(after.core.events) == news_in(before.core.events),
        after.tries == before.tries,
        after.core.pending == before.core.pending,
        after.core.sync == before.core.sync,
        after.batches == before.batches,
        after.answers == before.answers,
        accepted_in(after.calls) == accepted_in(before.calls),
{
    assert(after.calls.drop_last() =~= before.calls);
    assert(accepted_in(after.calls) =~= accepted_in(before.calls));
    if after.core.events.len() > before.core.events.len() {
        assert(after.core.events.drop_last() =~= before.core.events);
    }
}

proof fn lemma_frame_adds_no_news(before: EngineModel, after: EngineModel)
    requires
        frame_shown(before, after),
    ensures
        on_the_screen(after.core.asked) == on_the_screen(before.core.asked),
        news_in(after.core.events) == news_in(before.core.events),
        after.tries == before.tries,
        after.core.pending == before.core.pending,
        after.core.sync == before.core.sync,
        after.batches == before.batches,
        after.answers == before.answers,
        after.calls == before.calls,
{
    assert(after.core.asked.drop_last() =~= before.core.asked);
    assert(after.core.events.drop_last() =~= before.core.events);
}

/// What a session puts out while no update is under way reaches everybody that
/// it is for: the screen was asked for what is printed and for every control
/// code, the listeners got the titles, bells and the like, and the bytes for the
/// session are those that waited, those of the requests and then the answers, all
/// in the order in which they were found.
pub proof fn output_goes_where_it_belongs(
    before: EngineModel,
    after: EngineModel,
    clock: spec_fn(u64) -> bool,
    updated: bool,
)
    requires
        readable_run(before, after, clock, Ok(updated)),
        !before.core.sync.active,
        no_update_meanwhile(before, after),
    ensures
        ({
            let found = found_meanwhile(before, after);
            &&& on_the_screen(after.core.asked) == on_the_screen(before.core.asked) + screen_part(
                found,
            )
            &&& news_in(sent_in(after.tries)) == news_in(
                sent_in(before.tries) + before.core.events,
            ) + told_part(found)
            &&& after.core.events.len() == 0
            &&& outgoing(after) == outgoing(before) + bytes_of_all(
                before.requests + handed_out(after.answers.skip(before.answers.len() as int)),
            ) + answered_part(found)
            &&& updated == (after.batches.len() > before.batches.len())
        }),
{
    let (ready, q) = choose|ready: EngineModel, q: Result<(), Error>|
        #[trigger] pending_run(before, ready, q) && q is Ok && read_and_told(
            ready,
            after,
            clock,
            Ok(updated),
        );
    let taken = choose|taken: EngineModel| #[trigger]
        requests_taken(before, taken) && requests_run(taken, ready, q);
    requests_are_written_in_order(taken, ready, q);
    lemma_requests_show_nothing_new(taken, ready, q);
    let (read, p) = choose|read: EngineModel, p: Result<ReadEnd, Error>|
        #[trigger] read_run(ready, read, clock, p) && p is Ok && (updated == (read.batches.len()
            > ready.batches.len())) && announced_and_told(
            read,
            after,
            updated,
            p->Ok_0 is Closed,
            Ok(()),
        );
    lemma_announcing_adds_no_news(read, after, updated, p->Ok_0 is Closed);
    lemma_batches_grow(ready, read, clock, p);
    assert forall|i: int| ready.batches.len() <= i < read.batches.len() implies no_sync_marks(
        #[trigger] read.batches[i],
    ) by {
        assert(after.batches[i] == read.batches[i]);
    }
    lemma_reading_goes_where_it_belongs(ready, read, clock, p);
    let found = found_meanwhile(before, after);
    assert(found == found_meanwhile(ready, read));
    lemma_news_concat(sent_in(before.tries), before.core.events);
    lemma_news_concat(ready.core.events, told_part(found));
    lemma_told_is_news(found);
    assert(news_in(sent_in(after.tries)) =~= news_in(sent_in(before.tries) + before.core.events)
        + told_part(found));
    assert(outgoing(taken) == outgoing(before));
    assert(outgoing(after) =~= outgoing(ready) + answered_part(found));
}

/// Regular maintenance of an update that has taken too long, whatever the clock
/// says, shows, tells and answers what was held back, and ends the update.
pub proof fn maintenance_ends_an_overdue_update(
    before: EngineModel,
    after: EngineModel,
    clock: spec_fn(u64) -> bool,
)
    requires
        tick_run(before, after, clock, Ok(())),
        before.core.sync.active,
        forall|moment: u64| #[trigger] clock(moment) ==> sync_overdue(before.core, moment),
    ensures
        ({
            let held = before.core.sync.buffer;
            &&& !after.core.sync.active
            &&& after.core.sync.buffer.len() == 0
            &&& on_the_screen(after.core.asked) == on_the_screen(before.core.asked) + screen_part(
                held,
            )
            &&& news_in(sent_in(after.tries)) == news_in(
                sent_in(before.tries) + before.core.events,
            ) + told_part(held)
            &&& outgoing(after) == outgoing(before) + bytes_of_all(
                before.requests + handed_out(after.answers.skip(before.answers.len() as int)),
            ) + answered_part(held)
        }),
{
    let (ready, q) = choose|ready: EngineModel, q: Result<(), Error>|
        #[trigger] pending_run(before, ready, q) && q is Ok && given_up_and_told(
            ready,
            after,
            clock,
            Ok(()),
        );
    let taken = choose|taken: EngineModel| #[trigger]
        requests_taken(before, taken) && requests_run(taken, ready, q);
    requests_are_written_in_order(taken, ready, q);
    lemma_requests_show_nothing_new(taken, ready, q);
    let (picture, now, then) = choose|
        picture: crate::term::surface::PictureModel,
        now: u64,
        then: u64,
    |
        clock(now) && clock(then) && announced_and_told(
            #[trigger] update_given_up(ready, picture, now, then),
            after,
            sync_overdue(ready.core, now),
            false,
            Ok(()),
        );
    let given_up = update_given_up(ready, picture, now, then);
    let held = before.core.sync.buffer;
    assert(sync_overdue(before.core, now));
    actions_go_where_they_belong(
        CoreModel { sync: sync_idle(then), ..ready.core },
        held,
    );
    lemma_announcing_adds_no_news(given_up, after, true, false);
    lemma_news_concat(sent_in(before.tries), before.core.events);
    lemma_news_concat(ready.core.events, told_part(held));
    lemma_told_is_news(held);
    assert(news_in(sent_in(after.tries)) =~= news_in(sent_in(before.tries) + before.core.events)
        + told_part(held));
    assert(outgoing(taken) == outgoing(before));
    assert(outgoing(after) =~= outgoing(ready) + answered_part(held));
}

/// Regular maintenance leaves an update alone that still has time, and what was
/// held back waits on.
pub proof fn maintenance_waits_for_an_update(
    before: EngineModel,
    after: EngineModel,
    clock: spec_fn(u64) -> bool,
)
    requires
        tick_run(before, after, clock, Ok(())),
        forall|moment: u64| #[trigger] clock(moment) ==> !sync_overdue(before.core, moment),
    ensures
        after.core.sync == before.core.sync,
        on_the_screen(after.core.asked) == on_the_screen(before.core.asked),
        news_in(sent_in(after.tries)) == news_in(sent_in(before.tries) + before.core.events),
        outgoing(after) == outgoing(before) + bytes_of_all(
            before.requests + handed_out(after.answers.skip(before.answers.len() as int)),
        ),
{
    let (ready, q) = choose|ready: EngineModel, q: Result<(), Error>|
        #[trigger] pending_run(before, ready, q) && q is Ok && given_up_and_told(
            ready,
            after,
            clock,
            Ok(()),
        );
    let taken = choose|taken: EngineModel| #[trigger]
        requests_taken(before, taken) && requests_run(taken, ready, q);
    requests_are_written_in_order(taken, ready, q);
    lemma_requests_show_nothing_new(taken, ready, q);
    let (picture, now, then) = choose|
        picture: crate::term::surface::PictureModel,
        now: u64,
        then: u64,
    |
        clock(now) && clock(then) && announced_and_told(
            #[trigger] update_given_up(ready, picture, now, then),
            after,
            sync_overdue(ready.core, now),
            false,
            Ok(()),
        );
    let given_up = update_given_up(ready, picture, now, then);
    assert(!sync_overdue(before.core, now));
    lemma_announcing_adds_no_news(given_up, after, false, false);
    lemma_news_concat(sent_in(before.tries), before.core.events);
    assert(outgoing(taken) == outgoing(before));
}

/// A resize asks the session for the rows, columns and cells that were asked
/// for. Where the session agrees, the screen gets the same size and is shown;
/// where it does not, the size stays and the error is reported.
pub proof fn resize_reaches_session_and_screen(
    before: EngineModel,
    after: EngineModel,
    size: TerminalSize,
    r: Result<(), Error>,
)
    requires
        request_step(before, after, TerminalRequest::Resize(size), r),
    ensures
        after.calls.len() == before.calls.len() + 1,
        before.calls.is_prefix_of(after.calls),
        after.calls.last() matches SessionCall::Resize { size: wanted, agreed } && {
            &&& wanted.rows == size.rows
            &&& wanted.cols == size.cols
            &&& wanted.cell_width == size.cell_width
            &&& wanted.cell_height == size.cell_height
            &&& match agreed {
                Ok(_) => {
                    &&& r is Ok
                    &&& after.size == size
                    &&& after.core.asked == before.core.asked.push(
                        SurfaceCall::Resize(size),
                    ).push(SurfaceCall::ResetDamage)
                    &&& after.core.events.len() == before.core.events.len() + 1
                    &&& before.core.events.is_prefix_of(after.core.events)
                    &&& after.core.events.last() matches TerminalEvent::Frame { frame } && frame@
                        == after.picture
                },
                Err(error) => {
                    &&& r == Err::<(), _>(Error::Session(error))
                    &&& after.size == before.size
                    &&& after.core == before.core
                },
            }
        },
        after.core.pending == before.core.pending,
        after.exit_status == before.exit_status,
{
}

/// Whether the screen was asked for one thing and then shown as it is after it,
/// and nothing else happened.
pub open spec fn asked_and_shown(
    before: EngineModel,
    after: EngineModel,
    call: SurfaceCall,
) -> bool {
    &&& after.core.asked == before.core.asked.push(call).push(SurfaceCall::ResetDamage)
    &&& after.core.events.len() == before.core.events.len() + 1
    &&& before.core.events.is_prefix_of(after.core.events)
    &&& after.core.events.last() matches TerminalEvent::Frame { frame } && frame@ == after.picture
    &&& after.calls == before.calls
    &&& after.size == before.size
    &&& after.core.pending == before.core.pending
    &&& after.core.sync == before.core.sync
}

/// Scrolling and selecting go to the screen as they were asked for, and never to
/// the session.
pub proof fn screen_requests_reach_the_screen(
    before: EngineModel,
    after: EngineModel,
    request: TerminalRequest,
    r: Result<(), Error>,
    scroll: Scroll,
    ty: SelectionType,
    point: GridPoint,
    direction: Side,
)
    requires
        request_step(before, after, request, r),
    ensures
        request == TerminalRequest::ScrollDisplay(scroll) ==> r is Ok && asked_and_shown(
            before,
            after,
            SurfaceCall::ScrollDisplay(scroll),
        ),
        request == (TerminalRequest::StartSelection { ty, point, direction }) ==> r is Ok
            && asked_and_shown(before, after, SurfaceCall::StartSelection(ty, point, direction)),
        request == (TerminalRequest::UpdateSelection { point, direction }) ==> r is Ok
            && asked_and_shown(before, after, SurfaceCall::UpdateSelection(point, direction)),
{
}

/// A shutdown closes the session, once, and succeeds whatever comes of it. The
/// code that the session ended with is told as the exit and kept; nothing is
/// told where it has none.
pub proof fn shutdown_closes_the_session(
    before: EngineModel,
    after: EngineModel,
    r: Result<(), Error>,
)
    requires
        request_step(before, after, TerminalRequest::Shutdown, r),
    ensures
        r is Ok,
        after.calls.len() == before.calls.len() + 1,
        before.calls.is_prefix_of(after.calls),
        after.calls.last() matches SessionCall::Close { code } && match code {
            Ok(code) => after.exit_status == Some(ExitStatus { raw: code })
                && after.core.events == before.core.events.push(
                TerminalEvent::ChildExit { status: ExitStatus { raw: code } },
            ),
            Err(_) => after.exit_status == before.exit_status && after.core == before.core,
        },
        after.core.asked == before.core.asked,
        after.core.pending == before.core.pending,
{
}

/// Bytes to write join those that wait, at the end, and the session is offered
/// all of them at once: nothing else is asked of the session, and nothing of the
/// screen.
pub proof fn written_bytes_go_to_the_session(
    before: EngineModel,
    after: EngineModel,
    bytes: Vec<u8>,
    r: Result<(), Error>,
)
    requires
        request_step(before, after, TerminalRequest::WriteBytes(bytes), r),
    ensures
        r is Ok ==> outgoing(after) == outgoing(before) + bytes@,
        r is Err ==> after.core.pending == before.core.pending + bytes@,
        before.core.pending.len() + bytes@.len() > 0 ==> after.calls.len() > before.calls.len()
            && (after.calls[before.calls.len() as int] matches SessionCall::Write { input, .. }
            && input == before.core.pending + bytes@),
        after.core.asked == before.core.asked,
        after.core.events == before.core.events,
        after.size == before.size,
{
    let queued = EngineModel {
        core: CoreModel { pending: before.core.pending + bytes@, ..before.core },
        ..before
    };
    assert(flushed(queued, after, r));
    if r is Ok {
        flushing_keeps_the_stream(queued, after, r);
        assert(outgoing(queued) =~= outgoing(before) + bytes@);
    }
    let tries = crate::term::steps::fresh_calls(queued, after);
    if queued.core.pending.len() > 0 {
        if tries.len() == 0 {
            assert(crate::term::steps::tries_on(queued.core.pending, tries));
        }
        lemma_first_try(queued.core.pending, tries);
        assert(after.calls[before.calls.len() as int] == tries[0]);
    }
}

proof fn lemma_first_try(bytes: Seq<u8>, tries: Seq<SessionCall>)
    requires
        crate::term::steps::write_tries(bytes, tries),
        tries.len() > 0,
    ensures
        tries[0] matches SessionCall::Write { input, .. } && input == bytes,
    decreases tries.len(),
{
    if tries.len() == 1 {
        assert(tries.drop_last() =~= Seq::empty());
        assert(accepted_in(Seq::<SessionCall>::empty()).len() == 0);
        assert(bytes.skip(0) =~= bytes);
    } else {
        lemma_first_try(bytes, tries.drop_last());
        assert(tries.drop_last()[0] == tries[0]);
    }
}

/// Writing goes on as long as the session takes bytes or was interrupted. It
/// ends where all is written, where the session takes nothing or would block, or
/// with any other error, which is reported.
pub proof fn writing_ends_for_a_reason(before: EngineModel, after: EngineModel, r: Result<(), Error>)
    requires
        flushed(before, after, r),
        after.core.pending.len() > 0,
    ensures
        after.calls.len() > before.calls.len(),
        after.calls.last() matches SessionCall::Write { taken, .. } && match taken {
            Ok(n) => n == 0 && r is Ok,
            Err(SessionError::IO(error)) => if error.kind == IoErrorKind::WouldBlock {
                r is Ok
            } else {
                error.kind != IoErrorKind::Interrupted && r == Err::<(), _>(
                    Error::Session(SessionError::IO(error)),
                )
            },
            Err(error) => r == Err::<(), _>(Error::Session(error)),
        },
{
    let tries = crate::term::steps::fresh_calls(before, after);
    crate::term::laws::tries_hand_over_in_order(before.core.pending, tries);
    if tries.len() == 0 {
        assert(before.core.pending.skip(0) =~= before.core.pending);
        assert(accepted_in(tries).len() == 0);
        assert(crate::term::steps::tries_on(before.core.pending, tries));
    }
    assert(after.calls.last() == tries.last());
    if write_failure(tries) is None {
        assert(accepted_in(tries).len() < before.core.pending.len());
    } else {
        lemma_writes_only(before.core.pending, tries);
    }
}

proof fn lemma_writes_only(bytes: Seq<u8>, tries: Seq<SessionCall>)
    requires
        crate::term::steps::write_tries(bytes, tries),
        tries.len() > 0,
    ensures
        tries.last() is Write,
{
}

/// Reading goes on through data and interruptions. It ends drained where the
/// session has nothing or would block, closed where the session is at its end,
/// and with any other error, which is reported.
pub proof fn reading_ends_for_a_reason(
    before: EngineModel,
    after: EngineModel,
    clock: spec_fn(u64) -> bool,
    r: Result<ReadEnd, Error>,
)
    requires
        read_run(before, after, clock, r),
    ensures
        after.calls.len() > before.calls.len(),
        before.calls.is_prefix_of(after.calls),
        after.platform == before.platform,
        forall|i: int|
            before.calls.len() <= i < after.calls.len() - 1 ==> reads_on(
                #[trigger] after.calls[i],
            ),
        after.calls.last() matches SessionCall::Read { got, .. } && match got {
            Ok(n) => n == 0 && r == Ok::<_, Error>(ReadEnd::Drained),
            Err(SessionError::IO(error)) => {
                let at_end = error.kind == IoErrorKind::UnexpectedEof || (before.platform is Unix
                    && error.raw_os_error == Some(5i32));
                &&& error.kind != IoErrorKind::Interrupted
                &&& r == if error.kind == IoErrorKind::WouldBlock {
                    Ok(ReadEnd::Drained)
                } else if at_end {
                    Ok(ReadEnd::Closed)
                } else {
                    Err(Error::Session(SessionError::IO(error)))
                }
            },
            Err(error) => r == Err::<ReadEnd, _>(Error::Session(error)),
        },
    decreases after.calls.len() - before.calls.len(),
{
    let next = choose|next: EngineModel|
        {
            &&& #[trigger] one_read(before, next, clock)
            &&& next.calls.len() == before.calls.len() + 1
            &&& if read_ends(next) {
                after == next && r == read_result(next)
            } else {
                read_run(next, after, clock, r)
            }
        };
    assert(next.calls.drop_last() =~= before.calls);
    if !read_ends(next) {
        reading_ends_for_a_reason(next, after, clock, r);
        assert forall|i: int| before.calls.len() <= i < after.calls.len() - 1 implies reads_on(
            #[trigger] after.calls[i],
        ) by {
            if i == before.calls.len() {
                assert(after.calls[i] == next.calls[i]);
                assert(next.calls[i] == next.calls.last());
            }
        }
    }
}

/// Whether a call is a read after which another follows.
pub open spec fn reads_on(call: SessionCall) -> bool {
    call matches SessionCall::Read { got, .. } && match got {
        Ok(n) => n > 0,
        Err(SessionError::IO(error)) => error.kind == IoErrorKind::Interrupted,
        Err(_) => false,
    }
}

/// The exit of the child is told and kept as the session reports it; a session
/// that would block or was interrupted has nothing to report, and any other
/// error is passed on.
pub proof fn exit_is_told_as_reported(
    before: EngineModel,
    after: EngineModel,
    r: Result<Option<ExitStatus>, Error>,
)
    requires
        exit_asked(before, after, r),
    ensures
        after.calls.len() == before.calls.len() + 1,
        before.calls.is_prefix_of(after.calls),
        after.calls.last() matches SessionCall::CheckExit { status } && match status {
            Ok(Some(status)) => {
                &&& r == Ok::<_, Error>(Some(status))
                &&& after.exit_status == Some(status)
                &&& after.core.events == before.core.events.push(
                    TerminalEvent::ChildExit { status },
                )
            },
            Ok(None) => r == Ok::<Option<ExitStatus>, Error>(None) && after.core == before.core
                && after.exit_status == before.exit_status,
            Err(error) => {
                let passing = error matches SessionError::IO(err) && (err.kind
                    == IoErrorKind::WouldBlock || err.kind == IoErrorKind::Interrupted);
                &&& after.core == before.core && after.exit_status == before.exit_status
                &&& r == if passing {
                    Ok(None::<ExitStatus>)
                } else {
                    Err(Error::Session(error))
                }
            },
        },
        after.core.asked == before.core.asked,
        after.core.pending == before.core.pending,
{
}

/// An event that could not be told fails with the reason of the channel: it is
/// full, or nobody listens any more.
pub proof fn lost_event_says_why(before: EngineModel, after: EngineModel, error: Error)
    requires
        told(before, after, Err(error)),
    ensures
        after.tries.len() > before.tries.len(),
        after.tries.last().1 == Err::<(), _>(ChannelSendError::Full) ==> error is EventChannelFull,
        after.tries.last().1 == Err::<(), _>(ChannelSendError::Disconnected)
            ==> error is EventChannelClosed,
        after.tries.last().1 is Err,
        error is EventChannelFull || error is EventChannelClosed,
{
    let fresh = after.tries.skip(before.tries.len() as int);
    assert(after.tries.last() == fresh.last());
}

/// A frame shows the screen as it was when it was taken, and marks it as shown.
pub proof fn frame_shows_the_screen(before: EngineModel, after: EngineModel)
    requires
        frame_shown(before, after),
    ensures
        after.core.events.len() == before.core.events.len() + 1,
        before.core.events.is_prefix_of(after.core.events),
        after.core.events.last() matches TerminalEvent::Frame { frame } && frame@ == before.picture,
        after.core.asked == before.core.asked.push(SurfaceCall::ResetDamage),
        after.picture == before.picture,
{
}

/// The number that means a closed terminal counts on Unix only.
pub proof fn windows_has_no_closing_number(
    before: EngineModel,
    after: EngineModel,
    clock: spec_fn(u64) -> bool,
    r: Result<ReadEnd, Error>,
)
    requires
        read_run(before, after, clock, r),
        before.platform is Windows,
        r matches Ok(ReadEnd::Closed),
    ensures
        after.calls.last() matches SessionCall::Read { got: Err(SessionError::IO(error)), .. }
            && error.kind == IoErrorKind::UnexpectedEof,
{
    reading_ends_for_a_reason(before, after, clock, r);
}

} // verus!
