//! What holds of the terminal engine whatever the parser finds.

use vstd::prelude::*;

use crate::paths::Platform;
use crate::pty::session::{
    accepted_in, delivered_in, given_by, is_blocked, taken_by, ExitStatus, SessionCall,
};
use crate::term::channel::ChannelSendError;
use crate::term::engine::{
    answer_of, applied_all, handled, handled_all, ingested, sync_flushed, sync_overdue, CoreModel,
    ReadEnd, ReadStep, TerminalEvent, TerminalRequest,
};
use crate::term::error::Error;
use crate::term::escape::Action;
use crate::term::steps::{
    all_told, announced, announced_and_told, batch_taken_in, bytes_of, bytes_of_all,
    chunk_taken_in, closed_asked, drained, exit_asked, flushed, fresh_calls, given_up_and_told, handed_out,
    last_step, one_read, outgoing, pending_run, popped, read_and_told, read_ends, read_result,
    read_run, readable_run, request_step, requests_run, requests_taken, send_failure, sent_in,
    shown_and_asked, step_of, tick_run, told, update_shown, with_session_call, writable_run, write_tries,
    written_and_told, EngineModel,
};
use crate::term::sync::{sync_idle, SyncModel, MAX_SYNC_ACTIONS};

verus! {

/// Whether an action begins or ends an update.
pub open spec fn is_sync_mark(action: Action) -> bool {
    action is BeginSync || action is EndSync
}

/// Whether no action of a list begins or ends an update.
pub open spec fn no_sync_marks(actions: Seq<Action>) -> bool {
    forall|i: int| 0 <= i < actions.len() ==> !is_sync_mark(#[trigger] actions[i])
}

/// Applied actions leave the update that is held back alone.
pub proof fn applied_keeps_sync(core: CoreModel, actions: Seq<Action>)
    ensures
        applied_all(core, actions).sync == core.sync,
    decreases actions.len(),
{
    if actions.len() > 0 {
        applied_keeps_sync(core, actions.drop_last());
    }
}

proof fn lemma_applied_ignores_sync(core: CoreModel, actions: Seq<Action>, sync: SyncModel)
    ensures
        applied_all(CoreModel { sync, ..core }, actions) == (CoreModel {
            sync,
            ..applied_all(core, actions)
        }),
    decreases actions.len(),
{
    if actions.len() > 0 {
        lemma_applied_ignores_sync(core, actions.drop_last(), sync);
    }
}

/// During an update nothing is shown, told or answered: everything is held
/// back, as long as there is room, whatever time passes meanwhile.
pub proof fn update_holds_back(core: CoreModel, actions: Seq<Action>, begun: u64, times: Seq<u64>)
    requires
        no_sync_marks(actions),
        actions.len() <= MAX_SYNC_ACTIONS,
    ensures
        ({
            let held = handled_all(
                handled(core, Action::BeginSync, begun),
                actions,
                times,
            );
            &&& held.asked == core.asked
            &&& held.events == core.events
            &&& held.pending == core.pending
            &&& held.sync.active
            &&& held.sync.buffer == actions
        }),
    decreases actions.len(),
{
    if actions.len() == 0 {
        assert(actions =~= Seq::empty());
    } else {
        let less = actions.drop_last();
        assert forall|i: int| 0 <= i < less.len() implies !is_sync_mark(#[trigger] less[i]) by {
            assert(!is_sync_mark(actions[i]));
        }
        update_holds_back(core, less, begun, times);
        assert(!is_sync_mark(actions[actions.len() - 1]));
        assert(less.push(actions.last()) =~= actions);
    }
}

/// A complete update has the effect of its actions in their order, as if they
/// had not been held back.
pub proof fn update_is_transparent(
    core: CoreModel,
    actions: Seq<Action>,
    begun: u64,
    times: Seq<u64>,
    ended: u64,
)
    requires
        no_sync_marks(actions),
        actions.len() <= MAX_SYNC_ACTIONS,
    ensures
        handled(
            handled_all(handled(core, Action::BeginSync, begun), actions, times),
            Action::EndSync,
            ended,
        ) == (CoreModel { sync: sync_idle(ended), ..applied_all(core, actions) }),
{
    let held = handled_all(handled(core, Action::BeginSync, begun), actions, times);
    update_holds_back(core, actions, begun, times);
    lemma_applied_ignores_sync(core, actions, sync_idle(ended));
    assert(CoreModel { sync: sync_idle(ended), ..held } =~= (CoreModel {
        sync: sync_idle(ended),
        ..core
    }));
}

/// An update that takes too long is shown as if it had ended.
pub proof fn overdue_update_is_shown(core: CoreModel, now: u64, then: u64)
    requires
        sync_overdue(core, now),
    ensures
        sync_flushed(core, now, then) == handled(core, Action::EndSync, then),
{
}

proof fn lemma_applied_keeps_pending(core: CoreModel, actions: Seq<Action>)
    ensures
        core.pending.is_prefix_of(applied_all(core, actions).pending),
    decreases actions.len(),
{
    let p = core.pending;
    if actions.len() > 0 {
        let less = applied_all(core, actions.drop_last());
        lemma_applied_keeps_pending(core, actions.drop_last());
        lemma_prefix_push(p, less.pending, answer_of(actions.last()));
    } else {
        assert(p =~= p.subrange(0, p.len() as int));
    }
}

proof fn lemma_prefix_push(a: Seq<u8>, b: Seq<u8>, more: Seq<u8>)
    requires
        a.is_prefix_of(b),
    ensures
        a.is_prefix_of(b + more),
{
    assert(a =~= (b + more).subrange(0, a.len() as int)) by {
        assert forall|i: int| 0 <= i < a.len() implies a[i] == (b + more)[i] by {
            assert(a[i] == b.subrange(0, a.len() as int)[i]);
        }
    }
}

proof fn lemma_prefix_trans(a: Seq<u8>, b: Seq<u8>, c: Seq<u8>)
    requires
        a.is_prefix_of(b),
        b.is_prefix_of(c),
    ensures
        a.is_prefix_of(c),
{
    assert(a =~= c.subrange(0, a.len() as int)) by {
        assert forall|i: int| 0 <= i < a.len() implies a[i] == c[i] by {
            assert(a[i] == b.subrange(0, a.len() as int)[i]);
            assert(b[i] == c.subrange(0, b.len() as int)[i]);
        }
    }
}

proof fn lemma_handled_keeps_pending(core: CoreModel, actions: Seq<Action>, times: Seq<u64>)
    ensures
        core.pending.is_prefix_of(handled_all(core, actions, times).pending),
    decreases actions.len(),
{
    let p = core.pending;
    if actions.len() > 0 {
        let less = handled_all(core, actions.drop_last(), times);
        let now = times[actions.len() - 1];
        lemma_handled_keeps_pending(core, actions.drop_last(), times);
        let after = handled(less, actions.last(), now);
        assert(less.pending.is_prefix_of(after.pending)) by {
            assert(less.pending =~= less.pending.subrange(0, less.pending.len() as int));
            match actions.last() {
                Action::EndSync => {
                    lemma_applied_keeps_pending(
                        CoreModel { sync: sync_idle(now), ..less },
                        less.sync.buffer,
                    );
                },
                _ => {
                    lemma_prefix_push(
                        less.pending,
                        less.pending,
                        answer_of(actions.last()),
                    );
                },
            }
        }
        lemma_prefix_trans(p, less.pending, after.pending);
    } else {
        assert(p =~= p.subrange(0, p.len() as int));
    }
}

proof fn lemma_ingested_keeps_pending(core: CoreModel, batch: Seq<Action>, times: Seq<u64>)
    ensures
        core.pending.is_prefix_of(ingested(core, batch, times).pending),
{
    let handled_core = handled_all(core, batch, times);
    let flushed_core = ingested(core, batch, times);
    lemma_handled_keeps_pending(core, batch, times);
    lemma_applied_keeps_pending(
        CoreModel { sync: sync_idle(times[batch.len() as int + 1]), ..handled_core },
        handled_core.sync.buffer,
    );
    assert(handled_core.pending.is_prefix_of(flushed_core.pending)) by {
        assert(handled_core.pending =~= handled_core.pending.subrange(
            0,
            handled_core.pending.len() as int,
        ));
    }
    lemma_prefix_trans(core.pending, handled_core.pending, flushed_core.pending);
}

/// Whatever output comes, the bytes that wait for the session stay in front;
/// answers only come after them.
pub proof fn output_keeps_waiting_bytes(
    before: EngineModel,
    after: EngineModel,
    clock: spec_fn(u64) -> bool,
    r: Result<ReadEnd, Error>,
)
    requires
        read_run(before, after, clock, r),
    ensures
        before.core.pending.is_prefix_of(after.core.pending),
    decreases after.calls.len() - before.calls.len(),
{
    let next = choose|next: EngineModel|
        {
            &&& #[trigger] one_read(before, next, clock)
            &&& next.calls.len() == before.calls.len() + 1
            &&& if read_ends(next) {
                after == next && r == read_result(next)
            } else {
                read_run(next, after, clock, r)
            }
        };
    let p = before.core.pending;
    assert(p =~= p.subrange(0, p.len() as int));
    match last_step(next) {
        ReadStep::Chunk(_) => {
            let bytes = given_by(next.calls.last());
            let called = with_session_call(before, next.calls.last());
            assert(chunk_taken_in(called, next, bytes, clock));
            let times = choose|times: Seq<u64>|
                times.len() == next.batches.last().len() + 2 && #[trigger] all_told(clock, times)
                    && next == batch_taken_in(
                    called,
                    bytes,
                    next.batches.last(),
                    next.picture,
                    times,
                );
            lemma_ingested_keeps_pending(before.core, next.batches.last(), times);
            output_keeps_waiting_bytes(next, after, clock, r);
            lemma_prefix_trans(p, next.core.pending, after.core.pending);
        },
        ReadStep::Again => {
            output_keeps_waiting_bytes(next, after, clock, r);
        },
        _ => {},
    }
}

proof fn lemma_accepted_concat(first: Seq<SessionCall>, second: Seq<SessionCall>)
    ensures
        accepted_in(first + second) == accepted_in(first) + accepted_in(second),
    decreases second.len(),
{
    if second.len() == 0 {
        assert(first + second =~= first);
        assert(accepted_in(first) + Seq::<u8>::empty() =~= accepted_in(first));
    } else {
        lemma_accepted_concat(first, second.drop_last());
        assert((first + second).drop_last() =~= first + second.drop_last());
        assert(accepted_in(first + second) =~= accepted_in(first) + accepted_in(second));
    }
}

/// What tries to write have handed over is a leading part of the bytes.
pub proof fn tries_hand_over_in_order(bytes: Seq<u8>, tries: Seq<SessionCall>)
    requires
        write_tries(bytes, tries),
    ensures
        accepted_in(tries).len() <= bytes.len(),
        accepted_in(tries) == bytes.take(accepted_in(tries).len() as int),
    decreases tries.len(),
{
    if tries.len() > 0 {
        let less = tries.drop_last();
        tries_hand_over_in_order(bytes, less);
        let n = accepted_in(less).len() as int;
        let more = taken_by(tries.last());
        assert(more =~= bytes.skip(n).take(more.len() as int));
        assert(accepted_in(tries) =~= bytes.take(accepted_in(tries).len() as int));
    } else {
        assert(accepted_in(tries) =~= bytes.take(0));
    }
}

/// Writing what waits loses nothing and repeats nothing: what the session has
/// taken over and what still waits are together the same as before.
pub proof fn flushing_keeps_the_stream(before: EngineModel, after: EngineModel, r: Result<(), Error>)
    requires
        flushed(before, after, r),
        r is Ok,
    ensures
        outgoing(after) == outgoing(before),
{
    let tries = fresh_calls(before, after);
    tries_hand_over_in_order(before.core.pending, tries);
    lemma_accepted_concat(before.calls, tries);
    assert(outgoing(after) =~= outgoing(before));
}

/// Bytes go on waiting only where the session has just refused them: it took
/// nothing over, or said that it would block.
pub proof fn waiting_bytes_were_refused(before: EngineModel, after: EngineModel, r: Result<(), Error>)
    requires
        flushed(before, after, r),
        r is Ok,
        after.core.pending.len() > 0,
    ensures
        after.calls.len() > before.calls.len(),
        after.calls.last() matches SessionCall::Write { input, taken } && {
            &&& input == after.core.pending
            &&& match taken {
                Ok(n) => n == 0,
                Err(error) => is_blocked(error),
            }
        },
{
    let tries = fresh_calls(before, after);
    tries_hand_over_in_order(before.core.pending, tries);
    assert(after.calls == before.calls + tries);
    assert(tries.len() > 0);
    assert(after.calls.last() == tries.last());
    assert(write_tries(before.core.pending, tries));
    let less = tries.drop_last();
    assert(accepted_in(tries) =~= accepted_in(less));
}

proof fn lemma_request_stream(
    before: EngineModel,
    after: EngineModel,
    request: TerminalRequest,
    r: Result<(), Error>,
)
    requires
        request_step(before, after, request, r),
        r is Ok,
    ensures
        outgoing(after) == outgoing(before) + bytes_of(request),
{
    match request {
        TerminalRequest::WriteBytes(bytes) => {
            let queued = EngineModel {
                core: CoreModel { pending: before.core.pending + bytes@, ..before.core },
                ..before
            };
            flushing_keeps_the_stream(queued, after, r);
            assert(outgoing(queued) =~= outgoing(before) + bytes@);
        },
        TerminalRequest::Resize(_) => {
            assert(after.calls.drop_last() =~= before.calls);
            assert(outgoing(after) =~= outgoing(before) + Seq::<u8>::empty());
        },
        TerminalRequest::Shutdown => {
            assert(after.calls.drop_last() =~= before.calls);
            assert(outgoing(after) =~= outgoing(before) + Seq::<u8>::empty());
        },
        _ => {
            assert(outgoing(after) =~= outgoing(before) + Seq::<u8>::empty());
        },
    }
}

/// Requests that all went well have added their bytes to those for the session,
/// in the order in which they came, and none of them waits any more.
pub proof fn requests_are_written_in_order(
    before: EngineModel,
    after: EngineModel,
    r: Result<(), Error>,
)
    requires
        requests_run(before, after, r),
        r is Ok,
    ensures
        outgoing(after) == outgoing(before) + bytes_of_all(before.requests),
        after.requests.len() == 0,
    decreases before.requests.len(),
{
    if before.requests.len() == 0 {
        assert(outgoing(after) =~= outgoing(before) + Seq::<u8>::empty());
    } else {
        let (next, q) = choose|next: EngineModel, q: Result<(), Error>|
            {
                &&& #[trigger] request_step(popped(before), next, before.requests[0], q)
                &&& next.requests == before.requests.skip(1)
                &&& q is Ok ==> requests_run(next, after, r)
                &&& q is Err ==> after == next && r == q
            };
        lemma_request_stream(popped(before), next, before.requests[0], q);
        requests_are_written_in_order(next, after, r);
        assert(outgoing(before) == outgoing(popped(before)));
        assert(outgoing(after) =~= outgoing(before) + bytes_of_all(before.requests));
    }
}

/// A session that can take bytes gets those that waited, then those of the
/// requests that waited, then those of the requests that the channel handed out
/// until it had none; what it does not take over goes on waiting.
pub proof fn writing_keeps_the_stream(before: EngineModel, after: EngineModel, waiting: bool)
    requires
        writable_run(before, after, Ok(waiting)),
    ensures
        drained(after.answers.skip(before.answers.len() as int)),
        outgoing(after) == outgoing(before) + bytes_of_all(
            before.requests + handed_out(after.answers.skip(before.answers.len() as int)),
        ),
        waiting == (after.core.pending.len() > 0),
{
    let r: Result<bool, Error> = Ok(waiting);
    let (ready, q) = choose|ready: EngineModel, q: Result<(), Error>|
        #[trigger] pending_run(before, ready, q) && match q {
            Err(error) => after == ready && r == Err::<bool, _>(error),
            Ok(_) => written_and_told(ready, after, r),
        };
    let taken = choose|taken: EngineModel| #[trigger]
        requests_taken(before, taken) && requests_run(taken, ready, q);
    requests_are_written_in_order(taken, ready, q);
    lemma_run_keeps_answers(taken, ready, q);
    let (written, p) = choose|written: EngineModel, p: Result<(), Error>|
        #[trigger] flushed(ready, written, p) && p is Ok && told(written, after, Ok(()));
    flushing_keeps_the_stream(ready, written, p);
    assert(outgoing(taken) == outgoing(before));
}

proof fn lemma_run_keeps_answers(before: EngineModel, after: EngineModel, r: Result<(), Error>)
    requires
        requests_run(before, after, r),
    ensures
        after.answers == before.answers,
        after.parsed == before.parsed,
        after.batches == before.batches,
        after.platform == before.platform,
        delivered_in(after.calls) == delivered_in(before.calls),
    decreases before.requests.len(),
{
    if before.requests.len() > 0 {
        let (next, q) = choose|next: EngineModel, q: Result<(), Error>|
            {
                &&& #[trigger] request_step(popped(before), next, before.requests[0], q)
                &&& next.requests == before.requests.skip(1)
                &&& q is Ok ==> requests_run(next, after, r)
                &&& q is Err ==> after == next && r == q
            };
        lemma_request_delivers_nothing(popped(before), next, before.requests[0], q);
        if q is Ok {
            lemma_run_keeps_answers(next, after, r);
        }
    }
}

proof fn lemma_request_delivers_nothing(
    before: EngineModel,
    after: EngineModel,
    request: TerminalRequest,
    r: Result<(), Error>,
)
    requires
        request_step(before, after, request, r),
    ensures
        after.answers == before.answers,
        after.parsed == before.parsed,
        after.batches == before.batches,
        after.platform == before.platform,
        delivered_in(after.calls) == delivered_in(before.calls),
{
    match request {
        TerminalRequest::WriteBytes(bytes) => {
            let queued = EngineModel {
                core: CoreModel { pending: before.core.pending + bytes@, ..before.core },
                ..before
            };
            lemma_tries_deliver_nothing(before.calls, queued.core.pending, fresh_calls(
                queued,
                after,
            ));
        },
        TerminalRequest::Resize(_) => {
            assert(after.calls.drop_last() =~= before.calls);
            assert(delivered_in(before.calls) + Seq::<u8>::empty() =~= delivered_in(before.calls));
        },
        TerminalRequest::Shutdown => {
            assert(after.calls.drop_last() =~= before.calls);
            assert(delivered_in(before.calls) + Seq::<u8>::empty() =~= delivered_in(before.calls));
        },
        _ => {},
    }
}

proof fn lemma_tries_deliver_nothing(
    calls: Seq<SessionCall>,
    bytes: Seq<u8>,
    tries: Seq<SessionCall>,
)
    requires
        write_tries(bytes, tries),
    ensures
        delivered_in(calls + tries) == delivered_in(calls),
    decreases tries.len(),
{
    if tries.len() == 0 {
        assert(calls + tries =~= calls);
    } else {
        lemma_tries_deliver_nothing(calls, bytes, tries.drop_last());
        assert((calls + tries).drop_last() =~= calls + tries.drop_last());
        assert(delivered_in(calls) + Seq::<u8>::empty() =~= delivered_in(calls));
    }
}

/// Whether the parser was given what the session has handed out meanwhile.
pub open spec fn all_parsed(before: EngineModel, after: EngineModel) -> bool {
    exists|more: Seq<u8>|
        after.parsed == #[trigger] (before.parsed + more) && delivered_in(after.calls)
            == delivered_in(before.calls) + more
}

proof fn lemma_all_parsed_step(
    before: EngineModel,
    middle: EngineModel,
    after: EngineModel,
    more: Seq<u8>,
)
    requires
        all_parsed(before, middle),
        after.parsed == middle.parsed + more,
        delivered_in(after.calls) == delivered_in(middle.calls) + more,
    ensures
        all_parsed(before, after),
{
    let first = choose|first: Seq<u8>|
        middle.parsed == #[trigger] (before.parsed + first) && delivered_in(middle.calls)
            == delivered_in(before.calls) + first;
    assert(after.parsed =~= before.parsed + (first + more));
    assert(delivered_in(after.calls) =~= delivered_in(before.calls) + (first + more));
}

proof fn lemma_read_is_parsed(
    start: EngineModel,
    before: EngineModel,
    after: EngineModel,
    clock: spec_fn(u64) -> bool,
    r: Result<ReadEnd, Error>,
)
    requires
        all_parsed(start, before),
        read_run(before, after, clock, r),
    ensures
        all_parsed(start, after),
    decreases after.calls.len() - before.calls.len(),
{
    let next = choose|next: EngineModel|
        {
            &&& #[trigger] one_read(before, next, clock)
            &&& next.calls.len() == before.calls.len() + 1
            &&& if read_ends(next) {
                after == next && r == read_result(next)
            } else {
                read_run(next, after, clock, r)
            }
        };
    let more = given_by(next.calls.last());
    assert(next.calls.drop_last() =~= before.calls);
    assert(next.parsed =~= before.parsed + more);
    lemma_all_parsed_step(start, before, next, more);
    if !read_ends(next) {
        lemma_read_is_parsed(start, next, after, clock, r);
    }
}

proof fn lemma_exit_delivers_nothing(
    before: EngineModel,
    after: EngineModel,
    r: Result<Option<ExitStatus>, Error>,
)
    requires
        exit_asked(before, after, r),
    ensures
        after.parsed == before.parsed,
        delivered_in(after.calls) == delivered_in(before.calls),
{
    assert(after.calls.drop_last() =~= before.calls);
    assert(delivered_in(before.calls) + Seq::<u8>::empty() =~= delivered_in(before.calls));
}

proof fn lemma_announcing_delivers_nothing(
    before: EngineModel,
    after: EngineModel,
    updated: bool,
    closed: bool,
    r: Result<(), Error>,
)
    requires
        announced_and_told(before, after, updated, closed, r),
    ensures
        after.parsed == before.parsed,
        delivered_in(after.calls) == delivered_in(before.calls),
{
    let (ready, q) = choose|ready: EngineModel, q: Result<(), Error>|
        {
            &&& #[trigger] announced(before, ready, updated, closed, q)
            &&& match q {
                Err(_) => after == ready && r == q,
                Ok(_) => told(ready, after, r),
            }
        };
    let (asked, p) = choose|asked: EngineModel, p: Result<Option<ExitStatus>, Error>|
        {
            &&& #[trigger] closed_asked(closed, before, asked, p)
            &&& match p {
                Err(error) => ready == asked && q == Err::<(), _>(error),
                Ok(_) => shown_and_asked(asked, ready, updated, q),
            }
        };
    if closed {
        lemma_exit_delivers_nothing(before, asked, p);
    }
    if p is Ok {
        let (shown, o) = choose|shown: EngineModel, o: Result<Option<ExitStatus>, Error>|
            #[trigger] exit_asked(shown, ready, o) && update_shown(updated, asked, shown);
        lemma_exit_delivers_nothing(shown, ready, o);
    }
}

/// The parser is given everything that the session hands out, in order and
/// once, whether or not all goes well.
pub proof fn all_output_is_parsed(
    before: EngineModel,
    after: EngineModel,
    clock: spec_fn(u64) -> bool,
    r: Result<bool, Error>,
)
    requires
        readable_run(before, after, clock, r),
    ensures
        all_parsed(before, after),
{
    let (ready, q) = choose|ready: EngineModel, q: Result<(), Error>|
        {
            &&& #[trigger] pending_run(before, ready, q)
            &&& match q {
                Err(error) => after == ready && r == Err::<bool, _>(error),
                Ok(_) => read_and_told(ready, after, clock, r),
            }
        };
    let taken = choose|taken: EngineModel| #[trigger]
        requests_taken(before, taken) && requests_run(taken, ready, q);
    lemma_run_keeps_answers(taken, ready, q);
    let none = Seq::<u8>::empty();
    assert(before.parsed + none =~= before.parsed);
    assert(delivered_in(before.calls) + none =~= delivered_in(before.calls));
    assert(all_parsed(before, ready));
    if q is Ok {
        let (read, p) = choose|read: EngineModel, p: Result<ReadEnd, Error>|
            {
                let updated = read.batches.len() > ready.batches.len();
                &&& #[trigger] read_run(ready, read, clock, p)
                &&& match p {
                    Err(error) => after == read && r == Err::<bool, _>(error),
                    Ok(end) => match r {
                        Err(error) => announced_and_told(
                            read,
                            after,
                            updated,
                            end is Closed,
                            Err(error),
                        ),
                        Ok(output) => output == updated && announced_and_told(
                            read,
                            after,
                            updated,
                            end is Closed,
                            Ok(()),
                        ),
                    },
                }
            };
        lemma_read_is_parsed(before, ready, read, clock, p);
        if p is Ok {
            let updated = read.batches.len() > ready.batches.len();
            let told_result = if r is Ok {
                Ok(())
            } else {
                Err(r->Err_0)
            };
            lemma_announcing_delivers_nothing(
                read,
                after,
                updated,
                p->Ok_0 is Closed,
                told_result,
            );
            assert(read.parsed + none =~= read.parsed);
            assert(delivered_in(read.calls) + none =~= delivered_in(read.calls));
            lemma_all_parsed_step(before, read, after, none);
        }
    }
}

proof fn lemma_sent_concat(
    first: Seq<(TerminalEvent, Result<(), ChannelSendError>)>,
    second: Seq<(TerminalEvent, Result<(), ChannelSendError>)>,
)
    ensures
        sent_in(first + second) == sent_in(first) + sent_in(second),
    decreases second.len(),
{
    if second.len() == 0 {
        assert(first + second =~= first);
        assert(sent_in(first) + Seq::<TerminalEvent>::empty() =~= sent_in(first));
    } else {
        lemma_sent_concat(first, second.drop_last());
        assert((first + second).drop_last() =~= first + second.drop_last());
        assert(sent_in(first + second) =~= sent_in(first) + sent_in(second));
    }
}

proof fn lemma_taken_are_sent(
    tries: Seq<(TerminalEvent, Result<(), ChannelSendError>)>,
    events: Seq<TerminalEvent>,
)
    requires
        tries.len() == events.len(),
        forall|i: int| 0 <= i < tries.len() ==> (#[trigger] tries[i]).0 == events[i],
        forall|i: int| 0 <= i < tries.len() ==> (#[trigger] tries[i]).1 is Ok,
    ensures
        sent_in(tries) == events,
    decreases tries.len(),
{
    if tries.len() > 0 {
        lemma_taken_are_sent(tries.drop_last(), events.drop_last());
        assert(sent_in(tries) =~= events);
    } else {
        assert(sent_in(tries) =~= events);
    }
}

proof fn lemma_all_told_are_sent(before: EngineModel, after: EngineModel, r: Result<(), Error>)
    requires
        told(before, after, r),
        r is Ok,
    ensures
        sent_in(after.tries) == sent_in(before.tries) + before.core.events,
        after.core.events.len() == 0,
{
    let fresh = after.tries.skip(before.tries.len() as int);
    assert forall|i: int| 0 <= i < fresh.len() implies (#[trigger] fresh[i]).1 is Ok by {
        if i == fresh.len() - 1 {
            assert(fresh[i] == fresh.last());
        }
    }
    lemma_taken_are_sent(fresh, before.core.events);
    lemma_sent_concat(before.tries, fresh);
}

/// All events that wait reach the listeners in order, after those that they got
/// before, or the first that the channel does not take is lost and its answer
/// is the error.
pub proof fn events_are_told_in_order(before: EngineModel, after: EngineModel, r: Result<(), Error>)
    requires
        told(before, after, r),
    ensures
        match r {
            Ok(_) => sent_in(after.tries) == sent_in(before.tries) + before.core.events,
            Err(error) => exists|n: int|
                0 <= n < before.core.events.len() && after.core.events
                    == #[trigger] before.core.events.skip(n + 1) && sent_in(after.tries) == sent_in(
                    before.tries,
                ) + before.core.events.take(n) && after.tries.len() == before.tries.len() + n + 1
                    && after.tries.last().0 == before.core.events[n] && (
                after.tries.last().1 matches Err(answer) && error == send_failure(answer)),
        },
{
    if r is Ok {
        lemma_all_told_are_sent(before, after, r);
    } else {
        let fresh = after.tries.skip(before.tries.len() as int);
        let n = fresh.len() - 1;
        let taken = fresh.drop_last();
        lemma_taken_are_sent(taken, before.core.events.take(n));
        lemma_sent_concat(before.tries, fresh);
        assert(after.tries.last() == fresh.last());
        assert(after.core.events == before.core.events.skip(n + 1));
    }
}

/// Whether events end with a frame, or with a frame and the exit of the child
/// after it.
pub open spec fn ends_with_frame(events: Seq<TerminalEvent>) -> bool {
    let n = events.len() as int;
    ||| n >= 1 && events[n - 1] is Frame
    ||| n >= 2 && events[n - 2] is Frame && events[n - 1] is ChildExit
}

/// Whether events go on where others end, and the exit of the child is not among
/// those that were added.
pub open spec fn go_on_without_exit(first: Seq<TerminalEvent>, all: Seq<TerminalEvent>) -> bool {
    &&& first.is_prefix_of(all)
    &&& forall|i: int| first.len() <= i < all.len() ==> !((#[trigger] all[i]) is ChildExit)
}

/// What the listeners have got by the time that all events that wait are told.
pub open spec fn sent_with_waiting(engine: EngineModel) -> Seq<TerminalEvent> {
    sent_in(engine.tries) + engine.core.events
}

/// Whether a call to the session brings its end: a read finds it closed, or it
/// is closed and tells a code.
pub open spec fn brings_end(platform: Platform, call: SessionCall) -> bool {
    match call {
        SessionCall::Read { got, .. } => step_of(platform, got) == ReadStep::Stop(ReadEnd::Closed),
        SessionCall::Close { code } => code is Ok,
        _ => false,
    }
}

/// Whether the session came to its end between two values of an engine.
pub open spec fn session_ended(before: EngineModel, after: EngineModel) -> bool {
    exists|i: int|
        before.calls.len() <= i < after.calls.len() && brings_end(
            before.platform,
            #[trigger] after.calls[i],
        )
}

proof fn lemma_no_exit_trans(
    a: Seq<TerminalEvent>,
    b: Seq<TerminalEvent>,
    c: Seq<TerminalEvent>,
)
    requires
        go_on_without_exit(a, b),
        go_on_without_exit(b, c),
    ensures
        go_on_without_exit(a, c),
{
    assert forall|i: int| a.len() <= i < c.len() implies !((#[trigger] c[i]) is ChildExit) by {
        if i < b.len() {
            assert(c[i] == b[i]);
        }
    }
}

proof fn lemma_applied_tells_no_exit(core: CoreModel, actions: Seq<Action>)
    ensures
        go_on_without_exit(core.events, applied_all(core, actions).events),
    decreases actions.len(),
{
    if actions.len() > 0 {
        lemma_applied_tells_no_exit(core, actions.drop_last());
    }
}

proof fn lemma_handled_tells_no_exit(core: CoreModel, actions: Seq<Action>, times: Seq<u64>)
    ensures
        go_on_without_exit(core.events, handled_all(core, actions, times).events),
    decreases actions.len(),
{
    if actions.len() > 0 {
        let less = handled_all(core, actions.drop_last(), times);
        let now = times[actions.len() - 1];
        lemma_handled_tells_no_exit(core, actions.drop_last(), times);
        lemma_applied_tells_no_exit(
            CoreModel { sync: sync_idle(now), ..less },
            less.sync.buffer,
        );
        lemma_no_exit_trans(
            core.events,
            less.events,
            handled(less, actions.last(), now).events,
        );
    }
}

proof fn lemma_ingested_tells_no_exit(core: CoreModel, batch: Seq<Action>, times: Seq<u64>)
    ensures
        go_on_without_exit(core.events, ingested(core, batch, times).events),
{
    let handled_core = handled_all(core, batch, times);
    lemma_handled_tells_no_exit(core, batch, times);
    lemma_applied_tells_no_exit(
        CoreModel { sync: sync_idle(times[batch.len() as int + 1]), ..handled_core },
        handled_core.sync.buffer,
    );
    lemma_no_exit_trans(
        core.events,
        handled_core.events,
        ingested(core, batch, times).events,
    );
}

proof fn lemma_reading_tells_no_exit(
    before: EngineModel,
    after: EngineModel,
    clock: spec_fn(u64) -> bool,
    r: Result<ReadEnd, Error>,
)
    requires
        read_run(before, after, clock, r),
    ensures
        go_on_without_exit(before.core.events, after.core.events),
        after.tries == before.tries,
        after.platform == before.platform,
        before.calls.is_prefix_of(after.calls),
        r matches Ok(ReadEnd::Closed) ==> brings_end(after.platform, after.calls.last()),
    decreases after.calls.len() - before.calls.len(),
{
    let next = choose|next: EngineModel|
        {
            &&& #[trigger] one_read(before, next, clock)
            &&& next.calls.len() == before.calls.len() + 1
            &&& if read_ends(next) {
                after == next && r == read_result(next)
            } else {
                read_run(next, after, clock, r)
            }
        };
    let called = with_session_call(before, next.calls.last());
    if last_step(next) is Chunk {
        let bytes = given_by(next.calls.last());
        assert(chunk_taken_in(called, next, bytes, clock));
        let times = choose|times: Seq<u64>|
            times.len() == next.batches.last().len() + 2 && #[trigger] all_told(clock, times)
                && next == batch_taken_in(
                called,
                bytes,
                next.batches.last(),
                next.picture,
                times,
            );
        lemma_ingested_tells_no_exit(before.core, next.batches.last(), times);
    }
    if !read_ends(next) {
        lemma_reading_tells_no_exit(next, after, clock, r);
        lemma_no_exit_trans(before.core.events, next.core.events, after.core.events);
    }
}

proof fn lemma_request_tells_no_exit(
    before: EngineModel,
    after: EngineModel,
    request: TerminalRequest,
    r: Result<(), Error>,
)
    requires
        request_step(before, after, request, r),
    ensures
        after.tries == before.tries,
        after.platform == before.platform,
        before.calls.is_prefix_of(after.calls),
        before.core.events.is_prefix_of(after.core.events),
        !session_ended(before, after) ==> go_on_without_exit(
            before.core.events,
            after.core.events,
        ),
{
    if request is Shutdown {
        assert(after.calls[before.calls.len() as int] == after.calls.last());
    }
}

proof fn lemma_requests_tell_no_exit(
    before: EngineModel,
    after: EngineModel,
    r: Result<(), Error>,
)
    requires
        requests_run(before, after, r),
    ensures
        after.tries == before.tries,
        after.platform == before.platform,
        before.calls.is_prefix_of(after.calls),
        before.core.events.is_prefix_of(after.core.events),
        !session_ended(before, after) ==> go_on_without_exit(
            before.core.events,
            after.core.events,
        ),
    decreases before.requests.len(),
{
    if before.requests.len() > 0 {
        let (next, q) = choose|next: EngineModel, q: Result<(), Error>|
            {
                &&& #[trigger] request_step(popped(before), next, before.requests[0], q)
                &&& next.requests == before.requests.skip(1)
                &&& q is Ok ==> requests_run(next, after, r)
                &&& q is Err ==> after == next && r == q
            };
        lemma_request_tells_no_exit(popped(before), next, before.requests[0], q);
        if q is Ok {
            lemma_requests_tell_no_exit(next, after, r);
            if !session_ended(before, after) {
                lemma_parts_did_not_end(before, next, after);
                lemma_no_exit_trans(before.core.events, next.core.events, after.core.events);
            }
        }
    }
}

proof fn lemma_parts_did_not_end(before: EngineModel, middle: EngineModel, after: EngineModel)
    requires
        !session_ended(before, after),
        before.calls.is_prefix_of(middle.calls),
        middle.calls.is_prefix_of(after.calls),
        middle.platform == before.platform,
    ensures
        !session_ended(before, middle),
        !session_ended(middle, after),
{
    assert forall|i: int| before.calls.len() <= i < middle.calls.len() implies !brings_end(
        before.platform,
        #[trigger] middle.calls[i],
    ) by {
        assert(middle.calls[i] == after.calls[i]);
    }
}

proof fn lemma_frame_ends_announcement(before: EngineModel, after: EngineModel, closed: bool)
    requires
        announced_and_told(before, after, true, closed, Ok(())),
    ensures
        after.core.events.len() == 0,
        before.calls.is_prefix_of(after.calls),
        sent_with_waiting(before).is_prefix_of(sent_in(after.tries)),
        ({
            let added = sent_in(after.tries).skip(sent_with_waiting(before).len() as int);
            ends_with_frame(added) && (!closed ==> added.len() <= 2 && added[0] is Frame)
        }),
{
    let (ready, q) = choose|ready: EngineModel, q: Result<(), Error>|
        #[trigger] announced(before, ready, true, closed, q) && q is Ok && told(
            ready,
            after,
            Ok(()),
        );
    let (asked, p) = choose|asked: EngineModel, p: Result<Option<ExitStatus>, Error>|
        #[trigger] closed_asked(closed, before, asked, p) && p is Ok && shown_and_asked(
            asked,
            ready,
            true,
            q,
        );
    let (shown, o) = choose|shown: EngineModel, o: Result<Option<ExitStatus>, Error>|
        #[trigger] exit_asked(shown, ready, o) && update_shown(true, asked, shown);
    let n = shown.core.events.len() as int;
    assert(shown.core.events[n - 1] is Frame);
    assert(ready.core.events[n - 1] is Frame);
    lemma_all_told_are_sent(ready, after, Ok(()));
    let sent = sent_in(after.tries);
    let at = sent_in(before.tries).len() as int;
    assert(sent =~= sent_in(before.tries) + ready.core.events);
    assert(sent[at + n - 1] is Frame);
    assert(before.core.events.is_prefix_of(ready.core.events));
}

/// Output is shown, and an exit of the child that is noticed once it was taken
/// in is told only after it: what the listeners get besides what waited for them
/// ends with the frame, or with the frame and then the exit. As long as the
/// session has not come to its end meanwhile, no exit is told before the frame.
/// One that is found closed, or is asked to close, can tell the exit before the
/// frame too.
pub proof fn frame_comes_before_exit(
    before: EngineModel,
    after: EngineModel,
    clock: spec_fn(u64) -> bool,
)
    requires
        readable_run(before, after, clock, Ok(true)),
    ensures
        after.core.events.len() == 0,
        sent_with_waiting(before).is_prefix_of(sent_in(after.tries)),
        ({
            let added = sent_in(after.tries).skip(sent_with_waiting(before).len() as int);
            &&& ends_with_frame(added)
            &&& !session_ended(before, after) ==> forall|i: int|
                0 <= i < added.len() - 1 ==> !((#[trigger] added[i]) is ChildExit)
        }),
{
    let (ready, q) = choose|ready: EngineModel, q: Result<(), Error>|
        #[trigger] pending_run(before, ready, q) && q is Ok && read_and_told(
            ready,
            after,
            clock,
            Ok(true),
        );
    let taken = choose|taken: EngineModel| #[trigger]
        requests_taken(before, taken) && requests_run(taken, ready, q);
    let (read, p) = choose|read: EngineModel, p: Result<ReadEnd, Error>|
        #[trigger] read_run(ready, read, clock, p) && p is Ok && announced_and_told(
            read,
            after,
            true,
            p->Ok_0 is Closed,
            Ok(()),
        );
    lemma_requests_tell_no_exit(taken, ready, q);
    lemma_reading_tells_no_exit(ready, read, clock, p);
    lemma_frame_ends_announcement(read, after, p->Ok_0 is Closed);
    let sent = sent_in(after.tries);
    let first = sent_with_waiting(before);
    let next = sent_with_waiting(read);
    let added = sent.skip(first.len() as int);
    let last = sent.skip(next.len() as int);
    assert(first.is_prefix_of(next));
    assert(added.skip(next.len() - first.len()) =~= last);
    if !session_ended(before, after) {
        lemma_parts_did_not_end(before, ready, after);
        lemma_no_exit_trans(before.core.events, ready.core.events, read.core.events);
        assert(!(p->Ok_0 is Closed)) by {
            if p->Ok_0 is Closed {
                assert(read.calls.last() == after.calls[read.calls.len() - 1]);
            }
        }
        assert(last[0] is Frame);
        assert forall|i: int| 0 <= i < added.len() - 1 implies !(
        (#[trigger] added[i]) is ChildExit) by {
            let at = first.len() + i;
            assert(added[i] == sent[at]);
            if at < next.len() {
                assert(sent[at] == next[at]);
                assert(next[at] == read.core.events[at - sent_in(read.tries).len()]);
            } else {
                assert(sent[at] == last[at - next.len()]);
            }
        }
    }
}

/// Whether an engine is still on the same channels, with the same limits, on the
/// same platform and with the same room for one read.
pub open spec fn same_setup(before: EngineModel, after: EngineModel) -> bool {
    &&& after.platform == before.platform
    &&& after.room == before.room
    &&& after.request_capacity == before.request_capacity
    &&& after.event_capacity == before.event_capacity
    &&& after.request_channel == before.request_channel
    &&& after.event_channel == before.event_channel
}

proof fn lemma_requests_keep_setup(before: EngineModel, after: EngineModel, r: Result<(), Error>)
    requires
        requests_run(before, after, r),
    ensures
        same_setup(before, after),
    decreases before.requests.len(),
{
    if before.requests.len() > 0 {
        let (next, q) = choose|next: EngineModel, q: Result<(), Error>|
            {
                &&& #[trigger] request_step(popped(before), next, before.requests[0], q)
                &&& next.requests == before.requests.skip(1)
                &&& q is Ok ==> requests_run(next, after, r)
                &&& q is Err ==> after == next && r == q
            };
        if q is Ok {
            lemma_requests_keep_setup(next, after, r);
        }
    }
}

proof fn lemma_pending_keeps_setup(before: EngineModel, after: EngineModel, r: Result<(), Error>)
    requires
        pending_run(before, after, r),
    ensures
        same_setup(before, after),
{
    let taken = choose|taken: EngineModel| #[trigger]
        requests_taken(before, taken) && requests_run(taken, after, r);
    lemma_requests_keep_setup(taken, after, r);
}

proof fn lemma_reading_keeps_setup(
    before: EngineModel,
    after: EngineModel,
    clock: spec_fn(u64) -> bool,
    r: Result<ReadEnd, Error>,
)
    requires
        read_run(before, after, clock, r),
    ensures
        same_setup(before, after),
    decreases after.calls.len() - before.calls.len(),
{
    let next = choose|next: EngineModel|
        {
            &&& #[trigger] one_read(before, next, clock)
            &&& next.calls.len() == before.calls.len() + 1
            &&& if read_ends(next) {
                after == next && r == read_result(next)
            } else {
                read_run(next, after, clock, r)
            }
        };
    if !read_ends(next) {
        lemma_reading_keeps_setup(next, after, clock, r);
    }
}

/// An engine whose session has output stays on its channels: it goes on to
/// receive from the handle and to send to the listeners that it was set up with.
pub proof fn reading_keeps_the_channels(
    before: EngineModel,
    after: EngineModel,
    clock: spec_fn(u64) -> bool,
    r: Result<bool, Error>,
)
    requires
        readable_run(before, after, clock, r),
    ensures
        same_setup(before, after),
{
    let (ready, q) = choose|ready: EngineModel, q: Result<(), Error>|
        {
            &&& #[trigger] pending_run(before, ready, q)
            &&& match q {
                Err(error) => after == ready && r == Err::<bool, _>(error),
                Ok(_) => read_and_told(ready, after, clock, r),
            }
        };
    lemma_pending_keeps_setup(before, ready, q);
    if q is Ok {
        let (read, p) = choose|read: EngineModel, p: Result<ReadEnd, Error>|
            #[trigger] read_run(ready, read, clock, p) && (after == read || same_setup(read, after));
        lemma_reading_keeps_setup(ready, read, clock, p);
    }
}

/// An engine whose session can take bytes stays on its channels.
pub proof fn writing_keeps_the_channels(
    before: EngineModel,
    after: EngineModel,
    r: Result<bool, Error>,
)
    requires
        writable_run(before, after, r),
    ensures
        same_setup(before, after),
{
    let (ready, q) = choose|ready: EngineModel, q: Result<(), Error>|
        {
            &&& #[trigger] pending_run(before, ready, q)
            &&& match q {
                Err(error) => after == ready && r == Err::<bool, _>(error),
                Ok(_) => written_and_told(ready, after, r),
            }
        };
    lemma_pending_keeps_setup(before, ready, q);
}

/// Regular maintenance leaves an engine on its channels.
pub proof fn maintenance_keeps_the_channels(
    before: EngineModel,
    after: EngineModel,
    clock: spec_fn(u64) -> bool,
    r: Result<(), Error>,
)
    requires
        tick_run(before, after, clock, r),
    ensures
        same_setup(before, after),
{
    let (ready, q) = choose|ready: EngineModel, q: Result<(), Error>|
        {
            &&& #[trigger] pending_run(before, ready, q)
            &&& match q {
                Err(_) => after == ready && r == q,
                Ok(_) => given_up_and_told(ready, after, clock, r),
            }
        };
    lemma_pending_keeps_setup(before, ready, q);
}

} // verus!
