//! What holds of every turn of an engine: its requests are carried out in order,
//! and it asks for the exit of its child.

use vstd::prelude::*;

use crate::pty::session::{ExitStatus, SessionCall};
use crate::term::channel::ChannelTryRecvError;
use crate::term::engine::{sync_overdue, ReadEnd, ReadStep, TerminalEvent, TerminalRequest};
use crate::term::error::Error;
use crate::term::laws::{ends_with_frame, events_are_told_in_order};
use crate::term::steps::{
    announced, announced_and_told, closed_asked, exit_asked, given_up_and_told, handed_out,
    last_step, one_read, pending_run, popped, read_and_told, read_ends, read_result, read_run,
    readable_run, request_step, requests_run, requests_taken, sent_in, shown_and_asked, step_of,
    tick_run, told, update_given_up, update_shown, EngineModel,
};
use crate::term::surface::PictureModel;

verus! {

/// Requests come out of their channel in the order in which it handed them out:
/// those of a later run of answers after those of an earlier one, and nothing for
/// an answer that brought none.
pub proof fn requests_come_in_order(
    first: Seq<Result<TerminalRequest, ChannelTryRecvError>>,
    second: Seq<Result<TerminalRequest, ChannelTryRecvError>>,
    request: TerminalRequest,
    refusal: ChannelTryRecvError,
)
    ensures
        handed_out(first + second) == handed_out(first) + handed_out(second),
        handed_out(seq![Ok(request)]) == seq![request],
        handed_out(seq![Err(refusal)]) == Seq::<TerminalRequest>::empty(),
    decreases second.len(),
{
    let none = Seq::<Result<TerminalRequest, ChannelTryRecvError>>::empty();
    assert(seq![Ok::<TerminalRequest, ChannelTryRecvError>(request)].drop_last() =~= none);
    assert(seq![Err::<TerminalRequest, ChannelTryRecvError>(refusal)].drop_last() =~= none);
    assert(handed_out(none) =~= Seq::empty());
    if second.len() == 0 {
        assert(first + second =~= first);
        assert(handed_out(second) =~= Seq::empty());
    } else {
        requests_come_in_order(first, second.drop_last(), request, refusal);
        assert((first + second).drop_last() =~= first + second.drop_last());
    }
}

/// Where all requests were carried out, none is left. Where one failed, those
/// after it wait as they did, and that is the error that is reported.
#[verifier::spinoff_prover]
pub proof fn requests_are_carried_out_or_wait(
    before: EngineModel,
    after: EngineModel,
    r: Result<(), Error>,
)
    requires
        requests_run(before, after, r),
    ensures
        r is Ok ==> after.requests.len() == 0,
        after.requests.is_suffix_of(before.requests),
        r is Err ==> after.requests.len() < before.requests.len() && exists|last: EngineModel|
            #[trigger] request_step(
                last,
                after,
                before.requests[before.requests.len() - after.requests.len() - 1],
                r,
            ),
    decreases before.requests.len(),
{
    if before.requests.len() > 0 {
        let (next, q) = choose|next: EngineModel, q: Result<(), Error>|
            {
                &&& #[trigger] request_step(popped(before), next, before.requests[0], q)
                &&& next.requests == before.requests.skip(1)
                &&& q is Ok ==> requests_run(next, after, r)
                &&& q is Err ==> after == next && r == q
            };
        let left = before.requests.len() - after.requests.len();
        if q is Ok {
            requests_are_carried_out_or_wait(next, after, r);
            assert(after.requests =~= before.requests.skip(left));
            if r is Err {
                let last = choose|last: EngineModel| #[trigger]
                    request_step(
                        last,
                        after,
                        next.requests[next.requests.len() - after.requests.len() - 1],
                        r,
                    );
                assert(next.requests[next.requests.len() - after.requests.len() - 1]
                    == before.requests[left - 1]);
                assert(request_step(last, after, before.requests[left - 1], r));
            }
        } else {
            assert(left == 1);
            assert(after.requests =~= before.requests.skip(left));
            assert(request_step(popped(before), after, before.requests[left - 1], r));
        }
    }
}

/// Whether the exit that the last call to the session reports, if it does, is
/// noted, and is the last thing that the listeners got.
pub open spec fn exit_is_told(engine: EngineModel) -> bool {
    engine.calls.last() matches SessionCall::CheckExit { status: Ok(Some(status)) } ==> {
        &&& engine.exit_status == Some(status)
        &&& sent_in(engine.tries).len() > 0
        &&& sent_in(engine.tries).last() == (TerminalEvent::ChildExit { status })
    }
}

proof fn lemma_announcing_asks(
    before: EngineModel,
    after: EngineModel,
    updated: bool,
    closed: bool,
)
    requires
        announced_and_told(before, after, updated, closed, Ok(())),
    ensures
        after.platform == before.platform,
        before.calls.is_prefix_of(after.calls),
        after.calls.len() == before.calls.len() + (if closed {
            2int
        } else {
            1
        }),
        after.calls.last() is CheckExit,
        closed ==> after.calls[before.calls.len() as int] is CheckExit,
        exit_is_told(after),
        updated ==> ends_with_frame(sent_in(after.tries)),
{
    let (ready, q) = choose|ready: EngineModel, q: Result<(), Error>|
        #[trigger] announced(before, ready, updated, closed, q) && q is Ok && told(
            ready,
            after,
            Ok(()),
        );
    let (asked, p) = choose|asked: EngineModel, p: Result<Option<ExitStatus>, Error>|
        #[trigger] closed_asked(closed, before, asked, p) && p is Ok && shown_and_asked(
            asked,
            ready,
            updated,
            q,
        );
    let (shown, o) = choose|shown: EngineModel, o: Result<Option<ExitStatus>, Error>|
        #[trigger] exit_asked(shown, ready, o) && update_shown(updated, asked, shown);
    events_are_told_in_order(ready, after, Ok(()));
    let sent = sent_in(after.tries);
    assert(sent =~= sent_in(ready.tries) + ready.core.events);
    let n = shown.core.events.len() as int;
    if updated {
        assert(shown.core.events[n - 1] is Frame);
        assert(ready.core.events[n - 1] is Frame);
        assert(sent[sent_in(ready.tries).len() + n - 1] is Frame);
    }
    if ready.core.events.len() > n {
        assert(sent.last() == ready.core.events.last());
    }
}

proof fn lemma_reading_ends_with_a_read(
    before: EngineModel,
    after: EngineModel,
    clock: spec_fn(u64) -> bool,
    r: Result<ReadEnd, Error>,
)
    requires
        read_run(before, after, clock, r),
    ensures
        after.calls.len() > 0,
        after.calls.last() is Read,
        r matches Ok(end) ==> last_step(after) == ReadStep::Stop(end),
    decreases after.calls.len() - before.calls.len(),
{
    let next = choose|next: EngineModel|
        {
            &&& #[trigger] one_read(before, next, clock)
            &&& next.calls.len() == before.calls.len() + 1
            &&& if read_ends(next) {
                after == next && r == read_result(next)
            } else {
                read_run(next, after, clock, r)
            }
        };
    if !read_ends(next) {
        lemma_reading_ends_with_a_read(next, after, clock, r);
    }
}

/// Whenever the output of a session was taken in, the session is asked for the exit
/// of its child right after the last read; it is asked twice where that read has
/// found it closed. An exit that is reported is noted and told. Where there was
/// output, the listeners got a frame, and at most the exit after it.
pub proof fn output_turn_asks_for_the_exit(
    before: EngineModel,
    after: EngineModel,
    clock: spec_fn(u64) -> bool,
    updated: bool,
)
    requires
        readable_run(before, after, clock, Ok(updated)),
    ensures
        ({
            let n = after.calls.len() as int;
            &&& n >= 2 && after.calls[n - 1] is CheckExit
            &&& after.calls[n - 2] is Read || after.calls[n - 2] is CheckExit
            &&& after.calls[n - 2] matches SessionCall::Read { got, .. } ==> step_of(
                after.platform,
                got,
            ) == ReadStep::Stop(ReadEnd::Drained)
            &&& after.calls[n - 2] is CheckExit ==> n >= 3 && after.calls[n - 3] is Read
                && step_of(after.platform, after.calls[n - 3]->Read_got) == ReadStep::Stop(
                ReadEnd::Closed,
            )
        }),
        exit_is_told(after),
        updated ==> ends_with_frame(sent_in(after.tries)),
{
    let (ready, q) = choose|ready: EngineModel, q: Result<(), Error>|
        #[trigger] pending_run(before, ready, q) && q is Ok && read_and_told(
            ready,
            after,
            clock,
            Ok(updated),
        );
    let (read, p) = choose|read: EngineModel, p: Result<ReadEnd, Error>|
        #[trigger] read_run(ready, read, clock, p) && p is Ok && updated == (read.batches.len()
            > ready.batches.len()) && announced_and_told(
            read,
            after,
            updated,
            p->Ok_0 is Closed,
            Ok(()),
        );
    lemma_reading_ends_with_a_read(ready, read, clock, p);
    lemma_announcing_asks(read, after, updated, p->Ok_0 is Closed);
    assert(after.calls[read.calls.len() - 1] == read.calls.last());
}

/// Regular maintenance asks the session for the exit of its child. An exit that is
/// reported is noted and told. An update that has taken too long, whatever the
/// clock says, is shown: the listeners got a frame, and at most the exit after it.
pub proof fn maintenance_turn_asks_for_the_exit(
    before: EngineModel,
    after: EngineModel,
    clock: spec_fn(u64) -> bool,
)
    requires
        tick_run(before, after, clock, Ok(())),
    ensures
        after.calls.len() > before.calls.len(),
        after.calls.last() is CheckExit,
        exit_is_told(after),
        (before.core.sync.active && forall|moment: u64| #[trigger]
            clock(moment) ==> sync_overdue(before.core, moment)) ==> ends_with_frame(
            sent_in(after.tries),
        ),
{
    let (ready, q) = choose|ready: EngineModel, q: Result<(), Error>|
        #[trigger] pending_run(before, ready, q) && q is Ok && given_up_and_told(
            ready,
            after,
            clock,
            Ok(()),
        );
    let taken = choose|taken: EngineModel| #[trigger]
        requests_taken(before, taken) && requests_run(taken, ready, q);
    lemma_requests_keep_the_update(taken, ready, q);
    let (picture, now, then) = choose|picture: PictureModel, now: u64, then: u64|
        {
            &&& clock(now)
            &&& clock(then)
            &&& announced_and_told(
                #[trigger] update_given_up(ready, picture, now, then),
                after,
                sync_overdue(ready.core, now),
                false,
                Ok(()),
            )
        };
    lemma_announcing_asks(
        update_given_up(ready, picture, now, then),
        after,
        sync_overdue(ready.core, now),
        false,
    );
    assert(sync_overdue(ready.core, now) == sync_overdue(before.core, now));
}

proof fn lemma_requests_keep_the_update(
    before: EngineModel,
    after: EngineModel,
    r: Result<(), Error>,
)
    requires
        requests_run(before, after, r),
    ensures
        after.core.sync == before.core.sync,
        after.calls.len() >= before.calls.len(),
    decreases before.requests.len(),
{
    if before.requests.len() > 0 {
        let (next, q) = choose|next: EngineModel, q: Result<(), Error>|
            {
                &&& #[trigger] request_step(popped(before), next, before.requests[0], q)
                &&& next.requests == before.requests.skip(1)
                &&& q is Ok ==> requests_run(next, after, r)
                &&& q is Err ==> after == next && r == q
            };
        assert(next.core.sync == before.core.sync);
        if q is Ok {
            lemma_requests_keep_the_update(next, after, r);
        }
    }
}

} // verus!
