//! What the event loop asks of the terminal that it drives, stage by stage.

use vstd::prelude::*;

use crate::pty::session::ExitStatus;
use crate::pty::ssh::Readiness;
use crate::term::engine::TerminalRequest;
use crate::term::error::Error;
use crate::term::run::{requests_left, stage_done, RunPoint, RunStage};
use crate::term::runtime::{
    asks_to_end, exit_looked_for, found_exit, prepare_plan, prepared, report_plan, reports_plan,
    settled, since, wait_until, Driver, DriverCall, DriverStep, LoopNext, RuntimeHooks,
    RuntimeLoop,
};

verus! {

/// The calls that a stage has made.
pub open spec fn fresh<H>(before: RunPoint<H>, after: RunPoint<H>) -> Seq<DriverCall> {
    after.driver.calls.skip(before.driver.calls.len() as int)
}

/// Whether a request among the given ones asks for the end.
pub open spec fn has_shutdown(requests: Seq<TerminalRequest>) -> bool {
    exists|i: int| 0 <= i < requests.len() && (#[trigger] requests[i]) is Shutdown
}

/// A stage that goes well leads to the next one, round and round; the end of a
/// cycle leads out once the loop was asked to end or the child has exited. A
/// stage that fails ends the run.
pub proof fn stages_follow_each_other<D: Driver, H: RuntimeHooks<D>>(
    before: RunPoint<H>,
    requests: Seq<TerminalRequest>,
    disconnected: bool,
    reports: Seq<Readiness>,
    after: RunPoint<H>,
    r: Result<(), Error>,
)
    requires
        stage_done::<D, H>(before, requests, disconnected, reports, after, r),
    ensures
        r is Err ==> after.run.stage is Done,
        r is Ok ==> match before.run.stage {
            RunStage::Register => after.run.stage is BeforeHook,
            RunStage::BeforeHook => after.run.stage is Prepare,
            RunStage::Prepare => after.run.stage is Wait,
            RunStage::Wait => after.run.stage is Dispatch,
            RunStage::Dispatch => after.run.stage is AfterWait,
            RunStage::AfterWait => after.run.stage is EndCycle,
            RunStage::EndCycle => if after.run.state.exit_detected
                || after.run.state.shutdown_requested {
                after.run.stage is Deregister
            } else {
                after.run.stage is BeforeHook
            },
            RunStage::Deregister => after.run.stage is Done,
            RunStage::Done => after.run.stage is Done,
        },
        !(before.run.stage is Prepare) && !(before.run.stage is AfterWait) ==> requests_left(
            before,
            requests,
            after,
        ) == requests,
{
}

/// The session is registered for reading, and for writing where that is wanted,
/// and taken out again at the end. Nothing else is asked of the terminal in these
/// stages, and in the wait nothing at all.
pub proof fn session_is_registered_and_taken_out<D: Driver, H: RuntimeHooks<D>>(
    before: RunPoint<H>,
    requests: Seq<TerminalRequest>,
    disconnected: bool,
    reports: Seq<Readiness>,
    after: RunPoint<H>,
    r: Result<(), Error>,
)
    requires
        stage_done::<D, H>(before, requests, disconnected, reports, after, r),
    ensures
        before.run.stage is Register ==> after.driver.calls.len() == before.driver.calls.len() + 1
            && before.driver.calls.is_prefix_of(after.driver.calls) && (
        after.driver.calls.last().step matches DriverStep::Register {
            interest,
            io_token,
            child_token,
        } && interest == before.run.state.interest && io_token == 0 && child_token == 1)
            && after.driver.calls.last().outcome is Ok == r is Ok && after.run.state
            == before.run.state,
        before.run.stage is Deregister ==> after.driver.calls.len() == before.driver.calls.len() + 1
            && before.driver.calls.is_prefix_of(after.driver.calls)
            && after.driver.calls.last().step is Deregister
            && after.driver.calls.last().outcome is Ok == r is Ok,
        before.run.stage is Wait || before.run.stage is Done ==> r is Ok && after.driver
            == before.driver && after.run.state == before.run.state,
{
}

proof fn lemma_prepared_in_order(
    before: RuntimeLoop,
    start: Seq<DriverCall>,
    requests: Seq<TerminalRequest>,
    disconnected: bool,
    after: RuntimeLoop,
    end: Seq<DriverCall>,
)
    requires
        prepared(before, start, requests, disconnected, after, end, Ok(())),
    ensures
        start.is_prefix_of(end),
        end.len() == start.len() + requests.len() + 1,
        forall|i: int|
            0 <= i < requests.len() ==> (#[trigger] end[start.len() + i]).step
                == DriverStep::Queue(requests[i]) && end[start.len() + i].outcome is Ok,
        end.last().step is Tick,
        end.last().outcome is Ok,
        after.shutdown_requested == (before.shutdown_requested || disconnected || has_shutdown(
            requests,
        )),
        after.exit_detected == before.exit_detected,
        after.interest == before.interest,
{
    let calls = since(start, end);
    let plan = prepare_plan(requests);
    assert(plan.len() == requests.len() + 1);
    assert(end =~= start + calls);
    assert forall|i: int| 0 <= i < requests.len() implies (#[trigger] end[start.len() + i]).step
        == DriverStep::Queue(requests[i]) && end[start.len() + i].outcome is Ok by {
        assert(end[start.len() + i] == calls[i]);
        assert(calls[i].step == plan[i]);
        assert(plan[i] == DriverStep::Queue(requests[i]));
    }
    let n = requests.len() as int;
    assert(end.last() == calls[n]);
    assert(calls[n].step == plan[n]);
    assert(plan[n] == DriverStep::Tick);
    assert(asks_to_end(requests, disconnected) == (disconnected || has_shutdown(requests)));
}

/// Before a wait the requests are handed to the terminal in the order in which
/// they came, and then it gets its tick. A request to shut down, and a loop that
/// nobody can reach any more, end the loop with the cycle.
pub proof fn requests_are_handed_over_in_order<D: Driver, H: RuntimeHooks<D>>(
    before: RunPoint<H>,
    requests: Seq<TerminalRequest>,
    disconnected: bool,
    reports: Seq<Readiness>,
    after: RunPoint<H>,
)
    requires
        before.run.stage is Prepare,
        stage_done::<D, H>(before, requests, disconnected, reports, after, Ok(())),
    ensures
        ({
            let n = before.driver.calls.len() as int;
            let calls = after.driver.calls;
            &&& before.driver.calls.is_prefix_of(calls)
            &&& calls.len() == n + requests.len() + 1
            &&& forall|i: int|
                0 <= i < requests.len() ==> (#[trigger] calls[n + i]).step == DriverStep::Queue(
                    requests[i],
                )
            &&& calls.last().step is Tick
            &&& after.run.state.shutdown_requested == (before.run.state.shutdown_requested
                || disconnected || has_shutdown(requests))
            &&& after.run.state.exit_detected == before.run.state.exit_detected
            &&& requests_left(before, requests, after).len() == 0
        }),
{
    lemma_prepared_in_order(
        before.run.state,
        before.driver.calls,
        requests,
        disconnected,
        after.run.state,
        after.driver.calls,
    );
}

/// A request that the terminal does not take ends the stage: it was the last that
/// was handed over, and those after it are left.
pub proof fn refused_request_leaves_the_rest<D: Driver, H: RuntimeHooks<D>>(
    before: RunPoint<H>,
    requests: Seq<TerminalRequest>,
    disconnected: bool,
    reports: Seq<Readiness>,
    after: RunPoint<H>,
    error: Error,
)
    requires
        before.run.stage is Prepare,
        stage_done::<D, H>(before, requests, disconnected, reports, after, Err(error)),
    ensures
        ({
            let made = fresh(before, after).len() as int;
            &&& made > 0
            &&& after.driver.calls.last().outcome == Err::<Option<ExitStatus>, _>(error)
            &&& made <= requests.len() ==> after.driver.calls.last().step == DriverStep::Queue(
                requests[made - 1],
            ) && requests_left(before, requests, after) == requests.skip(made)
            &&& made > requests.len() ==> after.driver.calls.last().step is Tick && requests_left(
                before,
                requests,
                after,
            ).len() == 0
        }),
{
    let calls = since(before.driver.calls, after.driver.calls);
    let plan = prepare_plan(requests);
    let n = calls.len() - 1;
    assert(after.driver.calls.last() == calls.last());
    assert(calls[n].step == plan[n]);
    assert(plan.len() == requests.len() + 1);
    if n < requests.len() {
        assert(plan[n] == DriverStep::Queue(requests[n]));
        if calls.len() == requests.len() {
            assert(requests.skip(calls.len() as int) =~= Seq::empty());
        }
    } else {
        assert(plan[n] == DriverStep::Tick);
    }
}

/// What the operating system reports, as steps of the terminal: the session can
/// be read, then written; the child may have exited; a wake has no step.
pub open spec fn due_steps(events: Seq<Readiness>) -> Seq<DriverStep>
    decreases events.len(),
{
    if events.len() == 0 {
        Seq::empty()
    } else {
        let rest = due_steps(events.drop_last());
        let event = events.last();
        if event.token == 0 {
            if event.readable && event.writable {
                rest.push(DriverStep::Readable).push(DriverStep::Writable)
            } else if event.readable {
                rest.push(DriverStep::Readable)
            } else if event.writable {
                rest.push(DriverStep::Writable)
            } else {
                rest
            }
        } else if event.token == 1 {
            rest.push(DriverStep::CheckExit)
        } else {
            rest
        }
    }
}

proof fn lemma_due_steps(events: Seq<Readiness>)
    ensures
        reports_plan(events) == due_steps(events),
    decreases events.len(),
{
    if events.len() > 0 {
        lemma_due_steps(events.drop_last());
        assert(reports_plan(events) =~= due_steps(events));
        assert(report_plan(events.last()).len() <= 2);
    }
}

/// After a wait the terminal does what the operating system has reported, in that
/// order and nothing else, and an exit that it finds on the way is noted.
pub proof fn reports_are_acted_on<D: Driver, H: RuntimeHooks<D>>(
    before: RunPoint<H>,
    requests: Seq<TerminalRequest>,
    disconnected: bool,
    reports: Seq<Readiness>,
    after: RunPoint<H>,
)
    requires
        before.run.stage is Dispatch,
        stage_done::<D, H>(before, requests, disconnected, reports, after, Ok(())),
    ensures
        ({
            let calls = fresh(before, after);
            let due = due_steps(reports);
            &&& before.driver.calls.is_prefix_of(after.driver.calls)
            &&& calls.len() == due.len()
            &&& forall|i: int| 0 <= i < due.len() ==> (#[trigger] calls[i]).step == due[i]
            &&& after.run.state.exit_detected == (before.run.state.exit_detected || exists|i: int|
                0 <= i < calls.len() && (#[trigger] calls[i]).outcome matches Ok(Some(_)))
            &&& after.run.state.shutdown_requested == before.run.state.shutdown_requested
            &&& after.run.state.interest == before.run.state.interest
        }),
{
    lemma_due_steps(reports);
    let calls = fresh(before, after);
    assert(calls == since(before.driver.calls, after.driver.calls));
    assert(found_exit(calls) == exists|i: int|
        0 <= i < calls.len() && (#[trigger] calls[i]).outcome matches Ok(Some(_)));
}

/// Once the reports are dealt with, requests that have come meanwhile are handed
/// over and the terminal gets its tick; and unless an exit is known already, it
/// is asked for one.
pub proof fn cycle_asks_for_the_exit<D: Driver, H: RuntimeHooks<D>>(
    before: RunPoint<H>,
    requests: Seq<TerminalRequest>,
    disconnected: bool,
    reports: Seq<Readiness>,
    after: RunPoint<H>,
)
    requires
        before.run.stage is AfterWait,
        stage_done::<D, H>(before, requests, disconnected, reports, after, Ok(())),
    ensures
        ({
            let n = before.driver.calls.len() as int;
            let calls = after.driver.calls;
            let known = before.run.state.exit_detected;
            &&& before.driver.calls.is_prefix_of(calls)
            &&& calls.len() == n + requests.len() + if known {
                1
            } else {
                2int
            }
            &&& forall|i: int|
                0 <= i < requests.len() ==> (#[trigger] calls[n + i]).step == DriverStep::Queue(
                    requests[i],
                )
            &&& calls[n + requests.len()].step is Tick
            &&& !known ==> calls.last().step is CheckExit
            &&& after.run.state.exit_detected == (known || (calls.last().step is CheckExit && (
            calls.last().outcome matches Ok(Some(_)))))
            &&& after.run.state.shutdown_requested == (before.run.state.shutdown_requested
                || disconnected || has_shutdown(requests))
        }),
{
    let state = before.run.state;
    let start = before.driver.calls;
    let end = after.driver.calls;
    let (ready, made, q) = choose|ready: RuntimeLoop, made: Seq<DriverCall>, q: Result<(), Error>|
        {
            &&& #[trigger] prepared(state, start, requests, disconnected, ready, made, q)
            &&& if q is Err || state.exit_detected {
                after.run.state == ready && end == made && Ok::<(), Error>(()) == q
            } else {
                exit_looked_for(ready, made, after.run.state, end, Ok(()))
            }
        };
    lemma_prepared_in_order(state, start, requests, disconnected, ready, made);
    if !state.exit_detected {
        assert forall|i: int| 0 <= i < requests.len() implies (#[trigger] end[start.len()
            + i]).step == DriverStep::Queue(requests[i]) by {
            assert(end[start.len() + i] == made[start.len() + i]);
        }
        assert(end[start.len() as int + requests.len()] == made.last());
    }
}

/// At the end of a cycle the session is registered for writing exactly while
/// output waits: anew where that has changed, and not otherwise. The loop stops
/// where it was asked to, or the child has exited.
pub proof fn interest_follows_the_output(
    before: RuntimeLoop,
    start: Seq<DriverCall>,
    pending: bool,
    after: RuntimeLoop,
    end: Seq<DriverCall>,
    next: LoopNext,
)
    requires
        before.interest.readable,
        settled(before, start, pending, after, end, Ok(next)),
    ensures
        after.interest.readable,
        after.interest.writable == pending,
        after.exit_detected == before.exit_detected,
        after.shutdown_requested == before.shutdown_requested,
        next is Stop == (before.exit_detected || before.shutdown_requested),
        before.interest.writable == pending ==> end == start,
        before.interest.writable != pending ==> end.len() == start.len() + 1 && start.is_prefix_of(
            end,
        ) && (end.last().step matches DriverStep::Reregister { interest, io_token, child_token }
            && interest.readable && interest.writable == pending && io_token == 0 && child_token
            == 1),
{
}

/// A wait ends when the next maintenance is due, at once where it is overdue, and
/// lasts until something happens where none is.
pub proof fn wait_ends_at_the_deadline(deadline: Option<u64>, now: u64)
    ensures
        deadline is None ==> wait_until(deadline, now) is None,
        deadline matches Some(due) ==> (wait_until(deadline, now) matches Some(wait) && if due
            > now {
            now + wait == due
        } else {
            wait == 0
        }),
{
}

} // verus!
