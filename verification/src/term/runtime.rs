//! The event loop that drives a terminal: what it does before and after each
//! wait for the operating system.

use std::collections::VecDeque;

use vstd::prelude::*;

use crate::pty::session::ExitStatus;
use crate::pty::ssh::Readiness;
use crate::term::engine::TerminalRequest;
use crate::term::error::Error;

verus! {

/// Readiness of the session's input and output.
pub const PTY_IO_TOKEN: usize = 0;

/// News of the session's child.
pub const PTY_CHILD_TOKEN: usize = 1;

/// Requests that wait for the loop.
pub const RUNTIME_WAKE_TOKEN: usize = 2;

/// How many events one wait can bring.
pub const DEFAULT_EVENT_CAPACITY: usize = 128;

/// The readiness that the loop asks to hear of.
#[derive(Debug, Clone, Copy, PartialEq, Eq, Structural)]
pub struct Interest {
    pub readable: bool,
    pub writable: bool,
}

/// Something that the loop asks of a driver.
#[derive(Debug)]
pub enum DriverStep {
    Register { interest: Interest, io_token: usize, child_token: usize },
    Reregister { interest: Interest, io_token: usize, child_token: usize },
    Deregister,
    Readable,
    Writable,
    Tick,
    Queue(TerminalRequest),
    CheckExit,
}

/// A call to a driver with its outcome, as it stands in the record of calls.
/// Only a question for the exit of the child can bring a status.
#[derive(Debug)]
pub struct DriverCall {
    pub step: DriverStep,
    pub outcome: Result<Option<ExitStatus>, Error>,
}

/// The outcome of a call that brings nothing.
pub open spec fn plain(r: Result<(), Error>) -> Result<Option<ExitStatus>, Error> {
    match r {
        Ok(_) => Ok(None),
        Err(error) => Err(error),
    }
}

/// The record of a call that brings nothing.
pub open spec fn call_of(step: DriverStep, r: Result<(), Error>) -> DriverCall {
    DriverCall { step, outcome: plain(r) }
}

/// The step by which the session joins the poller.
pub open spec fn register_step(interest: Interest, io_token: usize, child_token: usize) -> DriverStep {
    DriverStep::Register { interest, io_token, child_token }
}

/// The step by which the loop asks to hear of other readiness.
pub open spec fn reregister_step(
    interest: Interest,
    io_token: usize,
    child_token: usize,
) -> DriverStep {
    DriverStep::Reregister { interest, io_token, child_token }
}

/// A terminal as the loop drives it.
///
/// `calls` stands for the record of the calls so far, in order, `pending` for
/// whether output waits and `deadline` for when the next maintenance is due. A
/// driver that is itself verified says what they are.
pub trait Driver {
    open spec fn calls(&self) -> Seq<DriverCall> {
        Seq::empty()
    }

    open spec fn pending(&self) -> bool {
        false
    }

    open spec fn deadline(&self) -> Option<u64> {
        None
    }

    /// Register the session with the poller.
    fn register(&mut self, interest: Interest, io_token: usize, child_token: usize) -> (r: Result<
        (),
        Error,
    >)
        ensures
            final(self).calls() == old(self).calls().push(
                call_of(register_step(interest, io_token, child_token), r),
            ),
    ;

    /// Ask to hear of other readiness.
    fn reregister(&mut self, interest: Interest, io_token: usize, child_token: usize) -> (r: Result<
        (),
        Error,
    >)
        ensures
            final(self).calls() == old(self).calls().push(
                call_of(reregister_step(interest, io_token, child_token), r),
            ),
    ;

    /// Take the session out of the poller.
    fn deregister(&mut self) -> (r: Result<(), Error>)
        ensures
            final(self).calls() == old(self).calls().push(call_of(DriverStep::Deregister, r)),
    ;

    /// The session can be read.
    fn on_readable(&mut self) -> (r: Result<(), Error>)
        ensures
            final(self).calls() == old(self).calls().push(call_of(DriverStep::Readable, r)),
    ;

    /// The session can be written.
    fn on_writable(&mut self) -> (r: Result<(), Error>)
        ensures
            final(self).calls() == old(self).calls().push(call_of(DriverStep::Writable, r)),
    ;

    /// Regular maintenance.
    fn tick(&mut self) -> (r: Result<(), Error>)
        ensures
            final(self).calls() == old(self).calls().push(call_of(DriverStep::Tick, r)),
    ;

    /// Queue a request.
    fn queue(&mut self, request: TerminalRequest) -> (r: Result<(), Error>)
        ensures
            final(self).calls() == old(self).calls().push(call_of(DriverStep::Queue(request), r)),
    ;

    /// Whether output waits for the session.
    fn has_pending_output(&self) -> (r: bool)
        ensures
            r == self.pending(),
    ;

    /// Whether the child has exited.
    fn check_child_exit(&mut self) -> (r: Result<Option<ExitStatus>, Error>)
        ensures
            final(self).calls() == old(self).calls().push(
                (DriverCall { step: DriverStep::CheckExit, outcome: r }),
            ),
    ;

    /// When the next maintenance is due.
    fn next_deadline(&self) -> (deadline: Option<u64>)
        ensures
            deadline == self.deadline(),
    ;
}

/// The mathematical value of a driver.
#[verifier::ext_equal]
pub struct DriverModel {
    pub calls: Seq<DriverCall>,
    pub pending: bool,
    pub deadline: Option<u64>,
}

/// The mathematical value of a driver.
pub open spec fn model_of<D: Driver + ?Sized>(driver: &D) -> DriverModel {
    DriverModel { calls: driver.calls(), pending: driver.pending(), deadline: driver.deadline() }
}

/// What runs right before and after each wait.
///
/// `before_ran` and `after_ran` stand for what the two hooks do: to themselves,
/// and to the driver, which has the value `left` afterwards. Hooks that are
/// themselves verified say what that is.
pub trait RuntimeHooks<T: Driver + ?Sized> {
    open spec fn before_ran(
        &self,
        driver: DriverModel,
        after: &Self,
        left: DriverModel,
        r: Result<(), Error>,
    ) -> bool {
        true
    }

    open spec fn after_ran(
        &self,
        driver: DriverModel,
        after: &Self,
        left: DriverModel,
        r: Result<(), Error>,
    ) -> bool {
        true
    }

    /// Called right before the wait.
    fn before_poll(&mut self, driver: &mut T) -> (r: Result<(), Error>)
        ensures
            old(self).before_ran(model_of(old(driver)), &*final(self), model_of(final(driver)), r),
    ;

    /// Called right after the wait was dealt with.
    fn after_poll(&mut self, driver: &mut T) -> (r: Result<(), Error>)
        ensures
            old(self).after_ran(model_of(old(driver)), &*final(self), model_of(final(driver)), r),
    ;
}

impl<T: Driver + ?Sized> RuntimeHooks<T> for () {
    open spec fn before_ran(
        &self,
        driver: DriverModel,
        after: &Self,
        left: DriverModel,
        r: Result<(), Error>,
    ) -> bool {
        left == driver && r is Ok
    }

    open spec fn after_ran(
        &self,
        driver: DriverModel,
        after: &Self,
        left: DriverModel,
        r: Result<(), Error>,
    ) -> bool {
        left == driver && r is Ok
    }

    fn before_poll(&mut self, _driver: &mut T) -> (r: Result<(), Error>) {
        Ok(())
    }

    fn after_poll(&mut self, _driver: &mut T) -> (r: Result<(), Error>) {
        Ok(())
    }
}

/// Whether the calls carry out a plan: step by step up to its end, or up to the
/// first call that fails, whose error is the result.
pub open spec fn carried_out(
    plan: Seq<DriverStep>,
    calls: Seq<DriverCall>,
    r: Result<(), Error>,
) -> bool {
    &&& calls.len() <= plan.len()
    &&& forall|i: int| 0 <= i < calls.len() ==> (#[trigger] calls[i]).step == plan[i]
    &&& forall|i: int| 0 <= i < calls.len() - 1 ==> (#[trigger] calls[i]).outcome is Ok
    &&& match r {
        Ok(_) => calls.len() == plan.len() && (calls.len() > 0 ==> calls.last().outcome is Ok),
        Err(error) => calls.len() > 0 && calls.last().outcome == Err::<Option<ExitStatus>, _>(
            error,
        ),
    }
}

/// The calls that a driver got between two of its states.
pub open spec fn since(before: Seq<DriverCall>, after: Seq<DriverCall>) -> Seq<DriverCall> {
    after.skip(before.len() as int)
}

/// Whether the calls of a driver grew by those that carry out a plan.
pub open spec fn went_through(
    plan: Seq<DriverStep>,
    before: Seq<DriverCall>,
    after: Seq<DriverCall>,
    r: Result<(), Error>,
) -> bool {
    after == before + since(before, after) && carried_out(plan, since(before, after), r)
}

/// The plan for requests that have come.
pub open spec fn queue_plan(requests: Seq<TerminalRequest>) -> Seq<DriverStep> {
    requests.map_values(|r: TerminalRequest| DriverStep::Queue(r))
}

/// The plan before a wait: the requests that have come, and the maintenance.
pub open spec fn prepare_plan(requests: Seq<TerminalRequest>) -> Seq<DriverStep> {
    queue_plan(requests).push(DriverStep::Tick)
}

/// The plan for one report of the poller.
pub open spec fn report_plan(event: Readiness) -> Seq<DriverStep> {
    if event.token == PTY_IO_TOKEN {
        (if event.readable {
            seq![DriverStep::Readable]
        } else {
            Seq::empty()
        }) + (if event.writable {
            seq![DriverStep::Writable]
        } else {
            Seq::empty()
        })
    } else if event.token == PTY_CHILD_TOKEN {
        seq![DriverStep::CheckExit]
    } else {
        Seq::empty()
    }
}

/// The plan for the reports of one wait.
pub open spec fn reports_plan(events: Seq<Readiness>) -> Seq<DriverStep>
    decreases events.len(),
{
    if events.len() == 0 {
        Seq::empty()
    } else {
        reports_plan(events.drop_last()) + report_plan(events.last())
    }
}

/// Whether one of the calls found that the child has exited.
pub open spec fn found_exit(calls: Seq<DriverCall>) -> bool {
    exists|i: int| 0 <= i < calls.len() && (#[trigger] calls[i]).outcome matches Ok(Some(_))
}

/// Whether the loop is asked to end: by a request, or because nobody can send
/// requests any more.
pub open spec fn asks_to_end(requests: Seq<TerminalRequest>, disconnected: bool) -> bool {
    disconnected || exists|i: int| 0 <= i < requests.len() && (#[trigger] requests[i]) is Shutdown
}

/// How long to wait for the operating system: until the deadline.
pub open spec fn wait_until(deadline: Option<u64>, now: u64) -> Option<u64> {
    match deadline {
        Some(deadline) => Some(
            if deadline > now {
                (deadline - now) as u64
            } else {
                0
            },
        ),
        None => None,
    }
}

/// What the loop does after a cycle.
#[derive(Debug, Clone, Copy, PartialEq, Eq, Structural)]
pub enum LoopNext {
    Continue,
    Stop,
}

/// The state of the loop.
#[derive(Debug, Clone, Copy, PartialEq, Eq, Structural)]
pub struct RuntimeLoop {
    pub interest: Interest,
    pub shutdown_requested: bool,
    pub exit_detected: bool,
}

/// The loop once it knows whether it was asked to end.
pub open spec fn asked(state: RuntimeLoop, requests: Seq<TerminalRequest>, disconnected: bool) -> RuntimeLoop {
    RuntimeLoop {
        shutdown_requested: state.shutdown_requested || asks_to_end(requests, disconnected),
        ..state
    }
}

/// The requests that have come are queued, and the maintenance follows. Once all
/// are queued, the loop knows whether it was asked to end.
pub open spec fn prepared(
    before: RuntimeLoop,
    calls_before: Seq<DriverCall>,
    requests: Seq<TerminalRequest>,
    disconnected: bool,
    after: RuntimeLoop,
    calls_after: Seq<DriverCall>,
    r: Result<(), Error>,
) -> bool {
    &&& went_through(prepare_plan(requests), calls_before, calls_after, r)
    &&& after == (if since(calls_before, calls_after).len() > requests.len() {
        asked(before, requests, disconnected)
    } else {
        before
    })
}

/// The reports of a wait are dealt with. An exit that is found on the way is
/// noted.
pub open spec fn dispatched(
    before: RuntimeLoop,
    calls_before: Seq<DriverCall>,
    events: Seq<Readiness>,
    after: RuntimeLoop,
    calls_after: Seq<DriverCall>,
    r: Result<(), Error>,
) -> bool {
    &&& went_through(reports_plan(events), calls_before, calls_after, r)
    &&& after == (RuntimeLoop {
        exit_detected: before.exit_detected || found_exit(since(calls_before, calls_after)),
        ..before
    })
}

/// What follows the reports of a wait: the requests that have come meanwhile and
/// the maintenance, and unless an exit was found before, the question for one.
pub open spec fn waited(
    before: RuntimeLoop,
    calls_before: Seq<DriverCall>,
    requests: Seq<TerminalRequest>,
    disconnected: bool,
    after: RuntimeLoop,
    calls_after: Seq<DriverCall>,
    r: Result<(), Error>,
) -> bool {
    exists|ready: RuntimeLoop, calls: Seq<DriverCall>, q: Result<(), Error>|
        {
            &&& #[trigger] prepared(
                before,
                calls_before,
                requests,
                disconnected,
                ready,
                calls,
                q,
            )
            &&& if q is Err || before.exit_detected {
                after == ready && calls_after == calls && r == q
            } else {
                exit_looked_for(ready, calls, after, calls_after, r)
            }
        }
}

/// The driver is asked whether the child has exited.
pub open spec fn exit_looked_for(
    before: RuntimeLoop,
    calls_before: Seq<DriverCall>,
    after: RuntimeLoop,
    calls_after: Seq<DriverCall>,
    r: Result<(), Error>,
) -> bool {
    &&& calls_after.len() == calls_before.len() + 1
    &&& calls_after == calls_before.push(calls_after.last())
    &&& calls_after.last().step == DriverStep::CheckExit
    &&& match calls_after.last().outcome {
        Ok(status) => r is Ok && after == (RuntimeLoop {
            exit_detected: before.exit_detected || status is Some,
            ..before
        }),
        Err(error) => r == Err::<(), _>(error) && after == before,
    }
}

/// The readiness that the loop wants to hear of: that the session can be
/// written exactly as long as output waits.
pub open spec fn wanted(pending: bool) -> Interest {
    Interest { readable: true, writable: pending }
}

/// What the loop does next.
pub open spec fn next_of(state: RuntimeLoop) -> LoopNext {
    if state.exit_detected || state.shutdown_requested {
        LoopNext::Stop
    } else {
        LoopNext::Continue
    }
}

/// The end of a cycle: the driver is asked for other readiness where the loop
/// wants other readiness than before.
pub open spec fn settled(
    before: RuntimeLoop,
    calls_before: Seq<DriverCall>,
    pending: bool,
    after: RuntimeLoop,
    calls_after: Seq<DriverCall>,
    r: Result<LoopNext, Error>,
) -> bool {
    if wanted(pending) == before.interest {
        after == before && calls_after == calls_before && r == Ok::<_, Error>(next_of(before))
    } else {
        &&& calls_after.len() == calls_before.len() + 1
        &&& calls_after == calls_before.push(calls_after.last())
        &&& calls_after.last().step == reregister_step(
            wanted(pending),
            PTY_IO_TOKEN,
            PTY_CHILD_TOKEN,
        )
        &&& match calls_after.last().outcome {
            Ok(_) => after == (RuntimeLoop { interest: wanted(pending), ..before }) && r == Ok::<
                _,
                Error,
            >(next_of(before)),
            Err(error) => after == before && r == Err::<LoopNext, _>(error),
        }
    }
}

/// Carried out, a plan can be followed by another.
proof fn lemma_carried_on(
    first: Seq<DriverStep>,
    calls: Seq<DriverCall>,
    second: Seq<DriverStep>,
    more: Seq<DriverCall>,
    r: Result<(), Error>,
)
    requires
        carried_out(first, calls, Ok(())),
        carried_out(second, more, r),
    ensures
        carried_out(first + second, calls + more, r),
{
    let plan = first + second;
    let all = calls + more;
    assert forall|i: int| 0 <= i < all.len() implies (#[trigger] all[i]).step == plan[i] by {
        if i < calls.len() {
            assert(all[i] == calls[i]);
        } else {
            assert(all[i] == more[i - calls.len()]);
        }
    }
    assert forall|i: int| 0 <= i < all.len() - 1 implies (#[trigger] all[i]).outcome is Ok by {
        if i < calls.len() - 1 {
            assert(all[i] == calls[i]);
        } else if i < calls.len() {
            assert(all[i] == calls.last());
        } else {
            assert(all[i] == more[i - calls.len()]);
        }
    }
    if more.len() > 0 {
        assert(all.last() == more.last());
    } else {
        assert(all =~= calls);
        assert(plan =~= first);
    }
}

/// A plan that failed has failed as the beginning of a longer one too.
proof fn lemma_failed_early(
    first: Seq<DriverStep>,
    calls: Seq<DriverCall>,
    second: Seq<DriverStep>,
    error: Error,
)
    requires
        carried_out(first, calls, Err(error)),
    ensures
        carried_out(first + second, calls, Err(error)),
{
    let plan = first + second;
    assert forall|i: int| 0 <= i < calls.len() implies (#[trigger] calls[i]).step == plan[i] by {
        assert(plan[i] == first[i]);
    }
}

proof fn lemma_single(step: DriverStep, call: DriverCall, r: Result<(), Error>)
    requires
        call.step == step,
        match r {
            Ok(_) => call.outcome is Ok,
            Err(error) => call.outcome == Err::<Option<ExitStatus>, _>(error),
        },
    ensures
        carried_out(seq![step], seq![call], r),
{
    assert(seq![call].last() == call);
}

proof fn lemma_nothing(r: Result<(), Error>)
    requires
        r is Ok,
    ensures
        carried_out(Seq::empty(), Seq::empty(), r),
{
}

proof fn lemma_through(
    first: Seq<DriverStep>,
    second: Seq<DriverStep>,
    before: Seq<DriverCall>,
    middle: Seq<DriverCall>,
    after: Seq<DriverCall>,
    r: Result<(), Error>,
)
    requires
        went_through(first, before, middle, Ok(())),
        went_through(second, middle, after, r),
    ensures
        went_through(first + second, before, after, r),
        since(before, after) == since(before, middle) + since(middle, after),
{
    let calls = since(before, middle);
    let more = since(middle, after);
    assert(since(before, after) =~= calls + more);
    assert(after =~= before + (calls + more));
    lemma_carried_on(first, calls, second, more, r);
}

proof fn lemma_through_failed(
    first: Seq<DriverStep>,
    second: Seq<DriverStep>,
    before: Seq<DriverCall>,
    after: Seq<DriverCall>,
    error: Error,
)
    requires
        went_through(first, before, after, Err(error)),
    ensures
        went_through(first + second, before, after, Err(error)),
{
    lemma_failed_early(first, since(before, after), second, error);
}

proof fn lemma_one_call(
    step: DriverStep,
    before: Seq<DriverCall>,
    call: DriverCall,
    r: Result<(), Error>,
)
    requires
        call.step == step,
        match r {
            Ok(_) => call.outcome is Ok,
            Err(error) => call.outcome == Err::<Option<ExitStatus>, _>(error),
        },
    ensures
        went_through(seq![step], before, before.push(call), r),
        since(before, before.push(call)) == seq![call],
{
    let after = before.push(call);
    assert(since(before, after) =~= seq![call]);
    assert(after =~= before + seq![call]);
    lemma_single(step, call, r);
}

proof fn lemma_no_calls(calls: Seq<DriverCall>)
    ensures
        went_through(Seq::empty(), calls, calls, Ok(())),
        since(calls, calls) == Seq::<DriverCall>::empty(),
{
    assert(since(calls, calls) =~= Seq::empty());
    assert(calls =~= calls + Seq::<DriverCall>::empty());
    lemma_nothing(Ok(()));
}

proof fn lemma_found_exit(a: Seq<DriverCall>, b: Seq<DriverCall>)
    ensures
        found_exit(a + b) == (found_exit(a) || found_exit(b)),
{
    let all = a + b;
    if found_exit(a) {
        let i = choose|i: int| 0 <= i < a.len() && (#[trigger] a[i]).outcome matches Ok(Some(_));
        assert(all[i] == a[i]);
    }
    if found_exit(b) {
        let i = choose|i: int| 0 <= i < b.len() && (#[trigger] b[i]).outcome matches Ok(Some(_));
        assert(all[a.len() + i] == b[i]);
    }
    if found_exit(all) {
        let i = choose|i: int|
            0 <= i < all.len() && (#[trigger] all[i]).outcome matches Ok(Some(_));
        if i < a.len() {
            assert(all[i] == a[i]);
        } else {
            assert(all[i] == b[i - a.len()]);
        }
    }
}

proof fn lemma_asks_more(requests: Seq<TerminalRequest>, done: int)
    requires
        0 <= done < requests.len(),
    ensures
        asks_to_end(requests.take(done + 1), false) == (asks_to_end(requests.take(done), false)
            || requests[done] is Shutdown),
{
    let less = requests.take(done);
    let more = requests.take(done + 1);
    if asks_to_end(less, false) {
        let i = choose|i: int| 0 <= i < less.len() && (#[trigger] less[i]) is Shutdown;
        assert(more[i] is Shutdown);
    }
    if requests[done] is Shutdown {
        assert(more[done] is Shutdown);
    }
    if asks_to_end(more, false) && !(requests[done] is Shutdown) {
        let i = choose|i: int| 0 <= i < more.len() && (#[trigger] more[i]) is Shutdown;
        assert(less[i] is Shutdown);
    }
}

/// The requests that are left over after the given number of calls, each of
/// which has taken one as long as there were any.
pub open spec fn left_over(requests: Seq<TerminalRequest>, calls: nat) -> Seq<TerminalRequest> {
    if calls < requests.len() {
        requests.skip(calls as int)
    } else {
        Seq::empty()
    }
}

/// Queue requests; whether one of them asks to end the loop.
fn queue_all<D: Driver>(driver: &mut D, requests: &mut VecDeque<TerminalRequest>) -> (r: Result<
    bool,
    Error,
>)
    ensures
        match r {
            Ok(shutdown) => {
                &&& shutdown == asks_to_end(old(requests)@, false)
                &&& went_through(
                    queue_plan(old(requests)@),
                    old(driver).calls(),
                    final(driver).calls(),
                    Ok(()),
                )
            },
            Err(error) => went_through(
                queue_plan(old(requests)@),
                old(driver).calls(),
                final(driver).calls(),
                Err(error),
            ),
        },
        final(requests)@ == left_over(
            old(requests)@,
            since(old(driver).calls(), final(driver).calls()).len(),
        ),
        !found_exit(since(old(driver).calls(), final(driver).calls())),
{
    let ghost all = requests@;
    let ghost before = driver.calls();
    let mut shutdown = false;
    let ghost mut done: int = 0;
    proof {
        lemma_no_calls(before);
        assert(queue_plan(all.take(0)) =~= Seq::empty());
        assert(requests@ =~= all.skip(0));
    }
    while requests.len() > 0
        invariant
            0 <= done <= all.len(),
            all == old(requests)@,
            before == old(driver).calls(),
            requests@ == all.skip(done),
            since(before, driver.calls()).len() == done,
            shutdown == asks_to_end(all.take(done), false),
            went_through(queue_plan(all.take(done)), before, driver.calls(), Ok(())),
            !found_exit(since(before, driver.calls())),
        decreases requests@.len(),
    {
        if let Some(request) = requests.pop_front() {
            let ghost middle = driver.calls();
            let ghost step = DriverStep::Queue(request);
            proof {
                assert(request == all[done]);
                lemma_asks_more(all, done);
                assert(requests@ =~= all.skip(done + 1));
                assert(queue_plan(all.take(done)) + seq![step] =~= queue_plan(
                    all.take(done + 1),
                ));
            }
            if let TerminalRequest::Shutdown = &request {
                shutdown = true;
            }
            let outcome = driver.queue(request);
            proof {
                let call = call_of(step, outcome);
                lemma_one_call(step, middle, call, outcome);
                lemma_through(
                    queue_plan(all.take(done)),
                    seq![step],
                    before,
                    middle,
                    driver.calls(),
                    outcome,
                );
                lemma_found_exit(since(before, middle), seq![call]);
                if outcome is Err {
                    let error = outcome->Err_0;
                    assert(queue_plan(all.take(done + 1)) + queue_plan(all.skip(done + 1))
                        =~= queue_plan(all));
                    lemma_through_failed(
                        queue_plan(all.take(done + 1)),
                        queue_plan(all.skip(done + 1)),
                        before,
                        driver.calls(),
                        error,
                    );
                    assert(requests@ =~= left_over(all, (done + 1) as nat));
                }
            }
            match outcome {
                Ok(()) => {},
                Err(error) => {
                    return Err(error);
                },
            }
            proof {
                done = done + 1;
            }
        }
    }
    assert(all.take(done) =~= all);
    assert(requests@ =~= Seq::empty());
    Ok(shutdown)
}

impl RuntimeLoop {
    /// A loop that has not begun: it asks to hear when the session can be
    /// read.
    pub fn new() -> (r: RuntimeLoop)
        ensures
            r == (RuntimeLoop {
                interest: wanted(false),
                shutdown_requested: false,
                exit_detected: false,
            }),
    {
        RuntimeLoop {
            interest: Interest { readable: true, writable: false },
            shutdown_requested: false,
            exit_detected: false,
        }
    }

    /// Begin: register the session.
    pub fn start<D: Driver>(&self, driver: &mut D) -> (r: Result<(), Error>)
        ensures
            final(driver).calls() == old(driver).calls().push(
                call_of(register_step(self.interest, PTY_IO_TOKEN, PTY_CHILD_TOKEN), r),
            ),
    {
        driver.register(self.interest, PTY_IO_TOKEN, PTY_CHILD_TOKEN)
    }

    /// Queue the requests that have come, and note whether the loop is to end.
    /// Where one fails, those after it are left over.
    pub fn drain_runtime_requests<D: Driver>(
        &mut self,
        driver: &mut D,
        requests: &mut VecDeque<TerminalRequest>,
        disconnected: bool,
    ) -> (r: Result<(), Error>)
        ensures
            went_through(
                queue_plan(old(requests)@),
                old(driver).calls(),
                final(driver).calls(),
                r,
            ),
            final(requests)@ == left_over(
                old(requests)@,
                since(old(driver).calls(), final(driver).calls()).len(),
            ),
            !found_exit(since(old(driver).calls(), final(driver).calls())),
            *final(self) == (if r is Ok {
                asked(*old(self), old(requests)@, disconnected)
            } else {
                *old(self)
            }),
    {
        match queue_all(driver, requests) {
            Ok(shutdown) => {
                if shutdown || disconnected {
                    self.shutdown_requested = true;
                }
                Ok(())
            },
            Err(error) => Err(error),
        }
    }

    /// What is done before a wait, after the hook: queue the requests that have
    /// come and let the driver do its maintenance.
    pub fn prepare<D: Driver>(
        &mut self,
        driver: &mut D,
        requests: &mut VecDeque<TerminalRequest>,
        disconnected: bool,
    ) -> (r: Result<(), Error>)
        ensures
            prepared(
                *old(self),
                old(driver).calls(),
                old(requests)@,
                disconnected,
                *final(self),
                final(driver).calls(),
                r,
            ),
            final(requests)@ == left_over(
                old(requests)@,
                since(old(driver).calls(), final(driver).calls()).len(),
            ),
            !found_exit(since(old(driver).calls(), final(driver).calls())),
    {
        let ghost all = requests@;
        let ghost before = driver.calls();
        match self.drain_runtime_requests(driver, requests, disconnected) {
            Ok(()) => {},
            Err(error) => {
                proof {
                    lemma_through_failed(
                        queue_plan(all),
                        seq![DriverStep::Tick],
                        before,
                        driver.calls(),
                        error,
                    );
                    assert(queue_plan(all) + seq![DriverStep::Tick] =~= prepare_plan(all));
                    assert(queue_plan(all).len() == all.len());
                }
                return Err(error);
            },
        }
        let ghost middle = driver.calls();
        let r = driver.tick();
        proof {
            let call = call_of(DriverStep::Tick, r);
            lemma_one_call(DriverStep::Tick, middle, call, r);
            lemma_through(
                queue_plan(all),
                seq![DriverStep::Tick],
                before,
                middle,
                driver.calls(),
                r,
            );
            lemma_found_exit(since(before, middle), seq![call]);
            assert(queue_plan(all) + seq![DriverStep::Tick] =~= prepare_plan(all));
        }
        r
    }

    /// How long to wait for the operating system.
    pub fn wait_time<D: Driver>(&self, driver: &D, now: u64) -> (wait: Option<u64>)
        ensures
            wait == wait_until(driver.deadline(), now),
    {
        match driver.next_deadline() {
            Some(deadline) => Some(
                if deadline > now {
                    deadline - now
                } else {
                    0
                },
            ),
            None => None,
        }
    }

    fn dispatch_one<D: Driver>(&mut self, driver: &mut D, event: Readiness) -> (r: Result<
        (),
        Error,
    >)
        ensures
            went_through(report_plan(event), old(driver).calls(), final(driver).calls(), r),
            *final(self) == (RuntimeLoop {
                exit_detected: old(self).exit_detected || found_exit(
                    since(old(driver).calls(), final(driver).calls()),
                ),
                ..*old(self)
            }),
    {
        let ghost before = driver.calls();
        if event.token == PTY_IO_TOKEN {
            let ghost first: Seq<DriverStep> = if event.readable {
                seq![DriverStep::Readable]
            } else {
                Seq::empty()
            };
            let ghost second: Seq<DriverStep> = if event.writable {
                seq![DriverStep::Writable]
            } else {
                Seq::empty()
            };
            proof {
                lemma_no_calls(before);
            }
            if event.readable {
                let r = driver.on_readable();
                proof {
                    let call = call_of(DriverStep::Readable, r);
                    lemma_one_call(DriverStep::Readable, before, call, r);
                    lemma_quiet_call(call);
                }
                match r {
                    Ok(()) => {},
                    Err(error) => {
                        proof {
                            lemma_through_failed(first, second, before, driver.calls(), error);
                        }
                        return Err(error);
                    },
                }
            }
            let ghost middle = driver.calls();
            assert(went_through(first, before, middle, Ok(())));
            assert(!found_exit(since(before, middle)));
            if event.writable {
                let r = driver.on_writable();
                proof {
                    let call = call_of(DriverStep::Writable, r);
                    lemma_one_call(DriverStep::Writable, middle, call, r);
                    lemma_through(first, second, before, middle, driver.calls(), r);
                    lemma_quiet_call(call);
                    lemma_found_exit(since(before, middle), seq![call]);
                }
                r
            } else {
                proof {
                    lemma_no_calls(middle);
                    lemma_through(first, second, before, middle, middle, Ok(()));
                    lemma_found_exit(since(before, middle), Seq::empty());
                }
                Ok(())
            }
        } else if event.token == PTY_CHILD_TOKEN {
            let outcome = driver.check_child_exit();
            let ghost call = DriverCall { step: DriverStep::CheckExit, outcome };
            let ghost r: Result<(), Error> = if outcome is Ok {
                Ok(())
            } else {
                Err(outcome->Err_0)
            };
            proof {
                lemma_one_call(DriverStep::CheckExit, before, call, r);
                assert(seq![call][0] == call);
            }
            match outcome {
                Ok(status) => {
                    if status.is_some() {
                        self.exit_detected = true;
                    }
                    Ok(())
                },
                Err(error) => Err(error),
            }
        } else {
            proof {
                lemma_no_calls(before);
            }
            Ok(())
        }
    }

    /// Deal with the reports of one wait.
    pub fn dispatch<D: Driver>(&mut self, driver: &mut D, events: &Vec<Readiness>) -> (r: Result<
        (),
        Error,
    >)
        ensures
            dispatched(
                *old(self),
                old(driver).calls(),
                events@,
                *final(self),
                final(driver).calls(),
                r,
            ),
    {
        let ghost before = driver.calls();
        let mut i: usize = 0;
        proof {
            lemma_no_calls(before);
            assert(events@.take(0) =~= Seq::empty());
        }
        while i < events.len()
            invariant
                i <= events@.len(),
                before == old(driver).calls(),
                went_through(
                    reports_plan(events@.take(i as int)),
                    before,
                    driver.calls(),
                    Ok(()),
                ),
                *self == (RuntimeLoop {
                    exit_detected: old(self).exit_detected || found_exit(
                        since(before, driver.calls()),
                    ),
                    ..*old(self)
                }),
            decreases events@.len() - i,
        {
            let ghost middle = driver.calls();
            let r = self.dispatch_one(driver, events[i]);
            proof {
                assert(events@.take(i + 1).drop_last() =~= events@.take(i as int));
                lemma_through(
                    reports_plan(events@.take(i as int)),
                    report_plan(events@[i as int]),
                    before,
                    middle,
                    driver.calls(),
                    r,
                );
                lemma_found_exit(since(before, middle), since(middle, driver.calls()));
                if r is Err {
                    let error = r->Err_0;
                    lemma_reports_plan(events@.take(i + 1), events@.skip(i + 1));
                    assert(events@.take(i + 1) + events@.skip(i + 1) =~= events@);
                    lemma_through_failed(
                        reports_plan(events@.take(i + 1)),
                        reports_plan(events@.skip(i + 1)),
                        before,
                        driver.calls(),
                        error,
                    );
                }
            }
            match r {
                Ok(()) => {},
                Err(error) => return Err(error),
            }
            i += 1;
        }
        assert(events@.take(i as int) =~= events@);
        Ok(())
    }

    /// What is done after the reports of a wait, up to the hook: queue the
    /// requests that have come, let the driver do its maintenance, and look for
    /// an exit of the child unless one was found.
    pub fn after_wait<D: Driver>(
        &mut self,
        driver: &mut D,
        requests: &mut VecDeque<TerminalRequest>,
        disconnected: bool,
    ) -> (r: Result<(), Error>)
        ensures
            waited(
                *old(self),
                old(driver).calls(),
                old(requests)@,
                disconnected,
                *final(self),
                final(driver).calls(),
                r,
            ),
            final(requests)@ == left_over(
                old(requests)@,
                since(old(driver).calls(), final(driver).calls()).len(),
            ),
    {
        let prepare = self.prepare(driver, requests, disconnected);
        if prepare.is_err() || self.exit_detected {
            return prepare;
        }
        let ghost ready = *self;
        let ghost calls = driver.calls();
        let outcome = driver.check_child_exit();
        assert(since(old(driver).calls(), driver.calls()).len() > old(requests)@.len());
        assert(driver.calls().last() == (DriverCall { step: DriverStep::CheckExit, outcome }));
        match outcome {
            Ok(status) => {
                if status.is_some() {
                    self.exit_detected = true;
                }
                assert(exit_looked_for(ready, calls, *self, driver.calls(), Ok(())));
                Ok(())
            },
            Err(error) => {
                assert(exit_looked_for(ready, calls, *self, driver.calls(), Err(error)));
                Err(error)
            },
        }
    }

    /// The end of a cycle: ask to hear when the session can be written exactly
    /// as long as output waits, and say whether the loop goes on.
    pub fn settle<D: Driver>(&mut self, driver: &mut D) -> (r: Result<LoopNext, Error>)
        ensures
            settled(
                *old(self),
                old(driver).calls(),
                old(driver).pending(),
                *final(self),
                final(driver).calls(),
                r,
            ),
    {
        let desired = Interest { readable: true, writable: driver.has_pending_output() };
        if desired != self.interest {
            match driver.reregister(desired, PTY_IO_TOKEN, PTY_CHILD_TOKEN) {
                Ok(()) => {},
                Err(error) => return Err(error),
            }
            self.interest = desired;
        }
        if self.exit_detected || self.shutdown_requested {
            Ok(LoopNext::Stop)
        } else {
            Ok(LoopNext::Continue)
        }
    }

    /// What is done first in a cycle: the hook. The requests that have come are
    /// collected after it.
    pub fn before_wait<D: Driver, H: RuntimeHooks<D>>(&self, driver: &mut D, hooks: &mut H) -> (r:
        Result<(), Error>)
        ensures
            old(hooks).before_ran(model_of(old(driver)), &*final(hooks), model_of(final(driver)), r),
    {
        hooks.before_poll(driver)
    }

    /// The end of a cycle: the hook, and then `settle`.
    pub fn end_cycle<D: Driver, H: RuntimeHooks<D>>(
        &mut self,
        driver: &mut D,
        hooks: &mut H,
    ) -> (r: Result<LoopNext, Error>)
        ensures
            exists|left: DriverModel, q: Result<(), Error>|
                #[trigger] old(hooks).after_ran(model_of(old(driver)), &*final(hooks), left, q)
                    && match q {
                    Ok(_) => settled(
                        *old(self),
                        left.calls,
                        left.pending,
                        *final(self),
                        final(driver).calls(),
                        r,
                    ),
                    Err(error) => *final(self) == *old(self) && final(driver).calls() == left.calls
                        && r == Err::<LoopNext, _>(error),
                },
    {
        let q = hooks.after_poll(driver);
        let ghost outcome = q;
        assert(old(hooks).after_ran(model_of(old(driver)), &*hooks, model_of(driver), outcome));
        match q {
            Ok(()) => self.settle(driver),
            Err(error) => Err(error),
        }
    }

    /// End: take the session out of the poller.
    pub fn finish<D: Driver>(&self, driver: &mut D) -> (r: Result<(), Error>)
        ensures
            final(driver).calls() == old(driver).calls().push(call_of(DriverStep::Deregister, r)),
    {
        driver.deregister()
    }
}

proof fn lemma_quiet_call(call: DriverCall)
    requires
        !(call.outcome matches Ok(Some(_))),
    ensures
        !found_exit(seq![call]),
{
}

proof fn lemma_reports_plan(first: Seq<Readiness>, second: Seq<Readiness>)
    ensures
        reports_plan(first + second) == reports_plan(first) + reports_plan(second),
    decreases second.len(),
{
    if second.len() == 0 {
        assert(first + second =~= first);
        assert(reports_plan(first) + Seq::<DriverStep>::empty() =~= reports_plan(first));
    } else {
        lemma_reports_plan(first, second.drop_last());
        assert((first + second).drop_last() =~= first + second.drop_last());
        assert(reports_plan(first + second) =~= reports_plan(first) + reports_plan(second));
    }
}

/// A cycle whose calls all went well is the last one exactly where the loop was
/// asked to end or the child was found to have exited, before or in this cycle;
/// and from then on the loop hears of room for output exactly while output
/// waits.
pub proof fn cycle_ends_the_loop_when_due(
    before: RuntimeLoop,
    start: Seq<DriverCall>,
    events: Seq<Readiness>,
    reported: RuntimeLoop,
    reports: Seq<DriverCall>,
    requests: Seq<TerminalRequest>,
    disconnected: bool,
    middle: RuntimeLoop,
    calls: Seq<DriverCall>,
    pending: bool,
    after: RuntimeLoop,
    end: Seq<DriverCall>,
    next: LoopNext,
)
    requires
        dispatched(before, start, events, reported, reports, Ok(())),
        waited(reported, reports, requests, disconnected, middle, calls, Ok(())),
        settled(middle, calls, pending, after, end, Ok(next)),
    ensures
        next is Stop <==> before.exit_detected || before.shutdown_requested || asks_to_end(
            requests,
            disconnected,
        ) || found_exit(since(start, reports)) || (calls.last().step == DriverStep::CheckExit && (
        calls.last().outcome matches Ok(Some(_)))),
        after.interest == wanted(pending),
{
    let (ready, made, q) = choose|ready: RuntimeLoop, made: Seq<DriverCall>, q: Result<(), Error>|
        {
            &&& #[trigger] prepared(
                reported,
                reports,
                requests,
                disconnected,
                ready,
                made,
                q,
            )
            &&& if q is Err || reported.exit_detected {
                middle == ready && calls == made && Ok::<(), Error>(()) == q
            } else {
                exit_looked_for(ready, made, middle, calls, Ok(()))
            }
        };
    let fresh = since(reports, made);
    assert(fresh.len() == requests.len() + 1);
    assert(made.last() == fresh.last());
}

} // verus!
