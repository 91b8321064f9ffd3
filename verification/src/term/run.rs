//! A run of the event loop, stage by stage: the session is registered, the loop
//! goes round, and the session is deregistered.

use std::collections::VecDeque;

use vstd::prelude::*;

use crate::pty::ssh::Readiness;
use crate::term::engine::TerminalRequest;
use crate::term::error::Error;
use crate::term::runtime::{
    call_of, dispatched, left_over, model_of, next_of, prepared, register_step, settled, since,
    waited, Driver, DriverCall, DriverModel, DriverStep, LoopNext, RuntimeHooks, RuntimeLoop,
    PTY_CHILD_TOKEN, PTY_IO_TOKEN,
};

verus! {

/// What is done next in a run.
#[derive(Debug, Clone, Copy, PartialEq, Eq, Structural)]
pub enum RunStage {
    /// Register the session.
    Register,
    /// Run the hook before the wait.
    BeforeHook,
    /// Queue the requests that have come, and let the driver tick.
    Prepare,
    /// Wait for the operating system. This is up to the caller.
    Wait,
    /// Deal with the reports of the wait.
    Dispatch,
    /// Queue the requests that have come, let the driver tick, and look for an
    /// exit.
    AfterWait,
    /// Run the hook after the wait, and see whether the loop goes on.
    EndCycle,
    /// Take the session out of the poller.
    Deregister,
    /// The run is over.
    Done,
}

/// A run of the loop.
#[derive(Debug, Clone, Copy, PartialEq, Eq, Structural)]
pub struct RuntimeRun {
    pub state: RuntimeLoop,
    pub stage: RunStage,
}

/// The stage after one that went well. `next` says whether the loop goes on.
pub open spec fn stage_after(stage: RunStage, next: LoopNext) -> RunStage {
    match stage {
        RunStage::Register => RunStage::BeforeHook,
        RunStage::BeforeHook => RunStage::Prepare,
        RunStage::Prepare => RunStage::Wait,
        RunStage::Wait => RunStage::Dispatch,
        RunStage::Dispatch => RunStage::AfterWait,
        RunStage::AfterWait => RunStage::EndCycle,
        RunStage::EndCycle => match next {
            LoopNext::Continue => RunStage::BeforeHook,
            LoopNext::Stop => RunStage::Deregister,
        },
        RunStage::Deregister => RunStage::Done,
        RunStage::Done => RunStage::Done,
    }
}

/// A point of a run, with what the driver and the hooks are there.
pub struct RunPoint<H> {
    pub run: RuntimeRun,
    pub driver: DriverModel,
    pub hooks: H,
}

/// The hook after the wait has run, and the loop has settled.
pub open spec fn cycle_ended<D: Driver, H: RuntimeHooks<D>>(
    state: RuntimeLoop,
    driver: DriverModel,
    hooks: H,
    state_after: RuntimeLoop,
    calls_after: Seq<DriverCall>,
    hooks_after: H,
    r: Result<(), Error>,
) -> bool {
    exists|left: DriverModel, q: Result<(), Error>|
        {
            &&& #[trigger] hooks.after_ran(driver, &hooks_after, left, q)
            &&& match q {
                Ok(_) => settled(
                    state,
                    left.calls,
                    left.pending,
                    state_after,
                    calls_after,
                    match r {
                        Ok(_) => Ok(next_of(state)),
                        Err(error) => Err(error),
                    },
                ),
                Err(_) => state_after == state && calls_after == left.calls && r == q,
            }
        }
}

/// What a stage does. A run in which something failed is over.
pub open spec fn stage_done<D: Driver, H: RuntimeHooks<D>>(
    before: RunPoint<H>,
    requests: Seq<TerminalRequest>,
    disconnected: bool,
    reports: Seq<Readiness>,
    after: RunPoint<H>,
    r: Result<(), Error>,
) -> bool {
    let state = before.run.state;
    let calls = before.driver.calls;
    &&& after.run.stage == (if r is Ok {
        stage_after(before.run.stage, next_of(after.run.state))
    } else {
        RunStage::Done
    })
    &&& match before.run.stage {
        RunStage::Register => {
            &&& after.run.state == state
            &&& after.hooks == before.hooks
            &&& after.driver.calls == calls.push(
                call_of(register_step(state.interest, PTY_IO_TOKEN, PTY_CHILD_TOKEN), r),
            )
        },
        RunStage::BeforeHook => {
            &&& after.run.state == state
            &&& before.hooks.before_ran(before.driver, &after.hooks, after.driver, r)
        },
        RunStage::Prepare => {
            &&& after.hooks == before.hooks
            &&& prepared(
                state,
                calls,
                requests,
                disconnected,
                after.run.state,
                after.driver.calls,
                r,
            )
        },
        RunStage::Wait => {
            &&& after.run.state == state
            &&& after.hooks == before.hooks
            &&& after.driver == before.driver
            &&& r is Ok
        },
        RunStage::Dispatch => {
            &&& after.hooks == before.hooks
            &&& dispatched(state, calls, reports, after.run.state, after.driver.calls, r)
        },
        RunStage::AfterWait => {
            &&& after.hooks == before.hooks
            &&& waited(
                state,
                calls,
                requests,
                disconnected,
                after.run.state,
                after.driver.calls,
                r,
            )
        },
        RunStage::EndCycle => cycle_ended::<D, H>(
            state,
            before.driver,
            before.hooks,
            after.run.state,
            after.driver.calls,
            after.hooks,
            r,
        ),
        RunStage::Deregister => {
            &&& after.run.state == state
            &&& after.hooks == before.hooks
            &&& after.driver.calls == calls.push(call_of(DriverStep::Deregister, r))
        },
        RunStage::Done => {
            &&& after.run.state == state
            &&& after.hooks == before.hooks
            &&& after.driver == before.driver
            &&& r is Ok
        },
    }
}

/// The requests that a stage leaves over.
pub open spec fn requests_left<H>(
    before: RunPoint<H>,
    requests: Seq<TerminalRequest>,
    after: RunPoint<H>,
) -> Seq<TerminalRequest> {
    if before.run.stage is Prepare || before.run.stage is AfterWait {
        left_over(requests, since(before.driver.calls, after.driver.calls).len())
    } else {
        requests
    }
}

impl RuntimeRun {
    /// A run that has not begun.
    pub fn new() -> (run: RuntimeRun)
        ensures
            run.stage == RunStage::Register,
            !run.state.exit_detected,
            !run.state.shutdown_requested,
            run.state.interest.readable,
            !run.state.interest.writable,
    {
        RuntimeRun { state: RuntimeLoop::new(), stage: RunStage::Register }
    }

    fn end_cycle<D: Driver, H: RuntimeHooks<D>>(&mut self, driver: &mut D, hooks: &mut H) -> (r:
        Result<(), Error>)
        ensures
            final(self).stage == old(self).stage,
            cycle_ended::<D, H>(
                old(self).state,
                model_of(old(driver)),
                *old(hooks),
                final(self).state,
                final(driver).calls(),
                *final(hooks),
                r,
            ),
    {
        match self.state.end_cycle(driver, hooks) {
            Ok(_) => Ok(()),
            Err(error) => Err(error),
        }
    }

    fn perform<D: Driver, H: RuntimeHooks<D>>(
        &mut self,
        driver: &mut D,
        hooks: &mut H,
        requests: &mut VecDeque<TerminalRequest>,
        disconnected: bool,
        reports: &Vec<Readiness>,
    ) -> (r: Result<(), Error>)
        ensures
            final(self).stage == old(self).stage,
            stage_done::<D, H>(
                RunPoint { run: *old(self), driver: model_of(old(driver)), hooks: *old(hooks) },
                old(requests)@,
                disconnected,
                reports@,
                RunPoint {
                    run: RuntimeRun {
                        stage: if r is Ok {
                            stage_after(old(self).stage, next_of(final(self).state))
                        } else {
                            RunStage::Done
                        },
                        state: final(self).state,
                    },
                    driver: model_of(final(driver)),
                    hooks: *final(hooks),
                },
                r,
            ),
            final(requests)@ == requests_left(
                RunPoint { run: *old(self), driver: model_of(old(driver)), hooks: *old(hooks) },
                old(requests)@,
                RunPoint {
                    run: *final(self),
                    driver: model_of(final(driver)),
                    hooks: *final(hooks),
                },
            ),
    {
        match self.stage {
            RunStage::Register => self.state.start(driver),
            RunStage::BeforeHook => self.state.before_wait(driver, hooks),
            RunStage::Prepare => self.state.prepare(driver, requests, disconnected),
            RunStage::Wait => Ok(()),
            RunStage::Dispatch => self.state.dispatch(driver, reports),
            RunStage::AfterWait => self.state.after_wait(driver, requests, disconnected),
            RunStage::EndCycle => self.end_cycle(driver, hooks),
            RunStage::Deregister => self.state.finish(driver),
            RunStage::Done => Ok(()),
        }
    }

    /// Carry out the stage at hand. `requests` are those that have come by now,
    /// and `reports` those of the last wait; only the stages that deal with them
    /// look at them.
    pub fn step<D: Driver, H: RuntimeHooks<D>>(
        &mut self,
        driver: &mut D,
        hooks: &mut H,
        requests: &mut VecDeque<TerminalRequest>,
        disconnected: bool,
        reports: &Vec<Readiness>,
    ) -> (r: Result<(), Error>)
        ensures
            stage_done::<D, H>(
                RunPoint { run: *old(self), driver: model_of(old(driver)), hooks: *old(hooks) },
                old(requests)@,
                disconnected,
                reports@,
                RunPoint {
                    run: *final(self),
                    driver: model_of(final(driver)),
                    hooks: *final(hooks),
                },
                r,
            ),
            final(requests)@ == requests_left(
                RunPoint { run: *old(self), driver: model_of(old(driver)), hooks: *old(hooks) },
                old(requests)@,
                RunPoint {
                    run: *final(self),
                    driver: model_of(final(driver)),
                    hooks: *final(hooks),
                },
            ),
    {
        let r = self.perform(driver, hooks, requests, disconnected, reports);
        self.stage = if r.is_err() {
            RunStage::Done
        } else {
            match self.stage {
                RunStage::Register => RunStage::BeforeHook,
                RunStage::BeforeHook => RunStage::Prepare,
                RunStage::Prepare => RunStage::Wait,
                RunStage::Wait => RunStage::Dispatch,
                RunStage::Dispatch => RunStage::AfterWait,
                RunStage::AfterWait => RunStage::EndCycle,
                RunStage::EndCycle => if self.state.exit_detected
                    || self.state.shutdown_requested {
                    RunStage::Deregister
                } else {
                    RunStage::BeforeHook
                },
                RunStage::Deregister => RunStage::Done,
                RunStage::Done => RunStage::Done,
            }
        };
        r
    }
}

/// Whether one stage has led to the next.
pub open spec fn leads_to(stage: RunStage, later: RunStage) -> bool {
    later == stage_after(stage, LoopNext::Continue) || later == stage_after(stage, LoopNext::Stop)
}

/// Whether stages follow each other as in a run in which nothing fails.
pub open spec fn is_run(stages: Seq<RunStage>) -> bool {
    &&& stages.len() > 0
    &&& stages[0] is Register
    &&& forall|i: int|
        0 < i < stages.len() ==> leads_to(stages[i - 1], #[trigger] stages[i])
}

/// The stages of a cycle, in order.
pub open spec fn cycle_stage(n: int) -> RunStage {
    if n == 0 {
        RunStage::BeforeHook
    } else if n == 1 {
        RunStage::Prepare
    } else if n == 2 {
        RunStage::Wait
    } else if n == 3 {
        RunStage::Dispatch
    } else if n == 4 {
        RunStage::AfterWait
    } else {
        RunStage::EndCycle
    }
}

/// A run registers the session first. Then it goes round: the hook, the requests
/// and the tick, the wait, its reports, the requests, the tick and the question
/// for an exit, and the hook with what settles the cycle. It deregisters the
/// session only at the end of a cycle, and then it is over.
pub proof fn run_goes_round(stages: Seq<RunStage>, i: int)
    requires
        is_run(stages),
        0 < i < stages.len(),
    ensures
        match stages[i] {
            RunStage::Register => false,
            RunStage::Deregister => stages[i - 1] is EndCycle && (i - 1) % 6 == 0 && i > 6,
            RunStage::Done => stages[i - 1] is Deregister || stages[i - 1] is Done,
            stage => stage == cycle_stage((i - 1) % 6),
        },
    decreases i,
{
    assert(leads_to(stages[i - 1], stages[i]));
    if i > 1 {
        run_goes_round(stages, i - 1);
    }
}

/// Whether a run has got from one point to another by a stage that went well.
pub open spec fn goes_on<D: Driver, H: RuntimeHooks<D>>(
    before: RunPoint<H>,
    after: RunPoint<H>,
) -> bool {
    exists|requests: Seq<TerminalRequest>, disconnected: bool, reports: Seq<Readiness>| #[trigger]
        stage_done::<D, H>(before, requests, disconnected, reports, after, Ok(()))
}

/// In a run that has begun and in which nothing has failed, the driver was asked
/// to register the session before anything else; and once the run is over, the
/// last thing that it was asked is to deregister it.
pub proof fn run_registers_first_and_deregisters_last<D: Driver, H: RuntimeHooks<D>>(
    points: Seq<RunPoint<H>>,
)
    requires
        points.len() > 1,
        points[0].run.stage is Register,
        forall|i: int|
            0 < i < points.len() ==> goes_on::<D, H>(points[i - 1], #[trigger] points[i]),
    ensures
        points[1].driver.calls == points[0].driver.calls.push(points[1].driver.calls.last()),
        points[1].driver.calls.last().step is Register,
        points[1].driver.calls.last().outcome is Ok,
        points.last().run.stage is Done && !(points[points.len() - 2].run.stage is Done) ==> {
            let last = points.last().driver.calls;
            let before = points[points.len() - 2].driver.calls;
            last == before.push(last.last()) && last.last().step is Deregister
                && last.last().outcome is Ok
        },
        is_run(points.map_values(|p: RunPoint<H>| p.run.stage)),
{
    let stages = points.map_values(|p: RunPoint<H>| p.run.stage);
    assert forall|i: int| 0 < i < stages.len() implies leads_to(
        stages[i - 1],
        #[trigger] stages[i],
    ) by {
        assert(goes_on::<D, H>(points[i - 1], points[i]));
    }
    assert(goes_on::<D, H>(points[0], points[1]));
    let n = points.len() - 1;
    assert(goes_on::<D, H>(points[n - 1], points[n]));
    assert(points[1].driver.calls.last() == call_of(
        register_step(points[0].run.state.interest, PTY_IO_TOKEN, PTY_CHILD_TOKEN),
        Ok(()),
    ));
    if points[n].run.stage is Done && !(points[n - 1].run.stage is Done) {
        assert(points[n - 1].run.stage is Deregister);
        assert(points[n].driver.calls.last() == call_of(DriverStep::Deregister, Ok(())));
    }
}

} // verus!
