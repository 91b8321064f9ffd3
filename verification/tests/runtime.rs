use std::collections::VecDeque;

use otty::pty::session::ExitStatus;
use otty::pty::ssh::Readiness;
use otty::term::engine::TerminalRequest;
use otty::term::error::Error;
use otty::term::run::{RunStage, RuntimeRun};
use otty::term::runtime::{
    Driver, Interest, LoopNext, RuntimeHooks, RuntimeLoop, PTY_CHILD_TOKEN, PTY_IO_TOKEN,
    RUNTIME_WAKE_TOKEN,
};

#[derive(Default)]
struct StubDriver {
    registrations: Vec<Interest>,
    reregistrations: Vec<Interest>,
    requests: Vec<TerminalRequest>,
    exit_status: Option<ExitStatus>,
    pending_output: bool,
    deadline: Option<u64>,
    readable_count: usize,
    writable_count: usize,
    tick_count: usize,
    deregistered: bool,
    refuse_requests: bool,
    refuse_interest: bool,
}

impl Driver for StubDriver {
    fn register(&mut self, interest: Interest, _io: usize, _child: usize) -> Result<(), Error> {
        self.registrations.push(interest);
        Ok(())
    }

    fn reregister(&mut self, interest: Interest, _io: usize, _child: usize) -> Result<(), Error> {
        self.reregistrations.push(interest);
        if self.refuse_interest {
            return Err(Error::RuntimeChannelClosed);
        }
        Ok(())
    }

    fn deregister(&mut self) -> Result<(), Error> {
        self.deregistered = true;
        Ok(())
    }

    fn on_readable(&mut self) -> Result<(), Error> {
        self.readable_count += 1;
        Ok(())
    }

    fn on_writable(&mut self) -> Result<(), Error> {
        self.pending_output = false;
        self.writable_count += 1;
        Ok(())
    }

    fn tick(&mut self) -> Result<(), Error> {
        self.tick_count += 1;
        Ok(())
    }

    fn queue(&mut self, request: TerminalRequest) -> Result<(), Error> {
        if matches!(request, TerminalRequest::WriteBytes(_)) {
            self.pending_output = true;
        }
        self.requests.push(request);
        if self.refuse_requests {
            return Err(Error::EventChannelClosed);
        }
        Ok(())
    }

    fn has_pending_output(&self) -> bool {
        self.pending_output
    }

    fn check_child_exit(&mut self) -> Result<Option<ExitStatus>, Error> {
        Ok(self.exit_status)
    }

    fn next_deadline(&self) -> Option<u64> {
        self.deadline
    }
}

/// Runs the loop on waits that bring the given reports.
fn run<H: RuntimeHooks<StubDriver>>(
    driver: &mut StubDriver,
    mut hooks: H,
    mut requests: Vec<TerminalRequest>,
    waits: Vec<Vec<Readiness>>,
) -> Result<RuntimeLoop, Error> {
    let mut run = RuntimeRun::new();
    let mut queue = VecDeque::new();
    let mut waits = waits.into_iter();
    let mut reports = Vec::new();
    while run.stage != RunStage::Done {
        match run.stage {
            RunStage::Prepare => queue.extend(std::mem::take(&mut requests)),
            RunStage::Wait => {
                let _wait = run.state.wait_time(driver, 0);
                reports = waits.next().unwrap_or_default();
            }
            _ => {}
        }
        run.step(driver, &mut hooks, &mut queue, false, &reports)?;
    }
    Ok(run.state)
}

#[test]
fn runtime_processes_requests_and_shutdown() -> Result<(), Error> {
    let mut driver = StubDriver { deadline: Some(0), ..Default::default() };

    run(
        &mut driver,
        (),
        vec![TerminalRequest::WriteBytes(b"hi".to_vec()), TerminalRequest::Shutdown],
        Vec::new(),
    )?;

    assert_eq!(driver.requests.len(), 2);
    assert!(driver
        .requests
        .iter()
        .any(|req| matches!(req, TerminalRequest::Shutdown)));
    assert!(driver.deregistered);

    Ok(())
}

#[test]
fn runtime_detects_child_exit() -> Result<(), Error> {
    let mut driver = StubDriver { deadline: Some(0), ..Default::default() };
    driver.exit_status = Some(ExitStatus { raw: 0 });

    let state = run(&mut driver, (), Vec::new(), Vec::new())?;

    assert!(driver.deregistered);
    assert!(state.exit_detected);
    Ok(())
}

#[test]
fn runtime_toggles_writable_interest() -> Result<(), Error> {
    let mut driver = StubDriver { pending_output: true, deadline: Some(0), ..Default::default() };

    run(
        &mut driver,
        (),
        vec![TerminalRequest::WriteBytes(b"bytes".to_vec()), TerminalRequest::Shutdown],
        Vec::new(),
    )?;

    assert!(!driver.reregistrations.is_empty());
    assert!(driver.reregistrations.iter().any(|interest| interest.writable));

    Ok(())
}

#[test]
fn runtime_ticks_with_deadline() -> Result<(), Error> {
    let mut driver = StubDriver { deadline: Some(0), ..Default::default() };

    run(&mut driver, (), vec![TerminalRequest::Shutdown], Vec::new())?;

    assert!(driver.tick_count > 0);
    Ok(())
}

#[test]
fn reports_reach_the_driver() {
    let event = |token, readable, writable| Readiness { token, readable, writable };
    let mut driver = StubDriver { pending_output: true, ..Default::default() };
    let mut state = RuntimeLoop::new();
    let events = vec![
        event(PTY_IO_TOKEN, true, true),
        event(RUNTIME_WAKE_TOKEN, true, true),
        event(PTY_IO_TOKEN, true, false),
        event(PTY_CHILD_TOKEN, true, false),
    ];
    state.dispatch(&mut driver, &events).expect("dispatched");
    state.after_wait(&mut driver, &mut VecDeque::new(), false).expect("looked after");
    assert_eq!((driver.readable_count, driver.writable_count), (2, 1));
    assert!(!state.exit_detected);
    // Output was written, so only readability is of interest: no change.
    assert_eq!(state.settle(&mut driver).expect("settled"), LoopNext::Continue);
    assert!(driver.reregistrations.is_empty());
    // Nobody can send requests any more.
    state.prepare(&mut driver, &mut VecDeque::new(), true).expect("prepared");
    assert_eq!(state.settle(&mut driver).expect("settled"), LoopNext::Stop);
}

#[test]
fn waits_end_at_the_deadline() {
    let state = RuntimeLoop::new();
    let mut driver = StubDriver::default();
    assert_eq!(state.wait_time(&driver, 5), None);
    driver.deadline = Some(12);
    assert_eq!(state.wait_time(&driver, 5), Some(7));
    assert_eq!(state.wait_time(&driver, 50), Some(0));
}

struct Counter {
    before: usize,
    after: usize,
}

impl RuntimeHooks<StubDriver> for Counter {
    fn before_poll(&mut self, driver: &mut StubDriver) -> Result<(), Error> {
        self.before += 1;
        if self.before == 3 {
            driver.exit_status = Some(ExitStatus { raw: 256 });
        }
        Ok(())
    }

    fn after_poll(&mut self, _driver: &mut StubDriver) -> Result<(), Error> {
        self.after += 1;
        if self.after > 3 {
            return Err(Error::EventChannelFull);
        }
        Ok(())
    }
}

#[test]
fn hooks_run_around_each_wait() {
    let mut driver = StubDriver::default();
    run(&mut driver, Counter { before: 0, after: 0 }, Vec::new(), Vec::new()).expect("three cycles");
    assert_eq!(driver.tick_count, 6);
    assert_eq!(driver.registrations, vec![Interest { readable: true, writable: false }]);
}

#[test]
fn the_first_call_that_fails_ends_the_cycle() {
    let mut driver = StubDriver { refuse_requests: true, ..Default::default() };
    let mut state = RuntimeLoop::new();
    let mut requests =
        VecDeque::from([TerminalRequest::Shutdown, TerminalRequest::WriteBytes(vec![1])]);
    let refused = state.prepare(&mut driver, &mut requests, false);
    // The request after the one that failed is left over.
    assert!(matches!(requests.pop_front(), Some(TerminalRequest::WriteBytes(_))));
    assert!(requests.is_empty());
    assert!(matches!(refused, Err(Error::EventChannelClosed)));
    assert_eq!(driver.requests.len(), 1);
    assert_eq!(driver.tick_count, 0);
    assert!(!state.shutdown_requested);

    let mut driver =
        StubDriver { refuse_interest: true, pending_output: true, ..Default::default() };
    let refused = state.settle(&mut driver);
    assert!(matches!(refused, Err(Error::RuntimeChannelClosed)));
    assert_eq!(state.interest, Interest { readable: true, writable: false });
    driver.refuse_interest = false;
    assert_eq!(state.settle(&mut driver).expect("settled"), LoopNext::Continue);
    assert_eq!(state.interest, Interest { readable: true, writable: true });
}

#[test]
fn a_run_goes_round_in_its_order() {
    let mut driver = StubDriver { refuse_interest: false, ..Default::default() };
    let mut run = RuntimeRun::new();
    let mut stages = Vec::new();
    let mut queue = VecDeque::new();
    while run.stage != RunStage::Done {
        stages.push(run.stage);
        if stages.len() > 8 && run.stage == RunStage::AfterWait {
            queue.push_back(TerminalRequest::Shutdown);
        }
        run.step(&mut driver, &mut (), &mut queue, false, &Vec::new()).expect("step");
    }
    let cycle = [
        RunStage::BeforeHook,
        RunStage::Prepare,
        RunStage::Wait,
        RunStage::Dispatch,
        RunStage::AfterWait,
        RunStage::EndCycle,
    ];
    let mut expected = vec![RunStage::Register];
    expected.extend(cycle);
    expected.extend(cycle);
    expected.push(RunStage::Deregister);
    assert_eq!(stages, expected);
    assert!(driver.deregistered);
    // A run that failed is over, and nothing is deregistered.
    let mut driver = StubDriver { refuse_requests: true, ..Default::default() };
    let mut run = RuntimeRun { stage: RunStage::Prepare, ..RuntimeRun::new() };
    queue.push_back(TerminalRequest::Shutdown);
    assert!(run.step(&mut driver, &mut (), &mut queue, false, &Vec::new()).is_err());
    assert_eq!(run.stage, RunStage::Done);
    assert!(!driver.deregistered);
}
