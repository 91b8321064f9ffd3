//! Synchronized updates: actions that are held back until the update is
//! complete or has taken too long.

use vstd::prelude::*;

use crate::term::escape::Action;

verus! {

/// How many actions one update can hold back.
pub const MAX_SYNC_ACTIONS: usize = 10_000;

/// Nanoseconds after which an update is shown though it is not complete.
pub const SYNC_TIMEOUT_NANOS: u64 = 10_000_000;

/// Nanoseconds between two maintenance ticks without an update.
pub const IDLE_TICK_NANOS: u64 = 10_000_000;

/// The state of synchronized updates. Moments are nanoseconds since a fixed
/// start.
#[derive(Debug)]
pub struct SyncState {
    active: bool,
    buffer: Vec<Action>,
    deadline: Option<u64>,
}

/// The mathematical value of the state of synchronized updates.
#[verifier::ext_equal]
pub struct SyncModel {
    pub active: bool,
    pub buffer: Seq<Action>,
    pub deadline: Option<u64>,
}

impl View for SyncState {
    type V = SyncModel;

    closed spec fn view(&self) -> SyncModel {
        SyncModel { active: self.active, buffer: self.buffer@, deadline: self.deadline }
    }
}

/// When the next maintenance is due.
pub open spec fn deadline_from(now: u64, active: bool) -> Option<u64> {
    let timeout = if active {
        SYNC_TIMEOUT_NANOS
    } else {
        IDLE_TICK_NANOS
    };
    if now + timeout > u64::MAX {
        Some(u64::MAX)
    } else {
        Some((now + timeout) as u64)
    }
}

/// Whether the moment of the deadline is over.
pub open spec fn is_past(deadline: Option<u64>, now: u64) -> bool {
    deadline is Some && now > deadline->0
}

/// The state in which nothing is held back.
pub open spec fn sync_idle(now: u64) -> SyncModel {
    SyncModel { active: false, buffer: Seq::empty(), deadline: deadline_from(now, false) }
}

/// The state in which an update has just begun.
pub open spec fn sync_begun(now: u64) -> SyncModel {
    SyncModel { active: true, buffer: Seq::empty(), deadline: deadline_from(now, true) }
}

impl SyncState {
    /// No update is under way.
    pub fn new(now: u64) -> (r: Self)
        ensures
            r@ == sync_idle(now),
    {
        let mut state = SyncState { active: false, buffer: Vec::new(), deadline: None };
        state.refresh_deadline(now);
        state
    }

    /// Begin an update, and hold back what follows.
    pub fn begin(&mut self, now: u64)
        ensures
            final(self)@ == sync_begun(now),
    {
        self.active = true;
        self.buffer = Vec::new();
        self.refresh_deadline(now);
    }

    /// End the update, and give out what was held back.
    pub fn end(&mut self, now: u64) -> (actions: Vec<Action>)
        ensures
            actions@ == old(self)@.buffer,
            final(self)@ == sync_idle(now),
    {
        self.active = false;
        self.refresh_deadline(now);
        self.take_buffer()
    }

    /// Give up on the update, and give out what was held back.
    pub fn cancel(&mut self, now: u64) -> (actions: Vec<Action>)
        ensures
            actions@ == old(self)@.buffer,
            final(self)@ == sync_idle(now),
    {
        self.active = false;
        self.refresh_deadline(now);
        self.take_buffer()
    }

    fn take_buffer(&mut self) -> (actions: Vec<Action>)
        ensures
            actions@ == old(self)@.buffer,
            final(self)@ == (SyncModel { buffer: Seq::empty(), ..old(self)@ }),
    {
        let mut actions: Vec<Action> = Vec::new();
        actions.append(&mut self.buffer);
        assert(actions@ =~= old(self)@.buffer);
        actions
    }

    /// Hold an action back. It is given back where too many are held.
    pub fn push(&mut self, action: Action, now: u64) -> (r: Result<(), Action>)
        ensures
            if old(self)@.buffer.len() >= MAX_SYNC_ACTIONS {
                r == Err::<(), _>(action) && final(self)@ == old(self)@
            } else {
                r is Ok && final(self)@ == (SyncModel {
                    buffer: old(self)@.buffer.push(action),
                    deadline: deadline_from(now, old(self)@.active),
                    ..old(self)@
                })
            },
    {
        if self.buffer.len() >= MAX_SYNC_ACTIONS {
            return Err(action);
        }
        self.buffer.push(action);
        self.refresh_deadline(now);
        Ok(())
    }

    /// Whether an update is under way.
    pub fn is_active(&self) -> (r: bool)
        ensures
            r == self@.active,
    {
        self.active
    }

    /// Whether the deadline is over.
    pub fn is_expired(&self, now: u64) -> (r: bool)
        ensures
            r == is_past(self@.deadline, now),
    {
        match self.deadline {
            Some(deadline) => now > deadline,
            None => false,
        }
    }

    /// When the next maintenance is due.
    pub fn deadline(&self) -> (deadline: Option<u64>)
        ensures
            deadline == self@.deadline,
    {
        self.deadline
    }

    fn refresh_deadline(&mut self, now: u64)
        ensures
            final(self)@ == (SyncModel {
                deadline: deadline_from(now, old(self)@.active),
                ..old(self)@
            }),
    {
        let timeout: u64 = if self.active {
            SYNC_TIMEOUT_NANOS
        } else {
            IDLE_TICK_NANOS
        };
        self.deadline = Some(now.saturating_add(timeout));
    }
}

} // verus!
