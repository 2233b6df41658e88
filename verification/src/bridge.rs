//! The asynchronous task bridge, as state machines the frame-driven caller
//! and its background scheduler both follow. A `TaskSlot` is the single-slot
//! completion channel for one logical operation kind: started, completed by
//! the background task, and polled non-blockingly by the caller's tick until
//! it yields its terminal value exactly once. A `ConnectionLock` is the
//! exclusive-access wrapper around the shared live connection: at most one
//! in-flight operation touches the underlying transport at a time.
//!
//! The caller performs the actual spawning and awaiting; these types pin
//! down what every transition observes and guarantees.

use vstd::prelude::*;
use crate::db::{DatabaseInfo, TableInfo, ViewInfo};
use crate::models::query::QueryResult;

verus! {

/// The terminal value of one operation: its success payload, or a display
/// string describing its failure.
#[derive(Debug)]
pub enum OpOutcome<T> {
    Fulfilled(T),
    Failed(String),
}

/// One logical operation's completion slot.
#[derive(Debug)]
pub enum TaskSlot<T> {
    /// No operation in flight.
    Idle,
    /// An operation was started and has not yet yielded its result.
    Pending,
    /// The background task finished; the next poll consumes this value.
    Resolved(OpOutcome<T>),
}

/// What one poll of a slot reports.
#[derive(Debug)]
pub enum SlotPoll<T> {
    /// Nothing is in flight.
    Empty,
    /// The operation has not finished; ask again on a later tick.
    StillPending,
    /// The operation's terminal value, delivered to this poll alone.
    Ready(OpOutcome<T>),
}

/// What a poll of a slot in the given state reports.
pub open spec fn spec_poll_report<T>(s: TaskSlot<T>) -> SlotPoll<T> {
    match s {
        TaskSlot::Idle => SlotPoll::Empty,
        TaskSlot::Pending => SlotPoll::StillPending,
        TaskSlot::Resolved(o) => SlotPoll::Ready(o),
    }
}

/// The state a slot is left in after one poll.
pub open spec fn spec_poll_next<T>(s: TaskSlot<T>) -> TaskSlot<T> {
    match s {
        TaskSlot::Pending => TaskSlot::Pending,
        _ => TaskSlot::Idle,
    }
}

impl<T> TaskSlot<T> {
    pub fn new() -> (r: Self)
        ensures
            r is Idle,
    {
        TaskSlot::Idle
    }

    /// The caller requested the operation and the background task was
    /// spawned. Starting over a still-outstanding slot supersedes it: the
    /// abandoned task's result is discarded, never delivered.
    pub fn start(&mut self)
        ensures
            *final(self) is Pending,
    {
        *self = TaskSlot::Pending;
    }

    /// The background task finished with `outcome`; the slot holds it for
    /// the next poll.
    pub fn complete(&mut self, outcome: OpOutcome<T>)
        requires
            *old(self) is Pending,
        ensures
            *final(self) == TaskSlot::Resolved(outcome),
    {
        *self = TaskSlot::Resolved(outcome);
    }

    /// The caller's non-blocking per-tick poll: an idle slot reports empty,
    /// a pending one stays pending, and a resolved one yields its terminal
    /// value and resets to idle — so each started operation resolves by
    /// value exactly once.
    pub fn poll(&mut self) -> (r: SlotPoll<T>)
        ensures
            r == spec_poll_report(*old(self)),
            *final(self) == spec_poll_next(*old(self)),
    {
        let mut taken = TaskSlot::Idle;
        core::mem::swap(self, &mut taken);
        match taken {
            TaskSlot::Idle => SlotPoll::Empty,
            TaskSlot::Pending => {
                *self = TaskSlot::Pending;
                SlotPoll::StillPending
            },
            TaskSlot::Resolved(o) => SlotPoll::Ready(o),
        }
    }
}

/// Exactly-once resolution: once a poll has delivered a slot's terminal
/// value, the slot is idle, and every later poll reports empty — never the
/// same result twice — until a new operation is started.
pub proof fn lemma_resolution_exactly_once<T>(s: TaskSlot<T>)
    ensures
        spec_poll_report(s) is Ready ==> spec_poll_next(s) is Idle,
        spec_poll_report(s) is Ready ==> spec_poll_report(spec_poll_next(s)) is Empty,
{
}

/// The exclusive-access wrapper around the shared live connection handle.
/// `holder` names the operation currently inside its transport call; the
/// raw handle is never reachable except through a successful acquisition.
#[derive(Debug)]
pub struct ConnectionLock {
    pub holder: Option<u64>,
}

/// The outcome of one acquisition attempt on a lock.
pub open spec fn spec_try_lock(g: ConnectionLock, op: u64) -> (bool, ConnectionLock) {
    match g.holder {
        None => (true, ConnectionLock { holder: Some(op) }),
        Some(_) => (false, g),
    }
}

impl ConnectionLock {
    pub fn new() -> (r: Self)
        ensures
            r.holder is None,
    {
        ConnectionLock { holder: None }
    }

    /// One operation's attempt to enter its transport call: it succeeds only
    /// when no holder is present, and a failed attempt changes nothing.
    pub fn try_acquire(&mut self, op: u64) -> (r: bool)
        ensures
            r == spec_try_lock(*old(self), op).0,
            *final(self) == spec_try_lock(*old(self), op).1,
    {
        match self.holder {
            None => {
                self.holder = Some(op);
                true
            },
            Some(_) => false,
        }
    }

    /// The holder finished its work on the transport and lets go.
    pub fn release(&mut self, op: u64)
        requires
            old(self).holder == Some(op),
        ensures
            final(self).holder is None,
    {
        self.holder = None;
    }
}

/// Mutual exclusion: while one operation holds the lock, every other
/// acquisition attempt fails and leaves the holder in place, so operations
/// against one live connection serialize rather than interleave at the
/// transport level.
pub proof fn lemma_lock_mutual_exclusion(g: ConnectionLock, a: u64, b: u64)
    requires
        g.holder == Some(a),
    ensures
        !spec_try_lock(g, b).0,
        spec_try_lock(g, b).1.holder == Some(a),
{
}

/// The bridge's slots, one per logical operation kind. `C` is the caller's
/// live-connection handle type, delivered by a successful connect.
#[derive(Debug)]
pub struct TaskBridge<C> {
    pub connect: TaskSlot<C>,
    pub test: TaskSlot<()>,
    pub databases: TaskSlot<Vec<DatabaseInfo>>,
    pub tables: TaskSlot<(String, Vec<TableInfo>)>,
    pub views: TaskSlot<(String, Vec<ViewInfo>)>,
    pub query: TaskSlot<QueryResult>,
}

impl<C> TaskBridge<C> {
    pub fn new() -> (r: Self)
        ensures
            r.connect is Idle,
            r.test is Idle,
            r.databases is Idle,
            r.tables is Idle,
            r.views is Idle,
            r.query is Idle,
    {
        TaskBridge {
            connect: TaskSlot::new(),
            test: TaskSlot::new(),
            databases: TaskSlot::new(),
            tables: TaskSlot::new(),
            views: TaskSlot::new(),
            query: TaskSlot::new(),
        }
    }

    /// Whether any operation is outstanding — the caller keeps its tick loop
    /// awake exactly while this holds.
    pub fn any_pending(&self) -> (r: bool)
        ensures
            r == (self.connect is Pending || self.test is Pending || self.databases is Pending
                || self.tables is Pending || self.views is Pending || self.query is Pending),
    {
        matches!(self.connect, TaskSlot::Pending) || matches!(self.test, TaskSlot::Pending)
            || matches!(self.databases, TaskSlot::Pending) || matches!(
            self.tables,
            TaskSlot::Pending,
        ) || matches!(self.views, TaskSlot::Pending) || matches!(self.query, TaskSlot::Pending)
    }
}

} // verus!
