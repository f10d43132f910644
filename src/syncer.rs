//! The decisions of the sync-to-head loop, as a state machine.
//!
//! The driver around it performs each [`Action`] (a store query, a node
//! query, the fetch and insert of one height, a report) and hands the outcome
//! back as an [`Event`]. One pass runs from a `Tick` back to `Idle`; a new
//! pass can only begin from `Idle`, so passes never overlap.
use vstd::prelude::*;

use crate::error::{ConfigError, PassError};

verus! {

/// Where the machine stands.
#[derive(Debug, Clone, Copy, PartialEq, Eq, Structural)]
pub enum Phase {
    /// Between passes, waiting for the next tick.
    Idle,
    /// The store was asked for its highest synced height.
    AwaitCursor,
    /// The node was asked for its head. `first` is the first height of the
    /// pass; `None` when the store already holds the largest height there is.
    AwaitHead { first: Option<u64> },
    /// Heights `start ..= next - 1` were fetched and stored in this pass,
    /// and height `next` was asked for; the pass ends at `head`.
    Backfill { start: u64, next: u64, head: u64 },
    /// Cancelled: nothing more is done.
    Stopped,
}

/// What the driver reports back.
#[derive(Debug, Clone, Copy, PartialEq, Eq, Structural)]
pub enum Event {
    /// The tick period elapsed.
    Tick,
    /// Shutdown was requested; the action last asked for was not started.
    Cancel,
    /// The store's highest synced height, `None` when it is empty.
    Cursor(Option<u64>),
    /// The node's current head.
    Head(u64),
    /// The height asked for was fetched and inserted.
    Stored,
    /// The action asked for failed.
    Failed(PassError),
}

/// What the driver is asked to do next.
#[derive(Debug, Clone, Copy, PartialEq, Eq, Structural)]
pub enum Action {
    /// Query the store for its highest synced height.
    ReadCursor,
    /// Query the node for its current head.
    ReadHead,
    /// Fetch the entry at this height and insert it if absent.
    Sync(u64),
    /// The pass ended with the store synced up to this head; wait for a tick.
    Synced(u64),
    /// The pass was abandoned; wait for a tick.
    Failed(PassError),
    /// Stop the loop.
    Stop,
}

/// The first height of a pass: the explicit start when there is one, else
/// the height after the store's cursor, else zero.
pub open spec fn start_height(from: Option<u64>, cursor: Option<u64>) -> int {
    match from {
        Some(s) => s as int,
        None => match cursor {
            Some(c) => c + 1,
            None => 0,
        },
    }
}

/// Resolve the first height of a pass. `None` when the store's cursor is
/// already the largest representable height, so no height is left to fetch.
pub fn resolve_start(from: Option<u64>, cursor: Option<u64>) -> (r: Option<u64>)
    ensures
        r is Some <==> start_height(from, cursor) <= u64::MAX,
        r matches Some(s) ==> s == start_height(from, cursor),
{
    match from {
        Some(s) => Some(s),
        None => match cursor {
            Some(c) => if c < u64::MAX {
                Some(c + 1)
            } else {
                None
            },
            None => Some(0),
        },
    }
}

/// The state of one sync loop.
#[derive(Debug, Clone, Copy, PartialEq, Eq, Structural)]
pub struct Syncer {
    /// The explicit first height, used by the first pass only.
    pub from: Option<u64>,
    /// The tick period in milliseconds.
    pub interval_millis: u64,
    /// Where the machine stands.
    pub phase: Phase,
}

impl Syncer {
    pub open spec fn wf(self) -> bool {
        &&& self.interval_millis > 0
        &&& match self.phase {
            Phase::Backfill { start, next, head } => start <= next <= head,
            _ => true,
        }
        &&& (self.phase is AwaitCursor || self.phase is AwaitHead || self.phase is Backfill)
            ==> self.from is None
    }

    /// The events that the machine takes in its present phase.
    pub open spec fn accepts_spec(self, e: Event) -> bool {
        match self.phase {
            Phase::Stopped => false,
            Phase::Idle => e is Tick || e is Cancel,
            Phase::AwaitCursor => e is Cursor || e is Failed || e is Cancel,
            Phase::AwaitHead { .. } => e is Head || e is Failed || e is Cancel,
            Phase::Backfill { .. } => e is Stored || e is Failed || e is Cancel,
        }
    }

    /// The machine's move on an event it takes: its next state and the
    /// action it asks for.
    pub open spec fn transition(self, e: Event) -> (Syncer, Action) {
        let at = |p: Phase| Syncer { phase: p, ..self };
        match e {
            Event::Cancel => (at(Phase::Stopped), Action::Stop),
            Event::Failed(err) => (at(Phase::Idle), Action::Failed(err)),
            Event::Tick => match self.from {
                Some(s) => (
                    Syncer { from: None, phase: Phase::AwaitHead { first: Some(s) }, ..self },
                    Action::ReadHead,
                ),
                None => (at(Phase::AwaitCursor), Action::ReadCursor),
            },
            Event::Cursor(c) => {
                let start = if start_height(None, c) <= u64::MAX {
                    Some(start_height(None, c) as u64)
                } else {
                    None
                };
                (at(Phase::AwaitHead { first: start }), Action::ReadHead)
            },
            Event::Head(h) => match self.phase {
                Phase::AwaitHead { first: Some(s) } if s < h => (
                    at(Phase::Backfill { start: s, next: s, head: h }),
                    Action::Sync(s),
                ),
                _ => (at(Phase::Idle), Action::Synced(h)),
            },
            Event::Stored => match self.phase {
                Phase::Backfill { start, next, head } => if next < head {
                    (
                        at(Phase::Backfill { start, next: (next + 1) as u64, head }),
                        Action::Sync((next + 1) as u64),
                    )
                } else {
                    (at(Phase::Idle), Action::Synced(head))
                },
                _ => (self, Action::Stop),
            },
        }
    }

    /// A machine for a loop with the given explicit first height and tick
    /// period. A zero period is refused.
    pub fn new(from: Option<u64>, interval_millis: u64) -> (r: Result<Syncer, ConfigError>)
        ensures
            interval_millis == 0 <==> r is Err,
            r matches Err(e) ==> e == ConfigError::ZeroInterval,
            r matches Ok(s) ==> s.wf() && s == (Syncer {
                from,
                interval_millis,
                phase: Phase::Idle,
            }),
    {
        if interval_millis == 0 {
            Err(ConfigError::ZeroInterval)
        } else {
            Ok(Syncer { from, interval_millis, phase: Phase::Idle })
        }
    }

    /// Whether the machine takes `e` in its present phase.
    pub fn accepts(&self, e: &Event) -> (r: bool)
        ensures
            r == self.accepts_spec(*e),
    {
        match self.phase {
            Phase::Stopped => false,
            Phase::Idle => matches!(e, Event::Tick | Event::Cancel),
            Phase::AwaitCursor => matches!(e, Event::Cursor(_) | Event::Failed(_) | Event::Cancel),
            Phase::AwaitHead { .. } => matches!(e, Event::Head(_) | Event::Failed(_) | Event::Cancel),
            Phase::Backfill { .. } => matches!(e, Event::Stored | Event::Failed(_) | Event::Cancel),
        }
    }

    /// Take one event and return the action that follows it.
    pub fn step(&mut self, e: Event) -> (r: Action)
        requires
            old(self).wf(),
            old(self).accepts_spec(e),
        ensures
            final(self).wf(),
            (*final(self), r) == old(self).transition(e),
    {
        match e {
            Event::Cancel => {
                self.phase = Phase::Stopped;
                Action::Stop
            },
            Event::Failed(err) => {
                self.phase = Phase::Idle;
                Action::Failed(err)
            },
            Event::Tick => match self.from {
                Some(s) => {
                    self.from = None;
                    self.phase = Phase::AwaitHead { first: Some(s) };
                    Action::ReadHead
                },
                None => {
                    self.phase = Phase::AwaitCursor;
                    Action::ReadCursor
                },
            },
            Event::Cursor(c) => {
                self.phase = Phase::AwaitHead { first: resolve_start(None, c) };
                Action::ReadHead
            },
            Event::Head(h) => {
                let begin = match self.phase {
                    Phase::AwaitHead { first: Some(s) } => s < h,
                    _ => false,
                };
                if begin {
                    let s = match self.phase {
                        Phase::AwaitHead { first: Some(s) } => s,
                        _ => h,
                    };
                    self.phase = Phase::Backfill { start: s, next: s, head: h };
                    Action::Sync(s)
                } else {
                    self.phase = Phase::Idle;
                    Action::Synced(h)
                }
            },
            Event::Stored => match self.phase {
                Phase::Backfill { start, next, head } => if next < head {
                    self.phase = Phase::Backfill { start, next: next + 1, head };
                    Action::Sync(next + 1)
                } else {
                    self.phase = Phase::Idle;
                    Action::Synced(head)
                },
                _ => Action::Stop,
            },
        }
    }
}

} // verus!
