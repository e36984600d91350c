//! The decisions of a one-shot PipeWire connection.
//!
//! Connecting pumps events until the initial enumeration completes; after a
//! write, events are pumped until the change settles. The pumping itself
//! (channels, clocks, the session) is done outside the library; here are the
//! decisions taken on each event and each tick, over milliseconds.

use vstd::prelude::*;

use crate::cli::error::{error_v, AppError, ErrorCode, ErrorV};

verus! {

/// How long to wait for PipeWire's initial state enumeration.
pub const READY_TIMEOUT_MS: u64 = 5000;

/// How long to wait for a write's effect to come back as state events.
pub const CONFIRM_TIMEOUT_MS: u64 = 1500;

/// The grace given to the first event after a write.
pub const FIRST_IDLE_MS: u64 = 400;

/// The idle gap after which a write is taken to have settled.
pub const SETTLE_IDLE_MS: u64 = 120;

/// What waiting for the initial snapshot can yield.
#[derive(Debug)]
pub enum OpenEvent {
    /// The initial enumeration is complete.
    Ready,
    /// A state change to fold into the snapshot.
    StateChange,
    /// PipeWire reported an error.
    Error(String),
    /// The deadline passed without the enumeration completing.
    TimedOut,
    /// The monitor thread stopped.
    Disconnected,
}

/// What to do with an event while connecting.
#[derive(Debug)]
pub enum OpenStep {
    /// Fold the state change in and keep waiting.
    Apply,
    /// The snapshot is complete.
    Done,
    /// Give up with this error.
    Fail(AppError),
}

/// The hint given when PipeWire cannot be reached or fails: the command
/// that reports the session.
pub open spec fn reach_hint() -> Seq<char> {
    "wiremix server info --json"@
}

/// The decision taken on each event while connecting.
pub open spec fn open_step_v(e: OpenEvent) -> Result<bool, ErrorV> {
    match e {
        OpenEvent::Ready => Ok(true),
        OpenEvent::StateChange => Ok(false),
        OpenEvent::Error(m) => Err(error_v(ErrorCode::Unavailable, "PipeWire error: "@ + m@, Some(reach_hint()))),
        OpenEvent::TimedOut => Err(error_v(ErrorCode::Timeout, "timed out waiting for PipeWire state"@, Some(reach_hint()))),
        OpenEvent::Disconnected => Err(
            error_v(ErrorCode::Unavailable, "PipeWire monitor thread stopped unexpectedly"@, Some(reach_hint())),
        ),
    }
}

/// The value of a connection step: done or not, or the error.
pub open spec fn step_view(s: OpenStep) -> Result<bool, ErrorV> {
    match s {
        OpenStep::Apply => Ok(false),
        OpenStep::Done => Ok(true),
        OpenStep::Fail(e) => Err(e@),
    }
}

/// Decide what to do with an event while waiting for the initial snapshot:
/// readiness ends the wait, a state change is folded in, and anything else
/// fails the connection.
pub fn open_step(event: OpenEvent) -> (r: OpenStep)
    ensures
        step_view(r) == open_step_v(event),
{
    match event {
        OpenEvent::Ready => OpenStep::Done,
        OpenEvent::StateChange => OpenStep::Apply,
        OpenEvent::Error(message) => {
            let mut m = String::from_str("PipeWire error: ");
            m.append(message.as_str());
            OpenStep::Fail(AppError::unavailable(m.as_str()).with_hint("wiremix server info --json"))
        },
        OpenEvent::TimedOut => OpenStep::Fail(
            AppError::new(ErrorCode::Timeout, "timed out waiting for PipeWire state").with_hint(
                "wiremix server info --json",
            ),
        ),
        OpenEvent::Disconnected => OpenStep::Fail(
            AppError::unavailable("PipeWire monitor thread stopped unexpectedly").with_hint(
                "wiremix server info --json",
            ),
        ),
    }
}

/// The error when the session cannot be started, with the reason given.
pub fn connect_failed(reason: &str) -> (r: AppError)
    ensures
        r@ == error_v(
            ErrorCode::Unavailable,
            "failed to connect to PipeWire: "@ + reason@,
            Some(reach_hint()),
        ),
{
    let mut m = String::from_str("failed to connect to PipeWire: ");
    m.append(reason);
    AppError::unavailable(m.as_str()).with_hint("wiremix server info --json")
}

/// How long to wait for the next event: the time left before `deadline`,
/// or nothing once it has passed.
pub fn remaining(deadline: u64, now: u64) -> (r: u64)
    ensures
        r == (if now < deadline { deadline - now } else { 0 }),
{
    if now < deadline {
        deadline - now
    } else {
        0
    }
}

/// Waiting for a write to settle: a hard deadline and the current idle
/// allowance.
#[derive(Debug, Clone, Copy)]
pub struct Settle {
    pub hard: u64,
    pub idle: u64,
}

/// What pumping after a write can yield.
#[derive(Debug, Clone, Copy, PartialEq, Eq, Structural)]
pub enum SettleEvent {
    /// A state change to fold into the snapshot.
    StateChange,
    /// Any other event.
    Other,
    /// The wait elapsed without an event, or the monitor stopped.
    Quiet,
}

/// How long settling waits at `now`: the idle allowance cut to the hard
/// deadline, or nothing once the deadline has passed.
pub open spec fn settle_wait_v(s: Settle, now: u64) -> Option<u64> {
    if now >= s.hard {
        None
    } else if s.idle < s.hard - now {
        Some(s.idle)
    } else {
        Some((s.hard - now) as u64)
    }
}

impl Settle {
    /// Start waiting at `now`: the hard deadline is the confirmation
    /// timeout away and the first event gets the longer grace.
    pub fn start(now: u64) -> (r: Settle)
        requires
            now <= u64::MAX - CONFIRM_TIMEOUT_MS,
        ensures
            r.hard == now + CONFIRM_TIMEOUT_MS,
            r.idle == FIRST_IDLE_MS,
    {
        Settle { hard: now + CONFIRM_TIMEOUT_MS, idle: FIRST_IDLE_MS }
    }

    /// How long to wait at `now` for the next event: the idle allowance, cut
    /// to the hard deadline; nothing once the deadline has passed.
    pub fn wait(&self, now: u64) -> (r: Option<u64>)
        ensures
            r == settle_wait_v(*self, now),
    {
        if now >= self.hard {
            None
        } else {
            let left = self.hard - now;
            Some(if self.idle < left { self.idle } else { left })
        }
    }

    /// Take in an event: a state change shortens the idle allowance and keeps
    /// waiting, another event keeps waiting, and a quiet wait ends it.
    /// Returns whether to keep waiting.
    pub fn on_event(&mut self, event: SettleEvent) -> (r: bool)
        ensures
            r == (event != SettleEvent::Quiet),
            final(self).hard == old(self).hard,
            final(self).idle == (if event == SettleEvent::StateChange { SETTLE_IDLE_MS } else { old(self).idle }),
    {
        match event {
            SettleEvent::StateChange => {
                self.idle = SETTLE_IDLE_MS;
                true
            },
            SettleEvent::Other => true,
            SettleEvent::Quiet => false,
        }
    }
}

/// Settling never waits past the hard deadline nor longer than the idle
/// allowance, and it waits whenever the deadline is still ahead.
pub proof fn settle_wait_bounded(s: Settle, now: u64)
    ensures
        settle_wait_v(s, now) matches Some(w) ==> now + w <= s.hard && w <= s.idle,
        settle_wait_v(s, now) is None <==> now >= s.hard,
{
}

} // verus!
