//! The steps by which a stream or a sink is held to a rate limit.
//!
//! A stream that is held to a limit reads an item from the stream inside
//! it, asks the limiter, and hands the item out when the limiter allows it;
//! until then it waits on a timer that is set to the time the limiter
//! named. A sink does the same before it takes an item. Who drives them
//! polls the inner stream, the limiter and the timer; what follows from
//! each answer is decided here.

use vstd::prelude::*;

verus! {

/// Where a limited stream or sink stands.
#[derive(Clone, Copy, Debug, PartialEq, Eq, Structural)]
pub enum Phase {
    /// A stream has no item in hand and reads the stream inside it.
    ReadInner,
    /// The limiter has to be asked.
    NotReady,
    /// The timer runs.
    Wait,
    /// A sink may take an item.
    Ready,
}

/// What a poll of the inner stream gave.
#[derive(Clone, Copy, Debug, PartialEq, Eq, Structural)]
pub enum InnerPoll {
    /// No item yet.
    Pending,
    /// The stream has ended.
    Ended,
    /// An item, which is kept in hand.
    Item,
}

/// What the one who polls is told, if anything.
#[derive(Clone, Copy, Debug, PartialEq, Eq, Structural)]
pub enum Progress {
    /// Nothing yet: take the next step.
    Again,
    /// Not ready: the poll returns, and a waker calls again.
    Pending,
    /// The stream has ended.
    Ended,
    /// The item in hand is handed out.
    Item,
}

/// The step of a stream after a poll of the stream inside it.
pub fn after_inner(poll: InnerPoll) -> (r: (Phase, Progress))
    ensures
        r == (match poll {
            InnerPoll::Pending => (Phase::ReadInner, Progress::Pending),
            InnerPoll::Ended => (Phase::ReadInner, Progress::Ended),
            InnerPoll::Item => (Phase::NotReady, Progress::Again),
        }),
{
    match poll {
        InnerPoll::Pending => (Phase::ReadInner, Progress::Pending),
        InnerPoll::Ended => (Phase::ReadInner, Progress::Ended),
        InnerPoll::Item => (Phase::NotReady, Progress::Again),
    }
}

/// The step of a stream after the limiter was asked. Where it refused, the
/// timer was set to the time it named and polled: `timer_elapsed` tells
/// whether that time had come already.
pub fn stream_after_decision(allowed: bool, timer_elapsed: bool) -> (r: (Phase, Progress))
    ensures
        r == (if allowed {
            (Phase::ReadInner, Progress::Item)
        } else if timer_elapsed {
            (Phase::NotReady, Progress::Again)
        } else {
            (Phase::Wait, Progress::Pending)
        }),
        r.1 == Progress::Item <==> allowed,
{
    if allowed {
        (Phase::ReadInner, Progress::Item)
    } else if timer_elapsed {
        (Phase::NotReady, Progress::Again)
    } else {
        (Phase::Wait, Progress::Pending)
    }
}

/// The step of a sink after the limiter was asked. Where it refused, the
/// timer was set to the time it named and polled: `timer_elapsed` tells
/// whether that time had come already.
pub fn sink_after_decision(allowed: bool, timer_elapsed: bool) -> (r: (Phase, Progress))
    ensures
        r == (if allowed {
            (Phase::Ready, Progress::Again)
        } else if timer_elapsed {
            (Phase::NotReady, Progress::Again)
        } else {
            (Phase::Wait, Progress::Pending)
        }),
        r.0 == Phase::Ready <==> allowed,
{
    if allowed {
        (Phase::Ready, Progress::Again)
    } else if timer_elapsed {
        (Phase::NotReady, Progress::Again)
    } else {
        (Phase::Wait, Progress::Pending)
    }
}

/// The step after a poll of the timer while it runs: the limiter is asked
/// again when the time has come.
pub fn after_timer(elapsed: bool) -> (r: (Phase, Progress))
    ensures
        r == (if elapsed {
            (Phase::NotReady, Progress::Again)
        } else {
            (Phase::Wait, Progress::Pending)
        }),
{
    if elapsed {
        (Phase::NotReady, Progress::Again)
    } else {
        (Phase::Wait, Progress::Pending)
    }
}

/// The phase of a sink after it took an item, which it may only when it
/// was ready: each item costs a decision of its own.
pub fn after_send(phase: Phase) -> (r: Option<Phase>)
    ensures
        r == (if phase == Phase::Ready {
            Some(Phase::NotReady)
        } else {
            None
        }),
{
    match phase {
        Phase::Ready => Some(Phase::NotReady),
        _ => None,
    }
}

} // verus!
