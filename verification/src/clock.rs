//! The system clock that the timer tick advances: milliseconds, seconds
//! and minutes of the running hour.

use vstd::prelude::*;

verus! {

/// Milliseconds in a second.
pub const MSEC_PER_SEC: u32 = 1000;

/// Seconds in a minute.
pub const SEC_PER_MIN: u32 = 60;

/// Minutes in an hour.
pub const MIN_PER_HOUR: u32 = 60;

/// Milliseconds in a minute.
pub const MSEC_PER_MIN: u32 = 60_000;

/// Milliseconds in an hour: the period of the clock.
pub const MSEC_PER_HOUR: u32 = 3_600_000;

/// The granularities at which the time-event subsystem is notified.
#[derive(Clone, Copy, Debug, PartialEq, Eq, Structural)]
pub enum EventTimeType {
    /// Every tick.
    MSec,
    /// A tick that completes a second.
    Sec,
    /// A tick that completes a minute.
    Min,
    /// A tick that completes an hour.
    Hour,
}

/// The instant one tick after `t`, both in milliseconds of the hour.
pub open spec fn next_instant(t: nat) -> nat {
    (t + 1) % (MSEC_PER_HOUR as nat)
}

/// The instant `n` ticks after `t`.
pub open spec fn after_ticks(t: nat, n: nat) -> nat
    decreases n,
{
    if n == 0 {
        t
    } else {
        next_instant(after_ticks(t, (n - 1) as nat))
    }
}

/// The notifications owed by the tick that reaches instant `t`, finest
/// first: the millisecond always, each coarser unit where `t` completes it.
pub open spec fn events_at(t: nat) -> Seq<EventTimeType> {
    if t % (MSEC_PER_SEC as nat) != 0 {
        seq![EventTimeType::MSec]
    } else if t % (MSEC_PER_MIN as nat) != 0 {
        seq![EventTimeType::MSec, EventTimeType::Sec]
    } else if t % (MSEC_PER_HOUR as nat) != 0 {
        seq![EventTimeType::MSec, EventTimeType::Sec, EventTimeType::Min]
    } else {
        seq![EventTimeType::MSec, EventTimeType::Sec, EventTimeType::Min, EventTimeType::Hour]
    }
}

/// How many of the first `n` ticks of a clock that starts at zero reach an
/// instant that is a multiple of `unit` milliseconds.
pub open spec fn units_completed(unit: nat, n: nat) -> nat
    decreases n,
{
    if n == 0 {
        0
    } else {
        units_completed(unit, (n - 1) as nat) + if after_ticks(0, n) % unit == 0 {
            1nat
        } else {
            0nat
        }
    }
}

/// A tick notifies each granularity at most once: the millisecond always,
/// the second, the minute and the hour exactly when the instant it reaches
/// is a multiple of that unit.
pub proof fn lemma_events_at(t: nat)
    ensures
        events_at(t).no_duplicates(),
        events_at(t).contains(EventTimeType::MSec),
        events_at(t).contains(EventTimeType::Sec) <==> t % (MSEC_PER_SEC as nat) == 0,
        events_at(t).contains(EventTimeType::Min) <==> t % (MSEC_PER_MIN as nat) == 0,
        events_at(t).contains(EventTimeType::Hour) <==> t % (MSEC_PER_HOUR as nat) == 0,
{
    let e = events_at(t);
    assert(e[0] == EventTimeType::MSec);
    if e.len() > 1 {
        assert(e[1] == EventTimeType::Sec);
    }
    if e.len() > 2 {
        assert(e[2] == EventTimeType::Min);
    }
    if e.len() > 3 {
        assert(e[3] == EventTimeType::Hour);
    }
}

/// Ticks add up: `n` ticks after instant `t` the clock shows `t + n`,
/// counted within the hour.
pub proof fn lemma_after_ticks(t: nat, n: nat)
    requires
        t < MSEC_PER_HOUR,
    ensures
        after_ticks(t, n) == (t + n) % (MSEC_PER_HOUR as nat),
    decreases n,
{
    if n > 0 {
        lemma_after_ticks(t, (n - 1) as nat);
    }
}

/// A clock that starts at zero completes a second with every thousandth
/// tick and with no other, a minute with every sixty thousandth, and an hour
/// with every 3 600 000th.
pub proof fn lemma_units_completed(n: nat)
    ensures
        units_completed(MSEC_PER_SEC as nat, n) == n / (MSEC_PER_SEC as nat),
        units_completed(MSEC_PER_MIN as nat, n) == n / (MSEC_PER_MIN as nat),
        units_completed(MSEC_PER_HOUR as nat, n) == n / (MSEC_PER_HOUR as nat),
    decreases n,
{
    if n > 0 {
        lemma_units_completed((n - 1) as nat);
        lemma_after_ticks(0, n);
    }
}

/// The clock: milliseconds, seconds and minutes, each below its limit.
/// Hours are not counted; the clock wraps when the hour is complete.
#[derive(Clone, Copy, Debug, PartialEq, Eq)]
pub struct Clock {
    m_sec: u32,
    sec: u32,
    min: u32,
}

impl View for Clock {
    type V = nat;

    /// The time shown, in milliseconds since the hour began.
    closed spec fn view(&self) -> nat {
        (self.min * MSEC_PER_MIN + self.sec * MSEC_PER_SEC + self.m_sec) as nat
    }
}

impl Clock {
    #[verifier::type_invariant]
    spec fn well_formed(self) -> bool {
        self.m_sec < MSEC_PER_SEC && self.sec < SEC_PER_MIN && self.min < MIN_PER_HOUR
    }

    /// A clock at the start of an hour.
    pub fn new() -> (c: Clock)
        ensures
            c@ == 0,
    {
        Clock { m_sec: 0, sec: 0, min: 0 }
    }

    /// Milliseconds of the running second.
    pub fn milliseconds(&self) -> (r: u32)
        ensures
            r == self@ % (MSEC_PER_SEC as nat),
    {
        proof {
            use_type_invariant(&*self);
        }
        self.m_sec
    }

    /// Seconds of the running minute.
    pub fn seconds(&self) -> (r: u32)
        ensures
            r == (self@ / (MSEC_PER_SEC as nat)) % (SEC_PER_MIN as nat),
    {
        proof {
            use_type_invariant(&*self);
        }
        self.sec
    }

    /// Minutes of the running hour.
    pub fn minutes(&self) -> (r: u32)
        ensures
            r == self@ / (MSEC_PER_MIN as nat),
    {
        proof {
            use_type_invariant(&*self);
        }
        self.min
    }

    /// Advances the clock by one tick and returns the notifications that
    /// the tick owes, in the order in which they are to be delivered.
    pub fn tick(&mut self) -> (events: Vec<EventTimeType>)
        ensures
            final(self)@ == next_instant(old(self)@),
            events@ == events_at(final(self)@),
    {
        proof {
            use_type_invariant(&*self);
        }
        let mut m_sec: u32 = self.m_sec + 1;
        let mut sec: u32 = self.sec;
        let mut min: u32 = self.min;
        let mut events: Vec<EventTimeType> = Vec::new();
        events.push(EventTimeType::MSec);
        if m_sec >= MSEC_PER_SEC {
            sec = sec + 1;
            m_sec = 0;
            events.push(EventTimeType::Sec);
            if sec >= SEC_PER_MIN {
                min = min + 1;
                sec = 0;
                events.push(EventTimeType::Min);
                if min >= MIN_PER_HOUR {
                    min = 0;
                    events.push(EventTimeType::Hour);
                }
            }
        }
        *self = Clock { m_sec, sec, min };
        assert(events@ =~= events_at(self@));
        events
    }
}

} // verus!
