//! Frame-rate settings and the pacing of presented frames.
use vstd::prelude::*;

use crate::time::{Duration, Instant};

verus! {

/// How often frames may be presented.
#[derive(Debug, Clone, Copy, PartialEq, Eq, Structural)]
pub enum FrameRate {
    Unlimited,
    Fps30,
    Fps60,
    Fps120,
}

impl FrameRate {
    /// The next setting in the order unlimited, 120, 60, 30 and back to unlimited.
    pub open spec fn successor(self) -> FrameRate {
        match self {
            FrameRate::Unlimited => FrameRate::Fps120,
            FrameRate::Fps120 => FrameRate::Fps60,
            FrameRate::Fps60 => FrameRate::Fps30,
            FrameRate::Fps30 => FrameRate::Unlimited,
        }
    }

    /// The shortest time between two presented frames, in nanoseconds; none when unlimited.
    pub open spec fn period(self) -> Option<u64> {
        match self {
            FrameRate::Unlimited => None,
            FrameRate::Fps30 => Some(33_333_333),
            FrameRate::Fps60 => Some(16_666_667),
            FrameRate::Fps120 => Some(8_333_333),
        }
    }

    pub fn cycle(self) -> (next: Self)
        ensures
            next == self.successor(),
    {
        match self {
            FrameRate::Unlimited => FrameRate::Fps120,
            FrameRate::Fps120 => FrameRate::Fps60,
            FrameRate::Fps60 => FrameRate::Fps30,
            FrameRate::Fps30 => FrameRate::Unlimited,
        }
    }

    pub fn interval(self) -> (span: Option<Duration>)
        ensures
            span == match self.period() {
                Some(nanos) => Some(Duration { nanos }),
                None => None,
            },
    {
        match self {
            FrameRate::Unlimited => None,
            FrameRate::Fps30 => Some(Duration::from_nanos(33_333_333)),
            FrameRate::Fps60 => Some(Duration::from_nanos(16_666_667)),
            FrameRate::Fps120 => Some(Duration::from_nanos(8_333_333)),
        }
    }

    pub fn display_name(self) -> (name: &'static str)
        ensures
            name@ == match self {
                FrameRate::Unlimited => "Unlimited"@,
                FrameRate::Fps30 => "30fps"@,
                FrameRate::Fps60 => "60fps"@,
                FrameRate::Fps120 => "120fps"@,
            },
    {
        match self {
            FrameRate::Unlimited => "Unlimited",
            FrameRate::Fps30 => "30fps",
            FrameRate::Fps60 => "60fps",
            FrameRate::Fps120 => "120fps",
        }
    }
}

/// Wait before trying again when a frame was due and none was presented, in milliseconds.
pub const BUSY_RETRY_MILLIS: u64 = 1;

/// Wait before looking for a sender again while none is connected, in milliseconds.
pub const DISCONNECTED_RETRY_MILLIS: u64 = 16;

/// What a [`FramePacer`] remembers.
pub struct PacerState {
    pub rate: FrameRate,
    pub last_presented_at: Instant,
    pub force_next: bool,
}

impl PacerState {
    /// A frame may be presented: one was asked for, or the interval has passed.
    pub open spec fn due(self, now: Instant) -> bool {
        ||| self.force_next
        ||| self.rate.period() is None
        ||| now.nanos - self.last_presented_at.nanos >= self.rate.period()->0
    }

    /// The earliest moment at which the interval since the last presented frame has passed.
    pub open spec fn deadline(self) -> int {
        self.last_presented_at.nanos + self.rate.period()->0
    }

    /// When to wake up next, in nanoseconds; none means at once.
    pub open spec fn wake_time(
        self,
        now: Instant,
        sender_connected: bool,
        presented_frame: bool,
    ) -> Option<int> {
        if !sender_connected {
            Some(now.nanos + DISCONNECTED_RETRY_MILLIS * 1_000_000)
        } else if !presented_frame && self.due(now) {
            Some(now.nanos + BUSY_RETRY_MILLIS * 1_000_000)
        } else if self.rate.period() is None {
            None
        } else if self.deadline() > now.nanos {
            Some(self.deadline())
        } else {
            Some(now.nanos + BUSY_RETRY_MILLIS * 1_000_000)
        }
    }
}

/// Decides when the next frame is presented.
#[derive(Clone, Copy, Debug)]
pub struct FramePacer {
    rate: FrameRate,
    last_presented_at: Instant,
    force_next: bool,
}

impl View for FramePacer {
    type V = PacerState;

    closed spec fn view(&self) -> PacerState {
        PacerState {
            rate: self.rate,
            last_presented_at: self.last_presented_at,
            force_next: self.force_next,
        }
    }
}

impl FramePacer {
    pub fn new(now: Instant) -> (pacer: Self)
        ensures
            pacer@ == (PacerState {
                rate: FrameRate::Unlimited,
                last_presented_at: now,
                force_next: true,
            }),
    {
        FramePacer { rate: FrameRate::Unlimited, last_presented_at: now, force_next: true }
    }

    pub fn rate(&self) -> (rate: FrameRate)
        ensures
            rate == self@.rate,
    {
        self.rate
    }

    /// Switches to the next rate and asks for a frame.
    pub fn cycle(&mut self) -> (rate: FrameRate)
        ensures
            rate == old(self)@.rate.successor(),
            final(self)@ == (PacerState { rate, force_next: true, ..old(self)@ }),
    {
        self.rate = self.rate.cycle();
        self.force_next = true;
        self.rate
    }

    /// Switches to `rate` and asks for a frame.
    pub fn set_rate(&mut self, rate: FrameRate)
        ensures
            final(self)@ == (PacerState { rate, force_next: true, ..old(self)@ }),
    {
        self.rate = rate;
        self.force_next = true;
    }

    pub fn request_frame(&mut self)
        ensures
            final(self)@ == (PacerState { force_next: true, ..old(self)@ }),
    {
        self.force_next = true;
    }

    pub fn is_due(&self, now: Instant) -> (due: bool)
        ensures
            due == self@.due(now),
    {
        if self.force_next {
            return true;
        }
        match self.rate.interval() {
            None => true,
            Some(interval) => now.duration_since(self.last_presented_at).nanos >= interval.nanos,
        }
    }

    pub fn presented(&mut self, now: Instant)
        ensures
            final(self)@ == (PacerState {
                last_presented_at: now,
                force_next: false,
                ..old(self)@
            }),
    {
        self.last_presented_at = now;
        self.force_next = false;
    }

    /// When the event loop should wake up next. None asks it not to wait at all.
    pub fn next_wake(
        &self,
        now: Instant,
        sender_connected: bool,
        presented_frame: bool,
    ) -> (wake: Option<Instant>)
        requires
            self@.wake_time(now, sender_connected, presented_frame) matches Some(nanos)
                ==> nanos <= u64::MAX,
        ensures
            match self@.wake_time(now, sender_connected, presented_frame) {
                Some(nanos) => wake is Some && wake->0.nanos == nanos,
                None => wake is None,
            },
    {
        if !sender_connected {
            return Some(now + Duration::from_millis(DISCONNECTED_RETRY_MILLIS));
        }
        if !presented_frame && self.is_due(now) {
            return Some(now + Duration::from_millis(BUSY_RETRY_MILLIS));
        }
        match self.rate.interval() {
            None => None,
            Some(interval) => {
                let deadline = self.last_presented_at + interval;
                if deadline.nanos > now.nanos {
                    Some(deadline)
                } else {
                    Some(now + Duration::from_millis(BUSY_RETRY_MILLIS))
                }
            },
        }
    }
}

/// Changing the rate always lets the next frame through at once, whatever the clock shows.
pub proof fn changing_rate_is_due_at_once(before: PacerState, rate: FrameRate, now: Instant)
    ensures
        (PacerState { rate, force_next: true, ..before }).due(now),
{
}

/// Four switches lead back to the rate that one started from, and no fewer do.
pub proof fn rate_cycle_has_period_four(rate: FrameRate)
    ensures
        rate.successor().successor().successor().successor() == rate,
        rate.successor() != rate,
        rate.successor().successor() != rate,
        rate.successor().successor().successor() != rate,
{
}

/// Every rate is reached from every other by switching.
pub proof fn rate_cycle_reaches_every_rate(from: FrameRate, to: FrameRate)
    ensures
        to == from || to == from.successor() || to == from.successor().successor() || to
            == from.successor().successor().successor(),
{
}

/// After a presented frame a capped pacer is due exactly from its interval on, unless a frame
/// is asked for in between.
pub proof fn capped_pacer_waits_its_interval(before: PacerState, shown: Instant, now: Instant)
    requires
        before.rate.period() is Some,
    ensures
        (PacerState { last_presented_at: shown, force_next: false, ..before }).due(now)
            <==> now.nanos >= shown.nanos + before.rate.period()->0,
{
}

/// A pacer is never woken in the past, and a frame is due by the time that it is woken. If none
/// was due before, then none becomes due any earlier.
pub proof fn wake_up_is_useful(pacer: PacerState, now: Instant, presented_frame: bool)
    requires
        pacer.wake_time(now, true, presented_frame) is Some,
        pacer.wake_time(now, true, presented_frame)->0 <= u64::MAX,
    ensures
        pacer.wake_time(now, true, presented_frame)->0 > now.nanos,
        pacer.due(Instant { nanos: pacer.wake_time(now, true, presented_frame)->0 as u64 }),
        !pacer.due(now) ==> forall|t: Instant|
            now.nanos <= t.nanos < pacer.wake_time(now, true, presented_frame)->0
                ==> !#[trigger] pacer.due(t),
{
}

/// How many frames a capped rate lets through in a second.
pub open spec fn frames_per_second(rate: FrameRate) -> int {
    match rate {
        FrameRate::Unlimited => 0,
        FrameRate::Fps30 => 30,
        FrameRate::Fps60 => 60,
        FrameRate::Fps120 => 120,
    }
}

/// Only the unlimited rate has no interval, and a second holds as many intervals of any other
/// rate as its name says, as closely as whole nanoseconds allow.
pub proof fn intervals_fill_a_second(rate: FrameRate)
    ensures
        rate.period() is None <==> rate == FrameRate::Unlimited,
        rate.period() matches Some(nanos) ==> -frames_per_second(rate) <= 2 * (nanos
            * frames_per_second(rate) - 1_000_000_000) <= frames_per_second(rate),
{
}

/// Switching goes from unlimited to the fastest capped rate, and from each capped rate to a slower
/// one or back to unlimited.
pub proof fn rate_cycle_slows_down(rate: FrameRate, other: FrameRate)
    ensures
        rate != FrameRate::Unlimited && rate.successor() != FrameRate::Unlimited
            ==> rate.successor().period()->0 > rate.period()->0,
        rate == FrameRate::Unlimited ==> rate.successor() != FrameRate::Unlimited && (other
            != FrameRate::Unlimited ==> rate.successor().period()->0 <= other.period()->0),
{
}

/// A frame is always due at the unlimited rate and when one was asked for, and a frame that is due
/// stays due until it is presented.
pub proof fn due_frames_stay_due(pacer: PacerState, now: Instant, later: Instant)
    requires
        now.nanos <= later.nanos,
    ensures
        pacer.rate == FrameRate::Unlimited ==> pacer.due(now),
        pacer.force_next ==> pacer.due(now),
        pacer.due(now) ==> pacer.due(later),
{
}

/// The loop never sleeps longer than it may: 16 milliseconds without a sender, one millisecond
/// when a frame is due and was not shown, and otherwise until the interval has passed. At the
/// unlimited rate it does not sleep after a frame.
pub proof fn wake_up_is_prompt(pacer: PacerState, now: Instant, presented_frame: bool)
    ensures
        pacer.wake_time(now, false, presented_frame) == Some(now.nanos + 16_000_000),
        pacer.due(now) ==> pacer.wake_time(now, true, false) == Some(now.nanos + 1_000_000),
        pacer.rate == FrameRate::Unlimited ==> pacer.wake_time(now, true, true) is None,
        pacer.rate != FrameRate::Unlimited ==> {
            &&& pacer.wake_time(now, true, true) is Some
            &&& pacer.wake_time(now, true, true)->0 <= now.nanos + 1_000_000 || pacer.wake_time(
                now,
                true,
                true,
            )->0 <= pacer.last_presented_at.nanos + pacer.rate.period()->0
        },
        !pacer.due(now) ==> pacer.wake_time(now, true, presented_frame) == Some(
            pacer.last_presented_at.nanos + pacer.rate.period()->0,
        ),
{
}

} // verus!
