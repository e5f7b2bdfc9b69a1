//! Countdown timers measured in whole nanoseconds.

use vstd::prelude::*;

verus! {

/// What a timer does once its duration has passed.
#[derive(Copy, Clone, Debug, PartialEq, Eq, Structural)]
pub enum TimerKind {
    /// The timer stops at its duration and stays finished until reset.
    Once,
    /// The timer starts over, keeping the time by which it overshot.
    Repeating,
}

/// The elapsed time and the finished flag of a running timer after `delta`
/// more nanoseconds. A timer finishes when its elapsed time reaches its
/// duration. A finished one-shot timer rests at its duration; a finished
/// repeating timer keeps what is left after whole durations are taken off.
pub open spec fn ticked(kind: TimerKind, elapsed: int, duration: int, delta: int) -> (int, bool) {
    if elapsed + delta < duration {
        (elapsed + delta, false)
    } else {
        match kind {
            TimerKind::Once => (duration, true),
            TimerKind::Repeating => ((elapsed + delta) % duration, true),
        }
    }
}

/// Whether a running timer can take `delta` more nanoseconds: a repeating
/// timer needs a duration, and may not complete more rounds in one step
/// than a `u32` counts.
pub open spec fn tick_defined(kind: TimerKind, elapsed: int, duration: int, delta: int) -> bool {
    kind == TimerKind::Repeating ==> duration > 0 && (elapsed + delta) / duration <= u32::MAX
}

/// Lets a `bevy::time::Timer` do one step: a timer of the given kind and
/// duration, neither paused nor finished, is set to `elapsed` and ticked by
/// `delta`; its elapsed time and finished flag come back. The contract
/// restates `Timer::tick` for a running timer. Where a one-shot timer has
/// already passed its duration the flag is set and the timer rests there.
#[verifier::external_body]
fn timer_tick(kind: TimerKind, elapsed: u64, duration: u64, delta: u64) -> (r: (u64, bool))
    requires
        tick_defined(kind, elapsed as int, duration as int, delta as int),
    ensures
        (r.0 as int, r.1) == ticked(kind, elapsed as int, duration as int, delta as int),
{
    let mode = match kind {
        TimerKind::Once => bevy::time::TimerMode::Once,
        TimerKind::Repeating => bevy::time::TimerMode::Repeating,
    };
    let mut timer = bevy::time::Timer::new(std::time::Duration::from_nanos(duration), mode);
    timer.set_elapsed(std::time::Duration::from_nanos(elapsed));
    timer.tick(std::time::Duration::from_nanos(delta));
    (timer.elapsed().as_nanos() as u64, timer.finished())
}

/// What a `Countdown` holds.
pub struct CountdownView {
    pub kind: TimerKind,
    pub elapsed: nat,
    pub duration: nat,
    pub paused: bool,
    pub finished: bool,
}

impl CountdownView {
    /// Time left until the timer finishes.
    pub open spec fn remaining(self) -> int {
        self.duration - self.elapsed
    }

    /// Whether one step of `delta` nanoseconds is defined.
    pub open spec fn can_tick(self, delta: nat) -> bool {
        !self.paused && !(self.kind == TimerKind::Once && self.finished) ==> tick_defined(
            self.kind,
            self.elapsed as int,
            self.duration as int,
            delta as int,
        )
    }

    /// The timer after one step of `delta` nanoseconds. A paused timer
    /// keeps its time, and a repeating one drops its finished flag. A
    /// finished one-shot timer stays as it is.
    pub open spec fn tick(self, delta: nat) -> CountdownView {
        if self.paused {
            CountdownView {
                finished: if self.kind == TimerKind::Repeating {
                    false
                } else {
                    self.finished
                },
                ..self
            }
        } else if self.kind == TimerKind::Once && self.finished {
            self
        } else {
            let t = ticked(self.kind, self.elapsed as int, self.duration as int, delta as int);
            CountdownView { elapsed: t.0 as nat, finished: t.1, ..self }
        }
    }
}

/// A timer that counts elapsed nanoseconds up to a duration.
#[derive(Copy, Clone, Debug)]
pub struct Countdown {
    kind: TimerKind,
    elapsed: u64,
    duration: u64,
    paused: bool,
    finished: bool,
}

impl View for Countdown {
    type V = CountdownView;

    closed spec fn view(&self) -> CountdownView {
        CountdownView {
            kind: self.kind,
            elapsed: self.elapsed as nat,
            duration: self.duration as nat,
            paused: self.paused,
            finished: self.finished,
        }
    }
}

impl Countdown {
    /// A running timer of the given kind with no time elapsed.
    pub fn new(duration: u64, kind: TimerKind) -> (r: Countdown)
        ensures
            r@ == (CountdownView {
                kind,
                elapsed: 0,
                duration: duration as nat,
                paused: false,
                finished: false,
            }),
    {
        Countdown { kind, elapsed: 0, duration, paused: false, finished: false }
    }

    /// What the timer does once its duration has passed.
    pub fn kind(&self) -> (r: TimerKind)
        ensures
            r == self@.kind,
    {
        self.kind
    }

    /// Whether the last step reached the duration.
    pub fn finished(&self) -> (r: bool)
        ensures
            r == self@.finished,
    {
        self.finished
    }

    /// Whether the timer is paused.
    pub fn paused(&self) -> (r: bool)
        ensures
            r == self@.paused,
    {
        self.paused
    }

    /// Nanoseconds elapsed.
    pub fn elapsed(&self) -> (r: u64)
        ensures
            r == self@.elapsed,
    {
        self.elapsed
    }

    /// Nanoseconds after which the timer finishes.
    pub fn duration(&self) -> (r: u64)
        ensures
            r == self@.duration,
    {
        self.duration
    }

    /// Nanoseconds left until the timer finishes; zero once it has passed
    /// its duration.
    pub fn remaining(&self) -> (r: u64)
        ensures
            r == if self@.remaining() >= 0 {
                self@.remaining()
            } else {
                0
            },
    {
        if self.elapsed <= self.duration {
            self.duration - self.elapsed
        } else {
            0
        }
    }

    /// Stops the timer from advancing.
    pub fn pause(&mut self)
        ensures
            final(self)@ == (CountdownView { paused: true, ..old(self)@ }),
    {
        self.paused = true;
    }

    /// Lets the timer advance again.
    pub fn unpause(&mut self)
        ensures
            final(self)@ == (CountdownView { paused: false, ..old(self)@ }),
    {
        self.paused = false;
    }

    /// Sets the elapsed time back to zero and drops the finished flag.
    pub fn reset(&mut self)
        ensures
            final(self)@ == (CountdownView { elapsed: 0, finished: false, ..old(self)@ }),
    {
        self.elapsed = 0;
        self.finished = false;
    }

    /// Gives the timer another duration; the elapsed time stays.
    pub fn set_duration(&mut self, duration: u64)
        ensures
            final(self)@ == (CountdownView { duration: duration as nat, ..old(self)@ }),
    {
        self.duration = duration;
    }

    /// Advances the timer by `delta` nanoseconds.
    pub fn tick(&mut self, delta: u64)
        requires
            old(self)@.can_tick(delta as nat),
        ensures
            final(self)@ == old(self)@.tick(delta as nat),
    {
        if self.paused {
            if self.kind == TimerKind::Repeating {
                self.finished = false;
            }
            return ;
        }
        if self.kind == TimerKind::Once && self.finished {
            return ;
        }
        let (elapsed, finished) = timer_tick(self.kind, self.elapsed, self.duration, delta);
        self.elapsed = elapsed;
        self.finished = finished;
    }
}

} // verus!
