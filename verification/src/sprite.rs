//! Which picture of an actor's sheet is shown: pictures come in pairs, one
//! pair for each direction, and the two of a pair alternate while the
//! actor moves.

use vstd::prelude::*;
use crate::grid::Dir;
use crate::timer::{Countdown, CountdownView, TimerKind};

verus! {

/// Nanoseconds after which a moving actor shows the other picture of its
/// pair.
pub const ANIMATION_PERIOD: u64 = 200_000_000;

/// The longest step that the animation takes at once, in nanoseconds.
pub const LONGEST_ANIMATION_STEP: u64 = 800_000_000_000_000_000;

/// The first picture of the pair for direction `dir`.
pub open spec fn facing(dir: Dir) -> int {
    match dir {
        Dir::Right => 0,
        Dir::Left => 2,
        Dir::Up => 4,
        Dir::Down => 6,
    }
}

/// The other picture of the pair that picture `index` belongs to.
pub open spec fn other_of_pair(index: int) -> int {
    if index % 2 == 0 {
        index + 1
    } else {
        index - 1
    }
}

/// The picture for an actor that has turned to `dir` while it showed
/// picture `index`: the one of the new pair that stands where `index`
/// stood in its pair, so that the alternation goes on undisturbed.
pub fn set_sprite_direction(dir: Dir, index: usize) -> (r: usize)
    ensures
        r == facing(dir) + index % 2,
{
    let first: usize = match dir {
        Dir::Right => 0,
        Dir::Left => 2,
        Dir::Up => 4,
        Dir::Down => 6,
    };
    first + index % 2
}

/// The timer of an actor's animation.
#[derive(Copy, Clone, Debug)]
pub struct AnimationTimer {
    timer: Countdown,
}

impl View for AnimationTimer {
    type V = CountdownView;

    closed spec fn view(&self) -> CountdownView {
        self.timer@
    }
}

/// Whether `t` is the timer of an animation: a running repeating timer of
/// the animation's period that has not used up its period.
pub open spec fn is_animation_timer(t: CountdownView) -> bool {
    &&& t.kind == TimerKind::Repeating
    &&& t.duration == ANIMATION_PERIOD
    &&& t.elapsed < ANIMATION_PERIOD
    &&& !t.paused
}

impl AnimationTimer {
    /// Every animation timer runs, repeats after the animation's period,
    /// and has not used up its period.
    #[verifier::type_invariant]
    pub open spec fn well_formed(self) -> bool {
        is_animation_timer(self@)
    }

    /// A timer at the start of its period.
    pub fn new() -> (r: AnimationTimer)
        ensures
            is_animation_timer(r@),
            r@.elapsed == 0,
            !r@.finished,
    {
        AnimationTimer { timer: Countdown::new(ANIMATION_PERIOD, TimerKind::Repeating) }
    }

    /// The timer itself.
    pub fn timer(&self) -> (r: Countdown)
        ensures
            r@ == self@,
    {
        self.timer
    }
}

impl Default for AnimationTimer {
    /// A timer at the start of its period.
    fn default() -> (r: AnimationTimer)
        ensures
            is_animation_timer(r@),
            r@.elapsed == 0,
            !r@.finished,
    {
        AnimationTimer::new()
    }
}

/// Advances the animation of a moving actor by `delta` nanoseconds, and
/// gives the picture to show: the other of the pair where a period has
/// run out, else the one that is shown.
pub fn animate(timer: &mut AnimationTimer, delta: u64, index: usize) -> (r: usize)
    requires
        delta <= LONGEST_ANIMATION_STEP,
    ensures
        is_animation_timer(old(timer)@),
        final(timer)@ == old(timer)@.tick(delta as nat),
        is_animation_timer(final(timer)@),
        r == if final(timer)@.finished {
            other_of_pair(index as int)
        } else {
            index as int
        },
{
    proof {
        use_type_invariant(&*timer);
        let total = (timer@.elapsed + delta) as int;
        assert(total / 200_000_000 <= 0xffff_ffff) by (nonlinear_arith)
            requires
                0 <= total < 800_000_000_000_000_000 + 200_000_000,
        ;
    }
    assert(usize::MAX % 2 == 1) by {
        assert(usize::MAX == 0xffff_ffff || usize::MAX == 0xffff_ffff_ffff_ffff);
    }
    let mut period = timer.timer;
    period.tick(delta);
    *timer = AnimationTimer { timer: period };
    if period.finished() {
        if index % 2 == 0 {
            index + 1
        } else {
            index - 1
        }
    } else {
        index
    }
}

} // verus!
