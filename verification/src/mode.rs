//! The global mode controller: scatter and chase alternate on a fixed
//! schedule, and an energizer lays a frightened spell over it.

use vstd::prelude::*;
use crate::timer::{Countdown, CountdownView, TimerKind};

verus! {

/// What the ghosts are after.
#[derive(Copy, Clone, Debug, PartialEq, Eq, Structural)]
pub enum Mode {
    Scatter,
    Chase,
}

/// Whether the ghosts are frightened.
#[derive(Copy, Clone, Debug, PartialEq, Eq, Structural)]
pub enum FrightenedMode {
    Disabled,
    Enabled,
}

impl Default for Mode {
    /// The mode of the first phase of the schedule.
    fn default() -> (r: Mode)
        ensures
            r == phase_mode(0),
    {
        Mode::Scatter
    }
}

impl Default for FrightenedMode {
    /// Nobody is frightened.
    fn default() -> (r: FrightenedMode)
        ensures
            r == FrightenedMode::Disabled,
    {
        FrightenedMode::Disabled
    }
}

/// Nanoseconds in a second.
pub const SECOND: u64 = 1_000_000_000;

/// Number of phases of the schedule.
pub const PHASE_COUNT: usize = 8;

/// Index of the last phase, which never ends.
pub const LAST_PHASE: usize = 7;

/// Length of the shortest phase, in nanoseconds.
pub const SHORTEST_PHASE: u64 = 5_000_000_000;

/// Length of the longest phase that ends, in nanoseconds.
pub const LONGEST_PHASE: u64 = 20_000_000_000;

/// Length of a frightened spell, in nanoseconds.
pub const FRIGHTENED_DURATION: u64 = 6_000_000_000;

/// The mode of phase `i` of the schedule.
pub open spec fn phase_mode(i: int) -> Mode {
    if i == 0 || i == 2 || i == 4 || i == 6 {
        Mode::Scatter
    } else {
        Mode::Chase
    }
}

/// The length in nanoseconds of phase `i` of the schedule, for the phases
/// that end.
pub open spec fn phase_duration(i: int) -> nat {
    if i == 0 || i == 2 {
        7_000_000_000
    } else if i == 4 || i == 6 {
        5_000_000_000
    } else {
        20_000_000_000
    }
}

/// The time at which phase `i` of the schedule starts, in nanoseconds
/// since the start of the first phase.
pub open spec fn phase_start(i: int) -> nat
    decreases i,
{
    if i <= 0 {
        0
    } else {
        phase_start(i - 1) + phase_duration(i - 1)
    }
}

/// The phase that the schedule is in `t` nanoseconds after its start: the
/// last phase whose start is not after `t`.
pub open spec fn phase_at(t: nat) -> int {
    if t < phase_start(1) {
        0
    } else if t < phase_start(2) {
        1
    } else if t < phase_start(3) {
        2
    } else if t < phase_start(4) {
        3
    } else if t < phase_start(5) {
        4
    } else if t < phase_start(6) {
        5
    } else if t < phase_start(7) {
        6
    } else {
        7
    }
}

/// Phase `i` of the schedule: its mode, and its length in nanoseconds
/// unless it never ends.
pub fn phase(i: usize) -> (r: (Mode, Option<u64>))
    requires
        i < PHASE_COUNT,
    ensures
        r.0 == phase_mode(i as int),
        r.1 == if i < LAST_PHASE {
            Some(phase_duration(i as int) as u64)
        } else {
            None
        },
{
    if i == 0 || i == 2 {
        (Mode::Scatter, Some(7 * SECOND))
    } else if i == 4 || i == 6 {
        (Mode::Scatter, Some(5 * SECOND))
    } else if i == 7 {
        (Mode::Chase, None)
    } else {
        (Mode::Chase, Some(20 * SECOND))
    }
}

/// What a `ModeTimer` holds.
pub struct ModeTimerView {
    pub index: nat,
    pub timer: CountdownView,
}

impl ModeTimerView {
    /// The timer repeats, its phase exists, its duration is that of its
    /// phase, and less than the longest phase has elapsed.
    pub open spec fn wf(self) -> bool {
        &&& self.index <= LAST_PHASE
        &&& self.timer.kind == TimerKind::Repeating
        &&& self.index < LAST_PHASE ==> self.timer.duration == phase_duration(self.index as int)
        &&& self.timer.elapsed < LONGEST_PHASE
    }

    /// Whether the current phase has not yet run its full length.
    pub open spec fn on_schedule(self) -> bool {
        self.index < LAST_PHASE ==> self.timer.elapsed < self.timer.duration
    }

    /// Nanoseconds of the schedule that have passed.
    pub open spec fn clock(self) -> nat {
        phase_start(self.index as int) + self.timer.elapsed
    }

    /// The timer after `delta` nanoseconds. The last phase never ends.
    /// Before it, the phase's timer advances unless it is paused; when it
    /// finishes, the next phase starts, and keeps the time by which the
    /// timer overshot. On entering the last phase the timer is cleared and
    /// paused.
    pub open spec fn tick(self, delta: nat) -> ModeTimerView {
        if self.index >= LAST_PHASE {
            self
        } else {
            let t = self.timer.tick(delta);
            if !t.finished {
                ModeTimerView { timer: t, ..self }
            } else if self.index + 1 == LAST_PHASE {
                ModeTimerView {
                    index: self.index + 1,
                    timer: CountdownView { elapsed: 0, finished: false, paused: true, ..t },
                }
            } else {
                ModeTimerView {
                    index: self.index + 1,
                    timer: CountdownView { duration: phase_duration(self.index as int + 1), ..t },
                }
            }
        }
    }
}

/// The place in the schedule: the current phase and its timer.
#[derive(Copy, Clone, Debug)]
pub struct ModeTimer {
    index: usize,
    timer: Countdown,
}

impl View for ModeTimer {
    type V = ModeTimerView;

    closed spec fn view(&self) -> ModeTimerView {
        ModeTimerView { index: self.index as nat, timer: self.timer@ }
    }
}

impl ModeTimer {
    /// Every schedule timer is well formed.
    #[verifier::type_invariant]
    pub open spec fn well_formed(self) -> bool {
        self@.wf()
    }

    /// The start of the schedule.
    pub fn new() -> (r: ModeTimer)
        ensures
            r@.wf(),
            r@.index == 0,
            r@.timer.elapsed == 0,
            !r@.timer.paused,
            !r@.timer.finished,
    {
        ModeTimer { index: 0, timer: Countdown::new(7 * SECOND, TimerKind::Repeating) }
    }

    /// Index of the current phase.
    pub fn index(&self) -> (r: usize)
        ensures
            r == self@.index,
    {
        self.index
    }

    /// The phase's timer.
    pub fn timer(&self) -> (r: Countdown)
        ensures
            r@ == self@.timer,
    {
        self.timer
    }
}

impl Default for ModeTimer {
    /// The start of the schedule.
    fn default() -> (r: ModeTimer)
        ensures
            r@.wf(),
            r@.index == 0,
            r@.timer.elapsed == 0,
            !r@.timer.paused,
            !r@.timer.finished,
    {
        ModeTimer::new()
    }
}

/// Any step of any length is defined for the timer of a phase that ends.
pub proof fn lemma_phase_tick_defined(t: ModeTimerView, delta: nat)
    requires
        t.wf(),
        t.index < LAST_PHASE,
        delta <= u64::MAX,
    ensures
        t.timer.can_tick(delta),
{
    let total = (t.timer.elapsed + delta) as int;
    let d = t.timer.duration as int;
    assert(d >= 5_000_000_000);
    assert(total / d <= 0xffff_ffff) by (nonlinear_arith)
        requires
            d >= 5_000_000_000,
            0 <= total < 18_446_744_093_709_551_616,
    ;
}

/// Advances the schedule by `delta` nanoseconds and sets `mode` to the mode
/// of the phase that it is in afterwards.
pub fn tick_mode(delta: u64, mode_timer: &mut ModeTimer, mode: &mut Mode)
    ensures
        old(mode_timer)@.wf(),
        final(mode_timer)@ == old(mode_timer)@.tick(delta as nat),
        final(mode_timer)@.wf(),
        *final(mode) == if final(mode_timer)@.index == old(mode_timer)@.index {
            *old(mode)
        } else {
            phase_mode(final(mode_timer)@.index as int)
        },
{
    proof {
        use_type_invariant(&*mode_timer);
    }
    if mode_timer.index >= LAST_PHASE {
        return ;
    }
    proof {
        lemma_phase_tick_defined(mode_timer@, delta as nat);
    }
    let mut timer = mode_timer.timer;
    timer.tick(delta);
    if !timer.finished() {
        *mode_timer = ModeTimer { index: mode_timer.index, timer };
        return ;
    }
    let index = mode_timer.index + 1;
    let (new_mode, new_duration) = phase(index);
    *mode = new_mode;
    match new_duration {
        Some(duration) => {
            timer.set_duration(duration);
        },
        None => {
            timer.reset();
            timer.pause();
        },
    }
    *mode_timer = ModeTimer { index, timer };
}

/// The timer of the frightened spell.
#[derive(Copy, Clone, Debug)]
pub struct FrightenedTimer {
    timer: Countdown,
}

impl View for FrightenedTimer {
    type V = CountdownView;

    closed spec fn view(&self) -> CountdownView {
        self.timer@
    }
}

/// Whether `t` is a timer for the frightened spell: a one-shot timer of the
/// spell's length.
pub open spec fn is_spell_timer(t: CountdownView) -> bool {
    &&& t.kind == TimerKind::Once
    &&& t.duration == FRIGHTENED_DURATION
}

/// Whether the spell's timer runs out within the next `delta`
/// nanoseconds: it was not finished, and is finished afterwards.
pub open spec fn spell_expires(t: CountdownView, delta: nat) -> bool {
    !t.finished && t.tick(delta).finished
}

/// The spell's timer after `delta` nanoseconds: it advances, and pauses
/// when it runs out.
pub open spec fn spell_tick(t: CountdownView, delta: nat) -> CountdownView {
    if spell_expires(t, delta) {
        CountdownView { paused: true, ..t.tick(delta) }
    } else {
        t.tick(delta)
    }
}

/// The spell's timer at the start of a spell: running, with no time
/// elapsed.
pub open spec fn spell_started(t: CountdownView) -> CountdownView {
    CountdownView { elapsed: 0, finished: false, paused: false, ..t }
}

impl FrightenedTimer {
    /// Every spell timer is a one-shot timer of the spell's length.
    #[verifier::type_invariant]
    pub open spec fn well_formed(self) -> bool {
        is_spell_timer(self@)
    }

    /// A timer that waits, paused, for the first spell.
    pub fn new() -> (r: FrightenedTimer)
        ensures
            is_spell_timer(r@),
            r@.paused,
            !r@.finished,
            r@.elapsed == 0,
    {
        let mut timer = Countdown::new(FRIGHTENED_DURATION, TimerKind::Once);
        timer.pause();
        FrightenedTimer { timer }
    }

    /// The spell's timer.
    pub fn timer(&self) -> (r: Countdown)
        ensures
            r@ == self@,
    {
        self.timer
    }
}

impl Default for FrightenedTimer {
    /// A timer that waits, paused, for the first spell.
    fn default() -> (r: FrightenedTimer)
        ensures
            is_spell_timer(r@),
            r@.paused,
            !r@.finished,
            r@.elapsed == 0,
    {
        FrightenedTimer::new()
    }
}

/// Starts a frightened spell, or starts a running one over: the schedule
/// pauses where it is, and the spell's timer runs from zero.
pub fn start_frightened_timer(mode_timer: &mut ModeTimer, frightened_timer: &mut FrightenedTimer)
    ensures
        final(mode_timer)@ == (ModeTimerView {
            timer: CountdownView { paused: true, ..old(mode_timer)@.timer },
            ..old(mode_timer)@
        }),
        final(frightened_timer)@ == spell_started(old(frightened_timer)@),
{
    proof {
        use_type_invariant(&*mode_timer);
        use_type_invariant(&*frightened_timer);
    }
    let mut schedule = mode_timer.timer;
    schedule.pause();
    *mode_timer = ModeTimer { index: mode_timer.index, timer: schedule };
    let mut spell = frightened_timer.timer;
    spell.reset();
    spell.unpause();
    *frightened_timer = FrightenedTimer { timer: spell };
}

/// Advances the frightened spell by `delta` nanoseconds. In the step in
/// which its timer runs out the spell is over: the schedule goes on from
/// where it paused, and `mode` is cleared. In every other step the
/// schedule and `mode` stay as they are.
pub fn tick_frightened(
    delta: u64,
    mode_timer: &mut ModeTimer,
    frightened_timer: &mut FrightenedTimer,
    mode: &mut FrightenedMode,
)
    ensures
        final(frightened_timer)@ == spell_tick(old(frightened_timer)@, delta as nat),
        final(mode_timer)@ == if spell_expires(old(frightened_timer)@, delta as nat) {
            ModeTimerView {
                timer: CountdownView { paused: false, ..old(mode_timer)@.timer },
                ..old(mode_timer)@
            }
        } else {
            old(mode_timer)@
        },
        *final(mode) == if spell_expires(old(frightened_timer)@, delta as nat) {
            FrightenedMode::Disabled
        } else {
            *old(mode)
        },
{
    proof {
        use_type_invariant(&*mode_timer);
        use_type_invariant(&*frightened_timer);
    }
    let mut spell = frightened_timer.timer;
    let was_finished = spell.finished();
    spell.tick(delta);
    if !was_finished && spell.finished() {
        let mut schedule = mode_timer.timer;
        schedule.unpause();
        *mode_timer = ModeTimer { index: mode_timer.index, timer: schedule };
        spell.pause();
        *mode = FrightenedMode::Disabled;
    }
    *frightened_timer = FrightenedTimer { timer: spell };
}

/// What a `ModeController` holds.
pub struct ModeControllerView {
    pub mode: Mode,
    pub frightened: FrightenedMode,
    pub mode_timer: ModeTimerView,
    pub frightened_timer: CountdownView,
}

impl ModeControllerView {
    /// The mode is that of the current phase. During a spell the spell's
    /// timer runs and the schedule is paused; outside one the spell's timer
    /// is paused and the schedule runs.
    pub open spec fn wf(self) -> bool {
        &&& self.mode_timer.wf()
        &&& is_spell_timer(self.frightened_timer)
        &&& self.mode == phase_mode(self.mode_timer.index as int)
        &&& self.frightened == FrightenedMode::Enabled ==> {
            &&& !self.frightened_timer.paused
            &&& !self.frightened_timer.finished
            &&& self.frightened_timer.elapsed < FRIGHTENED_DURATION
            &&& self.mode_timer.timer.paused
        }
        &&& self.frightened == FrightenedMode::Disabled ==> {
            &&& self.frightened_timer.paused
            &&& self.mode_timer.index < LAST_PHASE ==> !self.mode_timer.timer.paused
        }
    }

    /// The state at the start of a game.
    pub open spec fn is_initial(self) -> bool {
        &&& self.wf()
        &&& self.frightened == FrightenedMode::Disabled
        &&& self.mode_timer.index == 0
        &&& self.mode_timer.timer.elapsed == 0
    }

    /// Whether the spell ends within the next `delta` nanoseconds.
    pub open spec fn spell_ends_within(self, delta: nat) -> bool {
        spell_expires(self.frightened_timer, delta)
    }

    /// The state after `delta` nanoseconds: first the schedule advances,
    /// then the spell. A spell that ends lets the schedule run again; with
    /// no spell on, only the schedule changes.
    pub open spec fn tick(self, delta: nat) -> ModeControllerView {
        let advanced = self.mode_timer.tick(delta);
        let over = self.spell_ends_within(delta);
        ModeControllerView {
            mode: phase_mode(advanced.index as int),
            frightened: if over {
                FrightenedMode::Disabled
            } else {
                self.frightened
            },
            mode_timer: if over {
                ModeTimerView {
                    timer: CountdownView { paused: false, ..advanced.timer },
                    ..advanced
                }
            } else {
                advanced
            },
            frightened_timer: spell_tick(self.frightened_timer, delta),
        }
    }

    /// The state after an energizer was eaten: a spell starts, or the
    /// running spell starts over.
    pub open spec fn eat_energizer(self) -> ModeControllerView {
        ModeControllerView {
            frightened: FrightenedMode::Enabled,
            mode_timer: ModeTimerView {
                timer: CountdownView { paused: true, ..self.mode_timer.timer },
                ..self.mode_timer
            },
            frightened_timer: spell_started(self.frightened_timer),
            ..self
        }
    }
}

/// What one step changed.
#[derive(Copy, Clone, Debug, PartialEq, Eq, Structural)]
pub struct ModeChange {
    /// The schedule entered its next phase.
    pub mode_changed: bool,
    /// A frightened spell ended.
    pub frightened_ended: bool,
}

/// The mode controller: the schedule of scatter and chase, and the
/// frightened spell that suspends it.
#[derive(Copy, Clone, Debug)]
pub struct ModeController {
    mode: Mode,
    frightened: FrightenedMode,
    mode_timer: ModeTimer,
    frightened_timer: FrightenedTimer,
}

impl View for ModeController {
    type V = ModeControllerView;

    closed spec fn view(&self) -> ModeControllerView {
        ModeControllerView {
            mode: self.mode,
            frightened: self.frightened,
            mode_timer: self.mode_timer@,
            frightened_timer: self.frightened_timer@,
        }
    }
}

impl ModeController {
    /// Every controller is well formed.
    #[verifier::type_invariant]
    pub open spec fn well_formed(self) -> bool {
        self@.wf()
    }

    /// The controller at the start of a game: the first phase has just
    /// begun and nobody is frightened.
    pub fn new() -> (r: ModeController)
        ensures
            r@.is_initial(),
            r@.mode == Mode::Scatter,
            !r@.mode_timer.timer.finished,
            r@.frightened_timer.elapsed == 0,
            !r@.frightened_timer.finished,
    {
        ModeController {
            mode: Mode::Scatter,
            frightened: FrightenedMode::Disabled,
            mode_timer: ModeTimer::new(),
            frightened_timer: FrightenedTimer::new(),
        }
    }

    /// The current mode of the schedule.
    pub fn mode(&self) -> (r: Mode)
        ensures
            r == self@.mode,
    {
        self.mode
    }

    /// Whether a frightened spell is on.
    pub fn frightened(&self) -> (r: FrightenedMode)
        ensures
            r == self@.frightened,
    {
        self.frightened
    }

    /// Index of the current phase of the schedule.
    pub fn phase_index(&self) -> (r: usize)
        ensures
            r == self@.mode_timer.index,
    {
        self.mode_timer.index()
    }

    /// Nanoseconds left of the current phase; nothing for the last phase,
    /// which never ends.
    pub fn phase_remaining(&self) -> (r: Option<u64>)
        ensures
            r == if self@.mode_timer.index >= LAST_PHASE {
                None
            } else if self@.mode_timer.timer.remaining() >= 0 {
                Some(self@.mode_timer.timer.remaining() as u64)
            } else {
                Some(0u64)
            },
    {
        if self.mode_timer.index() >= LAST_PHASE {
            None
        } else {
            Some(self.mode_timer.timer().remaining())
        }
    }

    /// Nanoseconds left of the frightened spell; nothing when no spell is
    /// on.
    pub fn frightened_remaining(&self) -> (r: Option<u64>)
        ensures
            r == match self@.frightened {
                FrightenedMode::Disabled => None,
                FrightenedMode::Enabled => Some(
                    if self@.frightened_timer.remaining() >= 0 {
                        self@.frightened_timer.remaining() as u64
                    } else {
                        0u64
                    },
                ),
            },
    {
        match self.frightened {
            FrightenedMode::Disabled => None,
            FrightenedMode::Enabled => Some(self.frightened_timer.timer().remaining()),
        }
    }

    /// Advances the controller by `delta` nanoseconds.
    pub fn tick(&mut self, delta: u64) -> (change: ModeChange)
        ensures
            old(self)@.wf(),
            final(self)@ == old(self)@.tick(delta as nat),
            final(self)@.wf(),
            change.mode_changed == (final(self)@.mode_timer.index != old(self)@.mode_timer.index),
            change.frightened_ended == (old(self)@.frightened == FrightenedMode::Enabled
                && final(self)@.frightened == FrightenedMode::Disabled),
    {
        proof {
            use_type_invariant(&*self);
        }
        let index_before = self.mode_timer.index();
        let was_frightened = self.frightened == FrightenedMode::Enabled;
        let mut mode = self.mode;
        let mut frightened = self.frightened;
        let mut mode_timer = self.mode_timer;
        let mut frightened_timer = self.frightened_timer;
        tick_mode(delta, &mut mode_timer, &mut mode);
        tick_frightened(delta, &mut mode_timer, &mut frightened_timer, &mut frightened);
        *self = ModeController { mode, frightened, mode_timer, frightened_timer };
        ModeChange {
            mode_changed: mode_timer.index() != index_before,
            frightened_ended: was_frightened && frightened == FrightenedMode::Disabled,
        }
    }

    /// Starts a frightened spell because an energizer was eaten. A spell
    /// that is already on starts over.
    pub fn eat_energizer(&mut self)
        ensures
            old(self)@.wf(),
            final(self)@ == old(self)@.eat_energizer(),
            final(self)@.wf(),
    {
        proof {
            use_type_invariant(&*self);
        }
        let mut mode_timer = self.mode_timer;
        let mut frightened_timer = self.frightened_timer;
        start_frightened_timer(&mut mode_timer, &mut frightened_timer);
        *self = ModeController {
            mode: self.mode,
            frightened: FrightenedMode::Enabled,
            mode_timer,
            frightened_timer,
        };
    }
}

/// The state after the steps `deltas`, taken one after the other.
pub open spec fn run(s: ModeControllerView, deltas: Seq<nat>) -> ModeControllerView
    decreases deltas.len(),
{
    if deltas.len() == 0 {
        s
    } else {
        run(s, deltas.drop_last()).tick(deltas.last())
    }
}

/// The time that the steps `deltas` take together.
pub open spec fn total(deltas: Seq<nat>) -> nat
    decreases deltas.len(),
{
    if deltas.len() == 0 {
        0
    } else {
        total(deltas.drop_last()) + deltas.last()
    }
}

/// Whether the schedule of `s` is where it should be `t` nanoseconds after
/// its start, with no spell on.
pub open spec fn keeps_time(s: ModeControllerView, t: nat) -> bool {
    &&& s.wf()
    &&& s.frightened == FrightenedMode::Disabled
    &&& s.mode_timer.on_schedule()
    &&& s.mode_timer.index < LAST_PHASE ==> s.mode_timer.clock() == t
    &&& s.mode_timer.index == LAST_PHASE ==> t >= phase_start(LAST_PHASE as int)
}

/// A schedule that keeps time is in the phase that the table gives for the
/// time passed.
pub proof fn lemma_keeps_time_gives_phase(s: ModeControllerView, t: nat)
    requires
        keeps_time(s, t),
    ensures
        s.mode_timer.index == phase_at(t),
        s.mode == phase_mode(phase_at(t)),
{
    reveal_with_fuel(phase_start, 9);
}

/// Whether a step of `delta` nanoseconds leaves the schedule on time. A
/// step that ends within the current phase does, and so does any step from
/// the last phase that ends, or from the phase that never ends. Before
/// that a step may run past the end of the current phase by less than the
/// length of that phase and by less than the length of the next.
pub open spec fn fits_schedule(m: ModeTimerView, delta: nat) -> bool {
    m.index + 1 < LAST_PHASE ==> {
        &&& m.timer.elapsed + delta < 2 * m.timer.duration
        &&& m.timer.elapsed + delta < m.timer.duration + phase_duration(m.index as int + 1)
    }
}

/// Whether each of the steps `deltas`, taken one after the other from `s`,
/// leaves the schedule on time.
pub open spec fn all_fit(s: ModeControllerView, deltas: Seq<nat>) -> bool
    decreases deltas.len(),
{
    deltas.len() == 0 || (all_fit(s, deltas.drop_last()) && fits_schedule(
        run(s, deltas.drop_last()).mode_timer,
        deltas.last(),
    ))
}

/// A step that fits keeps the schedule on time.
pub proof fn lemma_step_keeps_time(s: ModeControllerView, t: nat, delta: nat)
    requires
        keeps_time(s, t),
        fits_schedule(s.mode_timer, delta),
    ensures
        keeps_time(s.tick(delta), t + delta),
{
    reveal_with_fuel(phase_start, 9);
    if s.mode_timer.index < LAST_PHASE {
        let e = s.mode_timer.timer.elapsed as int;
        let d = s.mode_timer.timer.duration as int;
        let sum = e + delta;
        if sum >= d && s.mode_timer.index + 1 < LAST_PHASE {
            assert(sum % d == sum - d) by (nonlinear_arith)
                requires
                    0 < d <= sum < 2 * d,
            ;
        }
    }
}

/// With no frightened spell in between, and with steps that fit, the
/// schedule is always in the phase that the table gives for the time passed
/// since the start of the game.
pub proof fn lemma_schedule_follows_table(s: ModeControllerView, deltas: Seq<nat>)
    requires
        s.is_initial(),
        all_fit(s, deltas),
    ensures
        keeps_time(run(s, deltas), total(deltas)),
        run(s, deltas).mode_timer.index == phase_at(total(deltas)),
        run(s, deltas).mode == phase_mode(phase_at(total(deltas))),
    decreases deltas.len(),
{
    reveal_with_fuel(phase_start, 9);
    if deltas.len() == 0 {
        assert(keeps_time(s, 0));
    } else {
        lemma_schedule_follows_table(s, deltas.drop_last());
        lemma_step_keeps_time(run(s, deltas.drop_last()), total(deltas.drop_last()), deltas.last());
    }
    lemma_keeps_time_gives_phase(run(s, deltas), total(deltas));
}

/// Steps that are no longer than the shortest phase all fit.
pub proof fn lemma_short_steps_fit(s: ModeControllerView, deltas: Seq<nat>)
    requires
        s.is_initial(),
        forall|i: int| 0 <= i < deltas.len() ==> deltas[i] <= SHORTEST_PHASE,
    ensures
        all_fit(s, deltas),
    decreases deltas.len(),
{
    if deltas.len() > 0 {
        lemma_short_steps_fit(s, deltas.drop_last());
        lemma_schedule_follows_table(s, deltas.drop_last());
    }
}

/// With no spell on, a step leaves the spell alone and does to the
/// schedule only what the schedule's own timer does: nobody becomes
/// frightened, the spell's timer stays as it is, and a paused schedule
/// stays paused.
pub proof fn lemma_idle_spell_changes_nothing(s: ModeControllerView, delta: nat)
    requires
        s.wf(),
        s.frightened == FrightenedMode::Disabled,
    ensures
        s.tick(delta).frightened == FrightenedMode::Disabled,
        s.tick(delta).frightened_timer == s.frightened_timer,
        s.tick(delta).mode_timer == s.mode_timer.tick(delta),
        s.mode_timer.index == LAST_PHASE ==> s.tick(delta).mode_timer == s.mode_timer,
{
}

/// Once the schedule has reached its last phase it stays there in chase
/// mode, whatever time passes and whatever is eaten.
pub proof fn lemma_last_phase_is_permanent(s: ModeControllerView, delta: nat)
    requires
        s.wf(),
        s.mode_timer.index == LAST_PHASE,
    ensures
        s.mode == Mode::Chase,
        s.tick(delta).mode_timer.index == LAST_PHASE,
        s.tick(delta).mode == Mode::Chase,
        s.eat_energizer().mode_timer.index == LAST_PHASE,
        s.eat_energizer().mode == Mode::Chase,
{
}

/// Whether `a` and `b` are at the same place of the schedule: the same
/// phase, with the same time elapsed and the same time left.
pub open spec fn same_place(a: ModeControllerView, b: ModeControllerView) -> bool {
    &&& a.mode == b.mode
    &&& a.mode_timer.index == b.mode_timer.index
    &&& a.mode_timer.timer.elapsed == b.mode_timer.timer.elapsed
    &&& a.mode_timer.timer.duration == b.mode_timer.timer.duration
}

/// A frightened spell suspends the schedule and does not move it: from
/// the energizer to the step in which the spell ends, the schedule stays at
/// the place where the energizer found it. The spell lasts until its steps
/// add up to its length; then the schedule runs again.
pub proof fn lemma_spell_resumes_where_it_paused(s: ModeControllerView, deltas: Seq<nat>)
    requires
        s.wf(),
        deltas.len() > 0 ==> total(deltas.drop_last()) < FRIGHTENED_DURATION,
    ensures
        run(s.eat_energizer(), deltas).wf(),
        same_place(run(s.eat_energizer(), deltas), s),
        total(deltas) < FRIGHTENED_DURATION ==> {
            &&& run(s.eat_energizer(), deltas).frightened == FrightenedMode::Enabled
            &&& run(s.eat_energizer(), deltas).frightened_timer.elapsed == total(deltas)
            &&& run(s.eat_energizer(), deltas).mode_timer.timer.paused
        },
        total(deltas) >= FRIGHTENED_DURATION ==> {
            &&& run(s.eat_energizer(), deltas).frightened == FrightenedMode::Disabled
            &&& !run(s.eat_energizer(), deltas).mode_timer.timer.paused
        },
    decreases deltas.len(),
{
    if deltas.len() > 0 {
        let before = deltas.drop_last();
        if before.len() > 0 {
            assert(total(before) == total(before.drop_last()) + before.last());
        }
        lemma_spell_resumes_where_it_paused(s, before);
    }
}

/// An energizer eaten during a spell starts the spell over: its full
/// length is left again, and the schedule stays where it is.
pub proof fn lemma_energizer_restarts_spell(s: ModeControllerView)
    requires
        s.wf(),
    ensures
        s.eat_energizer().wf(),
        s.eat_energizer().frightened == FrightenedMode::Enabled,
        s.eat_energizer().frightened_timer.remaining() == FRIGHTENED_DURATION,
        same_place(s.eat_energizer(), s),
{
}

} // verus!
