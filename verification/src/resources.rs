//! The score ledger and the two spawn timers.

use vstd::prelude::*;
use bevy::time::{Timer, TimerMode};
use std::time::Duration;
use crate::components::{ENEMY_SPAWN_TIME, STAR_SPAWN_TIME};

verus! {

/// The running score of the active session.
#[derive(Clone, Copy, Debug)]
pub struct Score {
    pub value: u32,
}

/// The results of the completed sessions, oldest first. Entries are only
/// ever appended.
#[derive(Debug)]
pub struct HighScores {
    pub scores: Vec<(String, u32)>,
}

/// A repeating countdown: the time elapsed in the current period, the period,
/// and whether the last tick completed a period. Times are in nanoseconds.
#[derive(Clone, Copy, Debug)]
pub struct RepeatingTimer {
    pub elapsed: u64,
    pub period: u64,
    pub finished: bool,
}

/// The cadence at which stars are added to a running session.
#[derive(Clone, Copy, Debug)]
pub struct StarSpawnTimer {
    pub timer: RepeatingTimer,
}

/// The cadence at which enemies are added to a running session.
#[derive(Clone, Copy, Debug)]
pub struct EnemySpawnTimer {
    pub timer: RepeatingTimer,
}

/// The time elapsed in the current period after `delta` more nanoseconds:
/// whole periods are dropped. A timer with an empty period stays at zero.
pub open spec fn wrapped_elapsed(elapsed: int, period: int, delta: int) -> int {
    if period == 0 {
        0
    } else {
        (elapsed + delta) % period
    }
}

/// Advances a timer of `bevy::time` by `delta` nanoseconds: a repeating
/// timer made by `Timer::new` with the given period, set to `elapsed`
/// nanoseconds by `Timer::set_elapsed`, is ticked by `Timer::tick`, and
/// `Timer::elapsed` and `Timer::is_finished` are read off it.
///
/// Trusted: the tick adds `delta` to the elapsed time; the timer is finished
/// exactly when the sum has reached the period, and it then keeps what is
/// left of the sum after whole periods (nothing, for an empty period).
#[verifier::external_body]
fn tick_repeating(elapsed: u64, period: u64, delta: u64) -> (r: (u64, bool))
    ensures
        r.0 == wrapped_elapsed(elapsed as int, period as int, delta as int),
        r.1 == (elapsed + delta >= period),
{
    let mut timer = Timer::new(Duration::from_nanos(period), TimerMode::Repeating);
    timer.set_elapsed(Duration::from_nanos(elapsed));
    timer.tick(Duration::from_nanos(delta));
    (timer.elapsed().as_nanos() as u64, timer.is_finished())
}

impl View for HighScores {
    type V = Seq<(Seq<char>, u32)>;

    /// The entries, oldest first, each as its label and its score.
    open spec fn view(&self) -> Seq<(Seq<char>, u32)> {
        self.scores@.map_values(|entry: (String, u32)| (entry.0@, entry.1))
    }
}

impl Default for Score {
    fn default() -> (r: Score)
        ensures
            r.value == 0,
    {
        Score { value: 0 }
    }
}

impl Default for HighScores {
    fn default() -> (r: HighScores)
        ensures
            r@ == Seq::<(Seq<char>, u32)>::empty(),
    {
        let r = HighScores { scores: Vec::new() };
        assert(r@ =~= Seq::<(Seq<char>, u32)>::empty());
        r
    }
}

impl RepeatingTimer {
    /// This timer after `delta` more nanoseconds.
    pub open spec fn ticked_spec(self, delta: int) -> RepeatingTimer {
        RepeatingTimer {
            elapsed: wrapped_elapsed(self.elapsed as int, self.period as int, delta) as u64,
            period: self.period,
            finished: self.elapsed + delta >= self.period,
        }
    }

    /// A timer of the given period with nothing elapsed.
    pub fn new(period: u64) -> (r: RepeatingTimer)
        ensures
            r == (RepeatingTimer { elapsed: 0, period, finished: false }),
    {
        RepeatingTimer { elapsed: 0, period, finished: false }
    }

    /// Advances the timer by `delta` nanoseconds. It is finished afterwards
    /// exactly when this tick completed a period.
    pub fn tick(&mut self, delta: u64)
        ensures
            *final(self) == old(self).ticked_spec(delta as int),
    {
        let (elapsed, finished) = tick_repeating(self.elapsed, self.period, delta);
        self.elapsed = elapsed;
        self.finished = finished;
    }

    /// Whether the last tick completed a period.
    pub fn is_finished(&self) -> (r: bool)
        ensures
            r == self.finished,
    {
        self.finished
    }
}

impl Default for StarSpawnTimer {
    fn default() -> (r: StarSpawnTimer)
        ensures
            r.timer == RepeatingTimer::new_spec(STAR_SPAWN_TIME),
    {
        StarSpawnTimer { timer: RepeatingTimer::new(STAR_SPAWN_TIME) }
    }
}

impl Default for EnemySpawnTimer {
    fn default() -> (r: EnemySpawnTimer)
        ensures
            r.timer == RepeatingTimer::new_spec(ENEMY_SPAWN_TIME),
    {
        EnemySpawnTimer { timer: RepeatingTimer::new(ENEMY_SPAWN_TIME) }
    }
}

impl RepeatingTimer {
    /// A timer of the given period with nothing elapsed.
    pub open spec fn new_spec(period: u64) -> RepeatingTimer {
        RepeatingTimer { elapsed: 0, period, finished: false }
    }
}

} // verus!
