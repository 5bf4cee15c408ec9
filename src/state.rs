//! Level progression and the pause timer of a game.
//!
//! Times are read from a monotonic clock in whole microseconds.
use vstd::prelude::*;

verus! {

/// Width of the arena.
pub const WIDTH: u32 = 800;

/// Height of the arena.
pub const HEIGHT: u32 = 800;

/// How long the game stays paused after a level-up, in microseconds (2 s).
pub const LEVEL_PAUSE: u64 = 2_000_000;

/// The number of rocks placed at a level: the level times the difficulty of
/// 2.5 rocks per level, rounded to the nearest integer, halves away from zero:
/// the `r` with `r - 1/2 < 5 * level / 2 <= r`.
pub open spec fn is_obstacle_count(level: nat, r: nat) -> bool {
    5 * level <= 2 * r <= 5 * level + 1
}

/// Whether a pause that began at `start` and lasts `duration` is over at `now`.
pub open spec fn pause_over(start: u64, now: u64, duration: u64) -> bool {
    now >= start && now - start >= duration
}

/// The state after a level-up: the next level, paused for `LEVEL_PAUSE`
/// with the banner shown. A pause start already recorded is kept.
pub open spec fn after_levelup(s: GameState) -> GameState {
    GameState {
        level: (s.level + 1) as u32,
        paused: true,
        pause_duration: LEVEL_PAUSE,
        show_level: true,
        ..s
    }
}

/// The state after a tick of the clock at `now`. A running game is left as
/// it is. A paused game records `now` as the start of its pause on its first
/// tick, and once the pause is over it runs again, with the banner dropped
/// and the start cleared.
pub open spec fn after_tick(s: GameState, now: u64) -> GameState {
    if !s.paused {
        s
    } else {
        let start = match s.pause_start {
            Some(t) => t,
            None => now,
        };
        if pause_over(start, now, s.pause_duration) {
            GameState { paused: false, show_level: false, pause_start: None, ..s }
        } else {
            GameState { pause_start: Some(start), ..s }
        }
    }
}

/// After a level-up from a running game, the first tick, at `t0`, starts the
/// pause, and a later tick at `t1` finds the game running again, with the
/// banner gone, exactly when `LEVEL_PAUSE` has passed since `t0`. Until then
/// the banner stays; the level stays the one the level-up reached.
pub proof fn lemma_level_pause(s: GameState, t0: u64, t1: u64)
    requires
        s.wf(),
        !s.paused,
        s.level < u32::MAX,
        t0 <= t1,
    ensures
        ({
            let a = after_levelup(s);
            let b = after_tick(a, t0);
            let c = after_tick(b, t1);
            &&& b.paused && b.show_level && b.pause_start == Some(t0)
            &&& (!c.paused <==> t1 - t0 >= LEVEL_PAUSE)
            &&& (!c.paused ==> !c.show_level && c.pause_start is None)
            &&& (c.paused ==> c.show_level && c.pause_start == Some(t0))
            &&& c.level == s.level + 1
        }),
{
}

/// The rocks to place at `level`.
pub fn obstacle_count(level: u32) -> (r: u64)
    ensures
        is_obstacle_count(level as nat, r as nat),
{
    ((level as u64) * 5 + 1) / 2
}

/// The level counter and the pause state of a game.
///
/// While `paused` the simulation is frozen. The first tick of a pause records
/// its start in `pause_start`; once `pause_duration` has passed since then, the
/// game runs again and `pause_start` is cleared.
pub struct GameState {
    pub level: u32,
    pub paused: bool,
    pub pause_start: Option<u64>,
    pub pause_duration: u64,
    pub show_level: bool,
}

impl GameState {
    /// A pause start is recorded only while paused.
    pub open spec fn wf(&self) -> bool {
        !self.paused ==> self.pause_start is None
    }

    /// A game before its first level: running, level 0, no banner.
    pub fn new() -> (r: GameState)
        ensures
            r.wf(),
            r.level == 0,
            !r.paused,
            r.pause_start is None,
            r.pause_duration == 0,
            !r.show_level,
    {
        GameState { level: 0, paused: false, pause_start: None, pause_duration: 0, show_level: false }
    }

    /// Moves to the next level and returns how many rocks it holds. The game
    /// pauses for `LEVEL_PAUSE` and shows the level banner.
    pub fn levelup(&mut self) -> (count: u64)
        requires
            old(self).wf(),
            old(self).level < u32::MAX,
        ensures
            final(self).wf(),
            *final(self) == after_levelup(*old(self)),
            is_obstacle_count(final(self).level as nat, count as nat),
    {
        self.level = self.level + 1;
        let count = obstacle_count(self.level);
        self.paused = true;
        self.pause_duration = LEVEL_PAUSE;
        self.show_level = true;
        count
    }

    /// Pauses the game for `duration` microseconds; the level and the banner
    /// are left as they are.
    pub fn pause(&mut self, duration: u64)
        requires
            old(self).wf(),
        ensures
            final(self).wf(),
            final(self).paused,
            final(self).pause_duration == duration,
            final(self).level == old(self).level,
            final(self).show_level == old(self).show_level,
            final(self).pause_start == old(self).pause_start,
    {
        self.pause_duration = duration;
        self.paused = true;
    }

    /// One tick of the clock, at time `now`. Returns whether the simulation
    /// runs on this tick: it does exactly when the game was not paused.
    pub fn update(&mut self, now: u64) -> (running: bool)
        requires
            old(self).wf(),
        ensures
            final(self).wf(),
            running == !old(self).paused,
            *final(self) == after_tick(*old(self), now),
    {
        if !self.paused {
            return true;
        }
        let start = match self.pause_start {
            Some(s) => s,
            None => now,
        };
        self.pause_start = Some(start);
        if now >= start && now - start >= self.pause_duration {
            self.paused = false;
            self.show_level = false;
            self.pause_start = None;
        }
        false
    }
}

} // verus!
