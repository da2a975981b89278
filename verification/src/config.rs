//! Game settings: difficulty, the time-warp ladder of the transit and the
//! time acceleration of the mission physics.
use vstd::prelude::*;

verus! {

/// Difficulty level: the tolerance windows and the game's leniency.
#[derive(Clone, Copy, Debug, PartialEq, Eq, Structural)]
pub enum Difficulty {
    Story,
    Realistic,
}

impl Default for Difficulty {
    fn default() -> (d: Self)
        ensures
            d == Difficulty::Realistic,
    {
        Difficulty::Realistic
    }
}

/// The translation key of the name of difficulty `d`.
pub open spec fn difficulty_key_text(d: Difficulty) -> Seq<char> {
    match d {
        Difficulty::Story => "difficulty.story"@,
        Difficulty::Realistic => "difficulty.realistic"@,
    }
}

/// The translation key of the name of difficulty `d`, as shown in the menus
/// and on the splashdown screen.
pub fn difficulty_key(d: Difficulty) -> (r: &'static str)
    ensures
        r@ == difficulty_key_text(d),
{
    match d {
        Difficulty::Story => "difficulty.story",
        Difficulty::Realistic => "difficulty.realistic",
    }
}

/// Number of time-warp levels.
pub const WARP_LEVEL_COUNT: usize = 6;

/// Index of the warp level meant for the start of the transit.
pub const WARP_DEFAULT_INDEX: usize = 3;

/// The time acceleration of warp level `i`: ×1, ×5, ×20, ×100, ×500, ×2000.
pub open spec fn warp_multiplier_at(i: int) -> u32 {
    if i <= 0 {
        1
    } else if i == 1 {
        5
    } else if i == 2 {
        20
    } else if i == 3 {
        100
    } else if i == 4 {
        500
    } else {
        2000
    }
}

/// The index of the highest warp level.
pub open spec fn max_warp_index() -> int {
    WARP_LEVEL_COUNT - 1
}

/// The level one step up the ladder from level `i`, stopping at the top.
pub open spec fn warp_up(i: int) -> int {
    if i >= max_warp_index() {
        max_warp_index()
    } else {
        i + 1
    }
}

/// The level one step down the ladder from level `i`, stopping at ×1.
pub open spec fn warp_down(i: int) -> int {
    if i <= 0 {
        0
    } else {
        i - 1
    }
}

/// Current time-warp level, an index into the warp ladder. The transit keys
/// `,` and `.` move it one step down or up.
#[derive(Clone, Copy, Debug, PartialEq, Eq, Structural)]
pub struct WarpLevel(pub usize);

impl Default for WarpLevel {
    fn default() -> (w: Self)
        ensures
            w.0 == 0,
    {
        WarpLevel(0)
    }
}

impl WarpLevel {
    /// The time acceleration of this level; an index past the top of the
    /// ladder reads as the top level.
    pub fn multiplier(self) -> (r: u32)
        ensures
            r == warp_multiplier_at(if self.0 < WARP_LEVEL_COUNT {
                self.0 as int
            } else {
                max_warp_index()
            }),
    {
        match self.0 {
            0 => 1,
            1 => 5,
            2 => 20,
            3 => 100,
            4 => 500,
            _ => 2000,
        }
    }

    /// One step up the ladder, stopping at the top level.
    pub fn increase(&mut self)
        ensures
            final(self).0 == warp_up(old(self).0 as int),
    {
        if self.0 >= WARP_LEVEL_COUNT - 1 {
            self.0 = WARP_LEVEL_COUNT - 1;
        } else {
            self.0 = self.0 + 1;
        }
    }

    /// One step down the ladder, stopping at ×1.
    pub fn decrease(&mut self)
        ensures
            final(self).0 == warp_down(old(self).0 as int),
    {
        self.0 = self.0.saturating_sub(1);
    }
}

/// Law of the warp ladder: inside the ladder one step up and one step down
/// undo each other, both stay inside the ladder, and the acceleration grows
/// strictly with the level.
pub proof fn lemma_warp_ladder(i: int, j: int)
    requires
        0 <= i <= max_warp_index(),
        0 <= j <= max_warp_index(),
    ensures
        0 <= warp_up(i) <= max_warp_index(),
        0 <= warp_down(i) <= max_warp_index(),
        i < max_warp_index() ==> warp_down(warp_up(i)) == i,
        i > 0 ==> warp_up(warp_down(i)) == i,
        i < j ==> warp_multiplier_at(i) < warp_multiplier_at(j),
        warp_multiplier_at(i) <= 5 <==> i <= 1,
        warp_multiplier_at(0) == 1,
        warp_multiplier_at(max_warp_index()) == 2000,
        forall|k: int|
            0 <= k <= max_warp_index() ==> #[trigger] warp_multiplier_at(k) == seq![
                1u32,
                5u32,
                20u32,
                100u32,
                500u32,
                2000u32,
            ][k],
{
}

/// The time-acceleration steps that `[` and `]` cycle through: ×1, ×5, ×20.
pub open spec fn time_step(i: int) -> u32 {
    if i <= 0 {
        1
    } else if i == 1 {
        5
    } else {
        20
    }
}

/// The position of `multiplier` among the time steps; a multiplier that is
/// not a step (one set by the warp ladder) counts as the first step.
pub open spec fn step_index(multiplier: u32) -> int {
    if multiplier == 5 {
        1
    } else if multiplier == 20 {
        2
    } else {
        0
    }
}

/// Whether `multiplier` is one of the time steps.
pub open spec fn is_time_step(multiplier: u32) -> bool {
    multiplier == 1 || multiplier == 5 || multiplier == 20
}

/// The multiplier after one step faster from `multiplier`, stopping at ×20.
pub open spec fn step_up(multiplier: u32) -> u32 {
    time_step(if step_index(multiplier) + 1 > 2 { 2 } else { step_index(multiplier) + 1 })
}

/// The multiplier after one step slower from `multiplier`, stopping at ×1.
pub open spec fn step_down(multiplier: u32) -> u32 {
    time_step(if step_index(multiplier) == 0 { 0 } else { step_index(multiplier) - 1 })
}

/// Law of the time steps: whatever the multiplier was, a step lands on one of
/// the steps; between steps, one step faster and one step slower undo each
/// other.
pub proof fn lemma_time_steps(m: u32)
    ensures
        is_time_step(step_up(m)),
        is_time_step(step_down(m)),
        is_time_step(m) && m != 20 ==> step_down(step_up(m)) == m,
        is_time_step(m) && m != 1 ==> step_up(step_down(m)) == m,
        is_time_step(m) ==> step_down(m) <= m <= step_up(m),
        step_up(m) <= 20,
        step_down(m) >= 1,
        is_time_step(m) && m != 20 ==> m < step_up(m),
        is_time_step(m) && m != 1 ==> step_down(m) < m,
{
}

/// Time acceleration applied to the mission physics (fuel use, altitude, the
/// T+ clock); the interface and input keep running in real time. Every
/// acceleration the game sets is a whole number.
#[derive(Clone, Copy, Debug, PartialEq, Eq, Structural)]
pub struct TimeScale {
    pub multiplier: u32,
}

impl Default for TimeScale {
    fn default() -> (t: Self)
        ensures
            t.multiplier == 1,
    {
        TimeScale { multiplier: 1 }
    }
}

impl TimeScale {
    fn current_index(self) -> (r: usize)
        ensures
            r == step_index(self.multiplier),
    {
        if self.multiplier == 5 {
            1
        } else if self.multiplier == 20 {
            2
        } else {
            0
        }
    }

    /// One time step faster, stopping at ×20.
    pub fn cycle_up(&mut self)
        ensures
            final(self).multiplier == step_up(old(self).multiplier),
    {
        let idx = self.current_index();
        let next = if idx + 1 > 2 {
            2
        } else {
            idx + 1
        };
        self.multiplier = if next == 0 {
            1
        } else if next == 1 {
            5
        } else {
            20
        };
    }

    /// One time step slower, stopping at ×1.
    pub fn cycle_down(&mut self)
        ensures
            final(self).multiplier == step_down(old(self).multiplier),
    {
        let idx = self.current_index();
        let next = idx.saturating_sub(1);
        self.multiplier = if next == 0 {
            1
        } else if next == 1 {
            5
        } else {
            20
        };
    }
}

/// The warp keys of the transit: `.` one level up, `,` one level down (in
/// that order when both are pressed); the physics then runs at the new
/// level's acceleration.
pub fn apply_warp_keys(warp: &mut WarpLevel, timescale: &mut TimeScale, up: bool, down: bool)
    ensures
        final(warp).0 == (if down {
            warp_down(if up {
                warp_up(old(warp).0 as int)
            } else {
                old(warp).0 as int
            })
        } else {
            if up {
                warp_up(old(warp).0 as int)
            } else {
                old(warp).0 as int
            }
        }),
        (up || down) ==> final(timescale).multiplier == warp_multiplier_at(final(warp).0 as int),
        !(up || down) ==> *final(timescale) == *old(timescale),
{
    if up {
        warp.increase();
        timescale.multiplier = warp.multiplier();
    }
    if down {
        warp.decrease();
        timescale.multiplier = warp.multiplier();
    }
}

/// The time-step keys: `[` one step slower, then `]` one step faster.
pub fn apply_time_keys(timescale: &mut TimeScale, slower: bool, faster: bool)
    ensures
        final(timescale).multiplier == (if faster {
            step_up(
                if slower {
                    step_down(old(timescale).multiplier)
                } else {
                    old(timescale).multiplier
                },
            )
        } else {
            if slower {
                step_down(old(timescale).multiplier)
            } else {
                old(timescale).multiplier
            }
        }),
{
    if slower {
        timescale.cycle_down();
    }
    if faster {
        timescale.cycle_up();
    }
}

/// Drops the time warp to at most ×5 while Orion is near the Moon
/// (`near_moon`: closer than 10 000 km). Returns whether to show the warning,
/// which comes once per approach: `notified` remembers that it was shown and
/// is cleared once Orion is no longer near.
pub fn warp_auto_drop(
    warp: &mut WarpLevel,
    timescale: &mut TimeScale,
    notified: &mut bool,
    near_moon: bool,
) -> (alert: bool)
    ensures
        near_moon ==> final(warp).0 <= 1,
        near_moon && old(warp).0 > 1 ==> {
            &&& final(warp).0 == 1
            &&& final(timescale).multiplier == warp_multiplier_at(1)
            &&& *final(notified)
            &&& alert == !*old(notified)
        },
        near_moon && old(warp).0 <= 1 ==> {
            &&& *final(warp) == *old(warp)
            &&& *final(timescale) == *old(timescale)
            &&& *final(notified) == *old(notified)
            &&& !alert
        },
        !near_moon ==> {
            &&& *final(warp) == *old(warp)
            &&& *final(timescale) == *old(timescale)
            &&& !*final(notified)
            &&& !alert
        },
{
    if near_moon && warp.0 > 1 {
        warp.0 = 1;
        timescale.multiplier = WarpLevel(1).multiplier();
        if !*notified {
            *notified = true;
            return true;
        }
        false
    } else {
        if !near_moon {
            *notified = false;
        }
        false
    }
}

} // verus!
