//! Falling objects: hazards and bonuses. Covers their creation with a
//! randomly jittered fall speed, the repeating spawn timers, the per-tick
//! fall motion, and the cleanup of objects that left the play area.

use vstd::prelude::*;
use crate::background::GameMetadata;
use crate::boundary::{GameBonudary, WINDOW_WIDTH};
use crate::geometry::{
    dimension_bounded, translation_bounded, Translation, MAX_TICK_MS,
};
use crate::rng::random_below;
use crate::seqs::{lemma_filter_take_step, lemma_take_all};

verus! {

/// Base fall speed of a falling object, in units per second.
pub const ENEMY_SPEED: i64 = 150;

/// Fall-speed gain per game level, in units per second.
pub const EXTRA_SPEED_PER_LV: i64 = 30;

/// Lower end of the random fall-speed factor, in thousandths.
pub const MIN_MODIFIER_MILLIS: u64 = 500;

/// Upper end (exclusive) of the random fall-speed factor, in thousandths.
pub const MAX_MODIFIER_MILLIS: u64 = 1500;

/// Width of a falling-object sprite in play-area units.
pub const UFO_WIDTH: i64 = 51;

/// Height of a falling-object sprite in play-area units.
pub const UFO_HEIGHT: i64 = 73;

/// Fall speeds stay below this bound, which keeps the per-tick displacement
/// arithmetic inside `i64`.
pub const SPEED_BOUND: i64 = 1_000_000_000_000;

/// How many textures the host keeps in its hazard pool.
pub const ENEMY_TEXTURE_COUNT: usize = 2;

/// How many textures the host keeps in its bonus pool.
pub const BONUS_TEXTURE_COUNT: usize = 3;

/// Hazard spawn period in milliseconds.
pub const ENEMY_DEFAULT_SPAWN_DURATION_MS: u64 = 1000;

/// Bonus spawn period in milliseconds: twice the hazard period.
pub const BONUS_DEFAULT_SPAWN_DURATION_MS: u64 = 2000;

/// The kind of a falling object: a hazard that costs a life, or a bonus
/// that grants points.
#[derive(Clone, Copy, PartialEq, Eq, Structural, Debug)]
pub enum UfoType {
    ENEMY,
    BONUS,
}

/// A falling object. Kind and point value are fixed at creation and never
/// change; a zero point value marks a hazard.
#[derive(Clone, Copy, Debug)]
pub struct UFO {
    pub fall_speed: i64,
    pub size: (i64, i64),
    pub score: u32,
    pub kind: UfoType,
}

impl UFO {
    /// The object's speed and size stay within the simulation's arithmetic
    /// bounds.
    pub open spec fn wf(self) -> bool {
        &&& 0 <= self.fall_speed <= SPEED_BOUND
        &&& dimension_bounded(self.size.0 as int, self.size.1 as int)
    }
}

/// The fall speed of a new object before the random factor: the base speed
/// plus the per-level gain.
pub open spec fn base_speed(level: int) -> int {
    ENEMY_SPEED + level * EXTRA_SPEED_PER_LV
}

/// A base speed scaled by a factor given in thousandths.
pub open spec fn scaled_speed(base: int, modifier_millis: int) -> int {
    base * modifier_millis / 1000
}

/// The factor that a random unit draw `r` (in thousandths) yields between
/// the ends `min` and `max`.
pub open spec fn jittered(min: int, max: int, r: int) -> int {
    min + r * (max - min) / 1000
}

/// Randomized fall-speed jitter: a factor drawn uniformly between the two
/// ends, in thousandths.
pub trait RandomFreeFall {
    /// Draws a random factor in `[min, max)` thousandths (or exactly `min`
    /// when the two ends coincide).
    fn get_speed_modifier(max: u64, min: u64) -> (m: u64)
        requires
            min <= max,
            max <= 1_000_000,
        ensures
            min <= m,
            min < max ==> m < max,
            exists|r: int| 0 <= r < 1000 && m == #[trigger] jittered(min as int, max as int, r),
    ;
}

impl RandomFreeFall for UFO {
    fn get_speed_modifier(max: u64, min: u64) -> (m: u64) {
        let r = random_below(1000);
        let spread = max - min;
        proof {
            assert(r * spread <= 999 * spread) by (nonlinear_arith)
                requires
                    r <= 999,
                    spread >= 0,
            ;
            assert(999 * spread <= 999_000_000) by (nonlinear_arith)
                requires
                    spread <= 1_000_000,
            ;
        }
        let jitter = r * spread / 1000;
        proof {
            assert(999 * spread < 1000 * spread || spread == 0) by (nonlinear_arith);
            vstd::arithmetic::div_mod::lemma_div_is_ordered(
                r as int * spread as int,
                999 * spread as int,
                1000,
            );
            assert(999 * (spread as int) / 1000 < spread || spread == 0) by (nonlinear_arith);
            assert(min + jitter == jittered(min as int, max as int, r as int));
        }
        min + jitter
    }
}

impl UFO {
    /// Creates a falling object of the given kind, point value and size.
    /// Its fall speed is the level-scaled base speed times a random factor
    /// drawn from `[MIN_MODIFIER_MILLIS, MAX_MODIFIER_MILLIS)` thousandths.
    pub fn new(level: u32, width: i64, height: i64, score: u32, kind: UfoType) -> (u: UFO)
        requires
            dimension_bounded(width as int, height as int),
        ensures
            u.size == (width, height),
            u.score == score,
            u.kind == kind,
            u.wf(),
            exists|m: int|
                MIN_MODIFIER_MILLIS <= m < MAX_MODIFIER_MILLIS && u.fall_speed == scaled_speed(
                    base_speed(level as int),
                    m,
                ),
    {
        let base_speed_exec: i64 = ENEMY_SPEED + (level as i64) * EXTRA_SPEED_PER_LV;
        let modifier = Self::get_speed_modifier(MAX_MODIFIER_MILLIS, MIN_MODIFIER_MILLIS);
        proof {
            let b = base_speed(level as int);
            assert(0 <= b * modifier <= b * 1500) by (nonlinear_arith)
                requires
                    0 <= b,
                    0 <= modifier <= 1500,
            ;
            assert(b * 1500 <= 225_000_000_000_000) by (nonlinear_arith)
                requires
                    0 <= b <= 150_000_000_000,
            ;
        }
        let fall_speed: i64 = base_speed_exec * (modifier as i64) / 1000;
        proof {
            let b = base_speed(level as int);
            vstd::arithmetic::div_mod::lemma_div_is_ordered(0, b * modifier, 1000);
            vstd::arithmetic::div_mod::lemma_div_is_ordered(
                b * modifier,
                225_000_000_000_000,
                1000,
            );
            assert(fall_speed == scaled_speed(b, modifier as int));
        }
        UFO { score, kind, fall_speed, size: (width, height) }
    }
}

/// A falling object together with its current position.
#[derive(Clone, Copy, Debug)]
pub struct FallingUfo {
    pub translation: Translation,
    pub ufo: UFO,
}

impl FallingUfo {
    /// Position and object stay within the simulation's arithmetic bounds.
    pub open spec fn wf(self) -> bool {
        &&& self.ufo.wf()
        &&& translation_bounded(self.translation)
    }
}

/// A repeating timer, advanced once per tick. When a tick crosses the end of
/// the period the timer reports itself finished for that tick and carries the
/// remainder over into the next period.
#[derive(Clone, Copy, PartialEq, Eq, Structural, Debug)]
pub struct SpawnTimer {
    pub period_ms: u64,
    pub elapsed_ms: u64,
    pub finished: bool,
}

impl SpawnTimer {
    /// The period is positive and moderate, and the carried-over elapsed
    /// time stays below it.
    pub open spec fn wf(self) -> bool {
        &&& 1 <= self.period_ms <= 1_000_000_000
        &&& self.elapsed_ms < self.period_ms
    }

    /// A fresh repeating timer with the given period.
    pub fn from_millis(period_ms: u64) -> (t: SpawnTimer)
        requires
            1 <= period_ms <= 1_000_000_000,
        ensures
            t == (SpawnTimer { period_ms, elapsed_ms: 0, finished: false }),
    {
        SpawnTimer { period_ms, elapsed_ms: 0, finished: false }
    }

    /// Advances the timer by `dt_ms` milliseconds.
    pub fn tick(&mut self, dt_ms: u64)
        requires
            old(self).wf(),
            dt_ms <= MAX_TICK_MS,
        ensures
            final(self).period_ms == old(self).period_ms,
            final(self).finished == (old(self).elapsed_ms + dt_ms >= old(self).period_ms),
            final(self).elapsed_ms == (old(self).elapsed_ms + dt_ms) % (old(self).period_ms as int),
            final(self).wf(),
    {
        let total = self.elapsed_ms + dt_ms;
        self.finished = total >= self.period_ms;
        self.elapsed_ms = total % self.period_ms;
    }
}

/// The repeating timer that paces hazard spawns.
#[derive(Clone, Copy, PartialEq, Eq, Structural, Debug)]
pub struct EnemySpawnTimer {
    pub timer: SpawnTimer,
}

impl Default for EnemySpawnTimer {
    fn default() -> (r: EnemySpawnTimer)
        ensures
            r.timer == (SpawnTimer {
                period_ms: ENEMY_DEFAULT_SPAWN_DURATION_MS,
                elapsed_ms: 0,
                finished: false,
            }),
    {
        EnemySpawnTimer { timer: SpawnTimer::from_millis(ENEMY_DEFAULT_SPAWN_DURATION_MS) }
    }
}

/// The repeating timer that paces bonus spawns.
#[derive(Clone, Copy, PartialEq, Eq, Structural, Debug)]
pub struct BonusObjectSpawnTimer {
    pub timer: SpawnTimer,
}

impl Default for BonusObjectSpawnTimer {
    fn default() -> (r: BonusObjectSpawnTimer)
        ensures
            r.timer == (SpawnTimer {
                period_ms: BONUS_DEFAULT_SPAWN_DURATION_MS,
                elapsed_ms: 0,
                finished: false,
            }),
    {
        BonusObjectSpawnTimer { timer: SpawnTimer::from_millis(BONUS_DEFAULT_SPAWN_DURATION_MS) }
    }
}

/// Groups the falling-object systems for a host to install.
pub struct EnemyPlug;

/// Advances the hazard spawn timer by the tick's elapsed time.
pub fn tick_enemy_spawn_timer(spawn_timer: &mut EnemySpawnTimer, dt_ms: u64)
    requires
        old(spawn_timer).timer.wf(),
        dt_ms <= MAX_TICK_MS,
    ensures
        final(spawn_timer).timer.period_ms == old(spawn_timer).timer.period_ms,
        final(spawn_timer).timer.finished == (old(spawn_timer).timer.elapsed_ms + dt_ms
            >= old(spawn_timer).timer.period_ms),
        final(spawn_timer).timer.elapsed_ms == (old(spawn_timer).timer.elapsed_ms + dt_ms)
            % (old(spawn_timer).timer.period_ms as int),
        final(spawn_timer).timer.wf(),
{
    spawn_timer.timer.tick(dt_ms);
}

/// Advances the bonus spawn timer by the tick's elapsed time.
pub fn tick_bonus_spawn_timer(spawn_timer: &mut BonusObjectSpawnTimer, dt_ms: u64)
    requires
        old(spawn_timer).timer.wf(),
        dt_ms <= MAX_TICK_MS,
    ensures
        final(spawn_timer).timer.period_ms == old(spawn_timer).timer.period_ms,
        final(spawn_timer).timer.finished == (old(spawn_timer).timer.elapsed_ms + dt_ms
            >= old(spawn_timer).timer.period_ms),
        final(spawn_timer).timer.elapsed_ms == (old(spawn_timer).timer.elapsed_ms + dt_ms)
            % (old(spawn_timer).timer.period_ms as int),
        final(spawn_timer).timer.wf(),
{
    spawn_timer.timer.tick(dt_ms);
}

/// Picks the texture index for a new falling object out of a pool of
/// `texture_count` textures. The index is `texture_count - 1` scaled by a
/// random fraction of one unit; truncated to whole units the fraction is
/// always zero, so the first texture of the pool is always the one picked.
pub fn pick_texture(texture_count: usize) -> (idx: usize)
    requires
        texture_count >= 1,
    ensures
        idx == 0,
{
    let r = random_below(1000);
    let whole_units = (r / 1000) as usize;
    assert(whole_units == 0);
    (texture_count - 1) * whole_units
}

/// What holds of every newly spawned falling object: it sits at a random
/// horizontal position within one play-area width of the left edge, at the
/// top edge, with the given point value and kind, and with a level-scaled,
/// randomly jittered fall speed.
pub open spec fn spawned_from(
    f: FallingUfo,
    b: GameBonudary,
    meta: GameMetadata,
    score: u32,
    kind: UfoType,
) -> bool {
    &&& f.ufo.score == score
    &&& f.ufo.kind == kind
    &&& f.ufo.size == (UFO_WIDTH, UFO_HEIGHT)
    &&& f.ufo.wf()
    &&& exists|m: int|
        MIN_MODIFIER_MILLIS <= m < MAX_MODIFIER_MILLIS && f.ufo.fall_speed == scaled_speed(
            base_speed(meta.level as int),
            m,
        )
    &&& f.translation.y == b.y_max
    &&& b.x_min <= f.translation.x < b.x_min + WINDOW_WIDTH
    &&& translation_bounded(f.translation)
}

/// Appends one new falling object of the given kind and point value.
pub fn spawn_ufo(
    ufos: &mut Vec<FallingUfo>,
    game_boundary: &GameBonudary,
    game_metadata: &GameMetadata,
    score: u32,
    kind: UfoType,
)
    requires
        game_boundary.wf(),
    ensures
        final(ufos)@.len() == old(ufos)@.len() + 1,
        final(ufos)@ == old(ufos)@.push(final(ufos)@.last()),
        spawned_from(final(ufos)@.last(), *game_boundary, *game_metadata, score, kind),
{
    let x = game_boundary.x_min + random_below(WINDOW_WIDTH as u64) as i64;
    let ufo = UFO::new(game_metadata.level, UFO_WIDTH, UFO_HEIGHT, score, kind);
    ufos.push(FallingUfo { translation: Translation { x, y: game_boundary.y_max }, ufo });
}

/// When the hazard timer has finished, spawns one hazard (point value 0)
/// and returns the picked texture index; otherwise leaves everything alone.
pub fn spawn_enemy_overtime(
    ufos: &mut Vec<FallingUfo>,
    spawn_timer: &EnemySpawnTimer,
    game_boundary: &GameBonudary,
    game_metadata: &GameMetadata,
) -> (texture_idx: Option<usize>)
    requires
        game_boundary.wf(),
    ensures
        spawn_timer.timer.finished ==> {
            &&& texture_idx == Some(0usize)
            &&& final(ufos)@.len() == old(ufos)@.len() + 1
            &&& final(ufos)@ == old(ufos)@.push(final(ufos)@.last())
            &&& spawned_from(
                final(ufos)@.last(),
                *game_boundary,
                *game_metadata,
                0u32,
                UfoType::ENEMY,
            )
        },
        !spawn_timer.timer.finished ==> texture_idx is None && final(ufos)@ == old(ufos)@,
{
    if spawn_timer.timer.finished {
        let selected_texture = pick_texture(ENEMY_TEXTURE_COUNT);
        spawn_ufo(ufos, game_boundary, game_metadata, 0, UfoType::ENEMY);
        Some(selected_texture)
    } else {
        None
    }
}

/// Point value granted by a bonus object.
pub const BONUS_OBJECT_SCORE: u32 = 10;

/// When the bonus timer has finished, spawns one bonus (point value 10)
/// and returns the picked texture index; otherwise leaves everything alone.
pub fn spawn_bonus_overtime(
    ufos: &mut Vec<FallingUfo>,
    spawn_timer: &BonusObjectSpawnTimer,
    game_boundary: &GameBonudary,
    game_metadata: &GameMetadata,
) -> (texture_idx: Option<usize>)
    requires
        game_boundary.wf(),
    ensures
        spawn_timer.timer.finished ==> {
            &&& texture_idx == Some(0usize)
            &&& final(ufos)@.len() == old(ufos)@.len() + 1
            &&& final(ufos)@ == old(ufos)@.push(final(ufos)@.last())
            &&& spawned_from(
                final(ufos)@.last(),
                *game_boundary,
                *game_metadata,
                BONUS_OBJECT_SCORE,
                UfoType::BONUS,
            )
        },
        !spawn_timer.timer.finished ==> texture_idx is None && final(ufos)@ == old(ufos)@,
{
    if spawn_timer.timer.finished {
        let selected_texture = pick_texture(BONUS_TEXTURE_COUNT);
        spawn_ufo(ufos, game_boundary, game_metadata, BONUS_OBJECT_SCORE, UfoType::BONUS);
        Some(selected_texture)
    } else {
        None
    }
}

/// How far an object with the given fall speed (units per second) drops in
/// `dt` milliseconds.
pub open spec fn fall_displacement(speed: int, dt: int) -> int {
    speed * dt / 1000
}

/// The object after one tick of falling: only its vertical position changes,
/// dropping by its speed times the elapsed time.
pub open spec fn fallen(f: FallingUfo, dt: int) -> FallingUfo {
    FallingUfo {
        translation: Translation {
            x: f.translation.x,
            y: (f.translation.y - fall_displacement(f.ufo.fall_speed as int, dt)) as i64,
        },
        ufo: f.ufo,
    }
}

/// Advances every falling object straight down by its own fall speed.
pub fn ufo_fall(ufos: &mut Vec<FallingUfo>, dt_ms: u64)
    requires
        forall|j: int| 0 <= j < old(ufos)@.len() ==> (#[trigger] old(ufos)@[j]).wf(),
        dt_ms <= MAX_TICK_MS,
    ensures
        final(ufos)@.len() == old(ufos)@.len(),
        forall|j: int|
            0 <= j < old(ufos)@.len() ==> final(ufos)@[j] == fallen(
                #[trigger] old(ufos)@[j],
                dt_ms as int,
            ),
        forall|j: int|
            0 <= j < old(ufos)@.len() ==> (#[trigger] final(ufos)@[j]).translation.y <= old(
                ufos,
            )@[j].translation.y,
{
    let ghost orig = ufos@;
    let mut i: usize = 0;
    while i < ufos.len()
        invariant
            i <= orig.len(),
            ufos@.len() == orig.len(),
            dt_ms <= MAX_TICK_MS,
            forall|j: int| 0 <= j < orig.len() ==> (#[trigger] orig[j]).wf(),
            forall|j: int|
                0 <= j < i ==> ufos@[j] == fallen(#[trigger] orig[j], dt_ms as int)
                    && ufos@[j].translation.y <= orig[j].translation.y,
            forall|j: int| i <= j < orig.len() ==> #[trigger] ufos@[j] == orig[j],
        decreases orig.len() - i,
    {
        let f = ufos[i];
        proof {
            assert(f == orig[i as int]);
            assert(0 <= f.ufo.fall_speed * dt_ms <= SPEED_BOUND * MAX_TICK_MS) by (nonlinear_arith)
                requires
                    0 <= f.ufo.fall_speed <= SPEED_BOUND,
                    0 <= dt_ms <= MAX_TICK_MS,
            ;
            vstd::arithmetic::div_mod::lemma_div_is_ordered(
                0,
                f.ufo.fall_speed * dt_ms,
                1000,
            );
            vstd::arithmetic::div_mod::lemma_div_is_ordered(
                f.ufo.fall_speed * dt_ms,
                SPEED_BOUND * MAX_TICK_MS,
                1000,
            );
        }
        let displacement: i64 = f.ufo.fall_speed * (dt_ms as i64) / 1000;
        let moved = FallingUfo {
            translation: Translation { x: f.translation.x, y: f.translation.y - displacement },
            ufo: f.ufo,
        };
        ufos.set(i, moved);
        i += 1;
    }
}

/// The objects that cleanup keeps: those that have not dropped below the
/// bottom edge of the play area.
pub open spec fn cleanup_pred(y_min: int) -> spec_fn(FallingUfo) -> bool {
    |f: FallingUfo| f.translation.y >= y_min
}

/// Removes every falling object whose vertical position has dropped below
/// the bottom edge of the play area; the others stay, in order.
pub fn ufo_cleanup(ufos: &mut Vec<FallingUfo>, game_boundary: &GameBonudary)
    ensures
        final(ufos)@ == old(ufos)@.filter(cleanup_pred(game_boundary.y_min as int)),
{
    let ghost orig = ufos@;
    let ghost pred = cleanup_pred(game_boundary.y_min as int);
    let mut kept: Vec<FallingUfo> = Vec::new();
    let mut i: usize = 0;
    while i < ufos.len()
        invariant
            i <= orig.len(),
            ufos@ == orig,
            pred == cleanup_pred(game_boundary.y_min as int),
            kept@ == orig.take(i as int).filter(pred),
        decreases orig.len() - i,
    {
        let f = ufos[i];
        proof {
            lemma_filter_take_step(orig, pred, i as int);
        }
        if f.translation.y >= game_boundary.y_min {
            kept.push(f);
        }
        i += 1;
    }
    proof {
        lemma_take_all(orig);
    }
    *ufos = kept;
}

} // verus!

