//! The player: spawn position, movement under key input with boundary
//! clamping, the walk-animation flip, and the collision handler that applies
//! hazard and bonus effects.

use vstd::prelude::*;
use crate::boundary::{GameBonudary, CHARACTER_HEIGHT, CHARACTER_WIDTH};
use crate::geometry::{
    abs_diff, dimension_bounded, spec_abs_diff, translation_bounded, Translation, COORD_BOUND,
    MAX_TICK_MS, MAX_TIME_MS,
};
use crate::objects::{FallingUfo, UfoType, UFO};
use crate::seqs::{lemma_filter_take_step, lemma_take_all};

verus! {

/// Player movement speed in units per second.
pub const CHARACTER_MOVEMENT_SPEED: i64 = 300;

/// Minimal time between two walk-animation flips, in milliseconds.
pub const CHARACTER_TEXTURE_FLIP_FREQ_MS: u64 = 250;

/// Length of the invulnerability window granted by a hazard hit, in
/// milliseconds.
pub const INVULNERABLE_DURATION_MS: u64 = 3000;

/// Length, in thousandths, of a unit direction along a single axis.
pub const AXIS_NORM_MILLIS: i64 = 1000;

/// Length, in thousandths, of each component of a normalized diagonal
/// direction (one over the square root of two).
pub const DIAGONAL_NORM_MILLIS: i64 = 707;

/// Groups the player systems for a host to install.
pub struct CharacterPlug;

/// Raised when a hazard hit costs a life.
pub struct LoseLifeEvent {}

/// Raised when a bonus overlap grants points.
#[derive(Clone, Copy, PartialEq, Eq, Structural, Debug)]
pub struct EarnPointEvent {
    pub scores: u32,
}

/// The player's state outside of its position: the walk-animation frame, the
/// time of the last frame flip, the collision footprint, and the end of the
/// current invulnerability window.
#[derive(Clone, Copy, Debug)]
pub struct Character {
    pub is_head: bool,
    pub last_flip: u64,
    pub size: (i64, i64),
    pub invulnerable_until: u64,
}

impl Default for Character {
    fn default() -> (r: Character)
        ensures
            r == (Character {
                is_head: true,
                last_flip: 0,
                size: (CHARACTER_WIDTH, CHARACTER_HEIGHT),
                invulnerable_until: 0,
            }),
    {
        Character {
            is_head: true,
            last_flip: 0,
            size: (CHARACTER_WIDTH, CHARACTER_HEIGHT),
            invulnerable_until: 0,
        }
    }
}

impl Character {
    /// The footprint stays within the simulation's arithmetic bounds.
    pub open spec fn wf(self) -> bool {
        dimension_bounded(self.size.0 as int, self.size.1 as int)
    }
}

/// Half of the summed footprints on each axis: two centered boxes overlap
/// exactly when the distance of their centers stays below this on both axes.
pub open spec fn spec_min_distance(a: (int, int), b: (int, int)) -> (int, int) {
    ((a.0 + b.0) / 2, (a.1 + b.1) / 2)
}

/// The overlap test on two centered boxes: on each axis the absolute
/// difference of the centers is strictly below half the summed footprints.
pub open spec fn spec_collide(
    a: (int, int),
    at: Translation,
    b: (int, int),
    bt: Translation,
) -> bool {
    let m = spec_min_distance(a, b);
    &&& spec_abs_diff(at.x as int, bt.x as int) < m.0
    &&& spec_abs_diff(at.y as int, bt.y as int) < m.1
}

/// Anything with a rectangular collision footprint.
pub trait CollisionObject: Sized {
    /// The collision footprint (width, height).
    spec fn spec_dimension(&self) -> (int, int);

    /// Returns the collision footprint.
    fn get_dimension(&self) -> (r: (i64, i64))
        ensures
            (r.0 as int, r.1 as int) == self.spec_dimension(),
    ;
}

impl CollisionObject for UFO {
    open spec fn spec_dimension(&self) -> (int, int) {
        (self.size.0 as int, self.size.1 as int)
    }

    fn get_dimension(&self) -> (r: (i64, i64)) {
        (self.size.0, self.size.1)
    }
}

impl CollisionObject for Character {
    open spec fn spec_dimension(&self) -> (int, int) {
        (self.size.0 as int, self.size.1 as int)
    }

    fn get_dimension(&self) -> (r: (i64, i64)) {
        (self.size.0, self.size.1)
    }
}

/// Returns, per axis, the largest center distance at which the two objects
/// still overlap.
pub fn min_distance<A: CollisionObject, B: CollisionObject>(obj: &A, target: &B) -> (r: (
    i64,
    i64,
))
    requires
        dimension_bounded(obj.spec_dimension().0, obj.spec_dimension().1),
        dimension_bounded(target.spec_dimension().0, target.spec_dimension().1),
    ensures
        (r.0 as int, r.1 as int) == spec_min_distance(
            obj.spec_dimension(),
            target.spec_dimension(),
        ),
{
    let (my_width, my_height) = obj.get_dimension();
    let (target_width, target_height) = target.get_dimension();
    ((my_width + target_width) / 2, (my_height + target_height) / 2)
}

/// Tests the object at `curr_translation` against the target at
/// `target_translation` for overlap.
pub fn collide<A: CollisionObject, B: CollisionObject>(
    obj: &A,
    curr_translation: Translation,
    target: &B,
    target_translation: Translation,
) -> (r: bool)
    requires
        dimension_bounded(obj.spec_dimension().0, obj.spec_dimension().1),
        dimension_bounded(target.spec_dimension().0, target.spec_dimension().1),
        translation_bounded(curr_translation),
        translation_bounded(target_translation),
    ensures
        r == spec_collide(
            obj.spec_dimension(),
            curr_translation,
            target.spec_dimension(),
            target_translation,
        ),
{
    let (min_x, min_y) = min_distance(obj, target);
    abs_diff(curr_translation.x, target_translation.x) < min_x && abs_diff(
        curr_translation.y,
        target_translation.y,
    ) < min_y
}

/// The position where a new player starts: the horizontal middle of the
/// window, one and a half player heights above the bottom.
pub fn spawn_character(window_width: i64) -> (t: Translation)
    requires
        0 <= window_width <= 1_000_000_000,
    ensures
        t.x == window_width / 2,
        t.y == CHARACTER_HEIGHT + CHARACTER_HEIGHT / 2,
        translation_bounded(t),
{
    Translation { x: window_width / 2, y: CHARACTER_HEIGHT + CHARACTER_HEIGHT / 2 }
}

/// The directional key state sampled once per tick.
#[derive(Clone, Copy, PartialEq, Eq, Structural, Debug)]
pub struct KeyState {
    pub up: bool,
    pub down: bool,
    pub left: bool,
    pub right: bool,
}

/// The combined movement direction: the horizontal keys move along the x
/// axis alone and the vertical keys along the y axis alone, and opposite
/// keys cancel.
pub open spec fn spec_direction(k: KeyState) -> (int, int) {
    (
        (if k.right {
            1int
        } else {
            0int
        }) - (if k.left {
            1int
        } else {
            0int
        }),
        (if k.up {
            1int
        } else {
            0int
        }) - (if k.down {
            1int
        } else {
            0int
        }),
    )
}

/// The direction vector normalized to (roughly) unit length, in thousandths:
/// a single-axis direction keeps length one, a diagonal is scaled by one
/// over the square root of two per component.
pub open spec fn spec_norm_millis(d: (int, int)) -> (int, int) {
    if d.0 != 0 && d.1 != 0 {
        (d.0 * DIAGONAL_NORM_MILLIS, d.1 * DIAGONAL_NORM_MILLIS)
    } else {
        (d.0 * AXIS_NORM_MILLIS, d.1 * AXIS_NORM_MILLIS)
    }
}

/// How far the player moves along one axis in `dt` milliseconds, given the
/// normalized component `n` in thousandths: the magnitude is computed on the
/// nonnegative value and the sign is put back afterwards.
pub open spec fn axis_displacement(n: int, dt: int) -> int {
    if n >= 0 {
        n * CHARACTER_MOVEMENT_SPEED * dt / 1_000_000
    } else {
        -((-n) * CHARACTER_MOVEMENT_SPEED * dt / 1_000_000)
    }
}

/// The per-tick displacement of the player for the given key state.
pub open spec fn spec_displacement(k: KeyState, dt: int) -> (int, int) {
    let n = spec_norm_millis(spec_direction(k));
    (axis_displacement(n.0, dt), axis_displacement(n.1, dt))
}

/// The player position after moving, before clamping.
pub open spec fn spec_moved(t: Translation, k: KeyState, dt: int) -> Translation {
    let d = spec_displacement(k, dt);
    Translation { x: (t.x + d.0) as i64, y: (t.y + d.1) as i64 }
}

/// One coordinate clamped into `[lo, hi]`.
pub open spec fn spec_clamp(v: int, lo: int, hi: int) -> int {
    if v > hi {
        hi
    } else if v < lo {
        lo
    } else {
        v
    }
}

/// The position clamped into the boundary, each axis independently.
pub open spec fn spec_confine(t: Translation, b: GameBonudary) -> Translation {
    Translation {
        x: spec_clamp(t.x as int, b.x_min as int, b.x_max as int) as i64,
        y: spec_clamp(t.y as int, b.y_min as int, b.y_max as int) as i64,
    }
}

/// Given a new position and the play area, returns the position pulled back
/// into the play area. Each axis is clamped independently, so the result
/// always lies inside the boundary rectangle.
pub fn confine_movement(translation: &Translation, boundary: &GameBonudary) -> (r: Translation)
    requires
        boundary.wf(),
        -COORD_BOUND - 1_000_000_000 <= translation.x <= COORD_BOUND + 1_000_000_000,
        -COORD_BOUND - 1_000_000_000 <= translation.y <= COORD_BOUND + 1_000_000_000,
    ensures
        r == spec_confine(*translation, *boundary),
        boundary.contains(r),
        translation_bounded(r),
{
    let mut output = *translation;
    if translation.x > boundary.x_max {
        output.x = boundary.x_max;
    } else if translation.x < boundary.x_min {
        output.x = boundary.x_min;
    }
    if translation.y > boundary.y_max {
        output.y = boundary.y_max;
    } else if translation.y < boundary.y_min {
        output.y = boundary.y_min;
    }
    output
}

/// Combines the pressed keys into a direction vector.
fn movement_direction(keys: KeyState) -> (d: (i64, i64))
    ensures
        (d.0 as int, d.1 as int) == spec_direction(keys),
{
    let mut dx: i64 = 0;
    let mut dy: i64 = 0;
    if keys.up {
        dy = dy + 1;
    }
    if keys.down {
        dy = dy - 1;
    }
    if keys.left {
        dx = dx - 1;
    }
    if keys.right {
        dx = dx + 1;
    }
    (dx, dy)
}

/// Scales one normalized axis component (in thousandths) by the movement
/// speed and the tick's elapsed time.
fn scaled_axis(n: i64, dt_ms: u64) -> (d: i64)
    requires
        -1000 <= n <= 1000,
        dt_ms <= MAX_TICK_MS,
    ensures
        d == axis_displacement(n as int, dt_ms as int),
        -300_000_000 <= d <= 300_000_000,
{
    let dt = dt_ms as i64;
    proof {
        assert(0 <= 1000 * CHARACTER_MOVEMENT_SPEED * dt <= 300_000_000_000_000) by (nonlinear_arith)
            requires
                0 <= dt <= 1_000_000,
        ;
        assert(n >= 0 ==> 0 <= n * CHARACTER_MOVEMENT_SPEED * dt <= 1000 * CHARACTER_MOVEMENT_SPEED
            * dt) by (nonlinear_arith)
            requires
                n <= 1000,
                0 <= dt,
        ;
        assert(n < 0 ==> 0 <= (-n) * CHARACTER_MOVEMENT_SPEED * dt <= 1000
            * CHARACTER_MOVEMENT_SPEED * dt) by (nonlinear_arith)
            requires
                -1000 <= n,
                0 <= dt,
        ;
    }
    if n >= 0 {
        let num: i64 = n * CHARACTER_MOVEMENT_SPEED * dt;
        proof {
            vstd::arithmetic::div_mod::lemma_div_is_ordered(0, num as int, 1_000_000);
            vstd::arithmetic::div_mod::lemma_div_is_ordered(
                num as int,
                300_000_000_000_000,
                1_000_000,
            );
        }
        num / 1_000_000
    } else {
        let num: i64 = (-n) * CHARACTER_MOVEMENT_SPEED * dt;
        proof {
            vstd::arithmetic::div_mod::lemma_div_is_ordered(0, num as int, 1_000_000);
            vstd::arithmetic::div_mod::lemma_div_is_ordered(
                num as int,
                300_000_000_000_000,
                1_000_000,
            );
        }
        -(num / 1_000_000)
    }
}

/// Moves the player for one tick: combines the pressed keys into a
/// direction, normalizes it, advances the position by direction times speed
/// times elapsed time, clamps the result into the play area, and flips the
/// walk-animation frame at most once per flip interval while moving.
pub fn character_movement(
    translation: &mut Translation,
    character: &mut Character,
    keys: KeyState,
    elapsed_ms: u64,
    dt_ms: u64,
    game_boundary: &GameBonudary,
) -> (flipped: bool)
    requires
        game_boundary.wf(),
        translation_bounded(*old(translation)),
        old(character).last_flip <= elapsed_ms <= MAX_TIME_MS,
        dt_ms <= MAX_TICK_MS,
    ensures
        *final(translation) == spec_confine(
            spec_moved(*old(translation), keys, dt_ms as int),
            *game_boundary,
        ),
        game_boundary.contains(*final(translation)),
        translation_bounded(*final(translation)),
        final(character).size == old(character).size,
        final(character).invulnerable_until == old(character).invulnerable_until,
        ({
            let moving = spec_direction(keys) != (0int, 0int);
            let flip = moving && elapsed_ms - old(character).last_flip
                > CHARACTER_TEXTURE_FLIP_FREQ_MS;
            &&& flipped == flip
            &&& final(character).is_head == (if flip {
                !old(character).is_head
            } else {
                old(character).is_head
            })
            &&& final(character).last_flip == (if flip {
                elapsed_ms
            } else {
                old(character).last_flip
            })
        }),
        final(character).last_flip <= elapsed_ms,
{
    let (dx, dy) = movement_direction(keys);
    let mut flipped = false;
    if dx != 0 || dy != 0 {
        if elapsed_ms - character.last_flip > CHARACTER_TEXTURE_FLIP_FREQ_MS {
            character.is_head = !character.is_head;
            character.last_flip = elapsed_ms;
            flipped = true;
        }
    }
    let (nx, ny): (i64, i64) = if dx != 0 && dy != 0 {
        (dx * DIAGONAL_NORM_MILLIS, dy * DIAGONAL_NORM_MILLIS)
    } else {
        (dx * AXIS_NORM_MILLIS, dy * AXIS_NORM_MILLIS)
    };
    let ddx = scaled_axis(nx, dt_ms);
    let ddy = scaled_axis(ny, dt_ms);
    let moved = Translation { x: translation.x + ddx, y: translation.y + ddy };
    *translation = confine_movement(&moved, game_boundary);
    flipped
}


/// The objects that survive the collision pass: those that do not overlap
/// the player.
pub open spec fn collision_survivor_pred(c: Character, ct: Translation) -> spec_fn(
    FallingUfo,
) -> bool {
    |f: FallingUfo| !overlaps(c, ct, f)
}

/// The player at `ct` overlaps the falling object.
pub open spec fn overlaps(c: Character, ct: Translation, f: FallingUfo) -> bool {
    spec_collide(
        (c.size.0 as int, c.size.1 as int),
        ct,
        (f.ufo.size.0 as int, f.ufo.size.1 as int),
        f.translation,
    )
}

/// The point values of the overlapping bonus objects, in list order.
pub open spec fn spec_bonus_scores(s: Seq<FallingUfo>, c: Character, ct: Translation) -> Seq<u32>
    decreases s.len(),
{
    if s.len() == 0 {
        Seq::empty()
    } else {
        let rest = spec_bonus_scores(s.drop_last(), c, ct);
        if overlaps(c, ct, s.last()) && s.last().ufo.kind == UfoType::BONUS {
            rest.push(s.last().ufo.score)
        } else {
            rest
        }
    }
}

/// The point values carried by a list of score events.
pub open spec fn event_scores(s: Seq<EarnPointEvent>) -> Seq<u32> {
    s.map_values(|e: EarnPointEvent| e.scores)
}

/// Some hazard in the list overlaps the player.
pub open spec fn spec_hazard_hit(s: Seq<FallingUfo>, c: Character, ct: Translation) -> bool {
    exists|i: int|
        0 <= i < s.len() && overlaps(c, ct, #[trigger] s[i]) && s[i].ufo.kind == UfoType::ENEMY
}

/// What one collision pass reports: at most one life lost, and one score
/// event per overlapping bonus.
pub struct CollisionOutcome {
    pub lose_life: Option<LoseLifeEvent>,
    pub earn_point_events: Vec<EarnPointEvent>,
}

/// Tests the player against every falling object. Every overlapping object
/// is removed, whatever its kind. An overlapping bonus always yields a score
/// event, invulnerable or not. An overlapping hazard costs a life only when
/// the player's invulnerability window has expired, and the hit starts a new
/// window, so one pass loses at most one life.
pub fn obj_collision(
    character: &mut Character,
    character_translation: Translation,
    ufos: &mut Vec<FallingUfo>,
    now_ms: u64,
) -> (out: CollisionOutcome)
    requires
        old(character).wf(),
        translation_bounded(character_translation),
        forall|j: int| 0 <= j < old(ufos)@.len() ==> (#[trigger] old(ufos)@[j]).wf(),
        now_ms <= MAX_TIME_MS,
    ensures
        final(ufos)@ == old(ufos)@.filter(
            collision_survivor_pred(*old(character), character_translation),
        ),
        event_scores(out.earn_point_events@) == spec_bonus_scores(
            old(ufos)@,
            *old(character),
            character_translation,
        ),
        ({
            let hit = spec_hazard_hit(old(ufos)@, *old(character), character_translation) && old(
                character,
            ).invulnerable_until < now_ms;
            &&& (out.lose_life is Some) == hit
            &&& final(character).invulnerable_until == (if hit {
                now_ms + INVULNERABLE_DURATION_MS
            } else {
                old(character).invulnerable_until as int
            })
        }),
        final(character).is_head == old(character).is_head,
        final(character).last_flip == old(character).last_flip,
        final(character).size == old(character).size,
{
    let ghost orig = ufos@;
    let ghost c0 = *character;
    let ghost pred = collision_survivor_pred(c0, character_translation);
    let mut retained: Vec<FallingUfo> = Vec::new();
    let mut earn_point_events: Vec<EarnPointEvent> = Vec::new();
    let mut lose_life: Option<LoseLifeEvent> = None;
    let mut i: usize = 0;
    while i < ufos.len()
        invariant
            i <= orig.len(),
            ufos@ == orig,
            character.size == c0.size,
            character.is_head == c0.is_head,
            character.last_flip == c0.last_flip,
            c0.wf(),
            translation_bounded(character_translation),
            now_ms <= MAX_TIME_MS,
            forall|j: int| 0 <= j < orig.len() ==> (#[trigger] orig[j]).wf(),
            pred == collision_survivor_pred(c0, character_translation),
            retained@ == orig.take(i as int).filter(pred),
            event_scores(earn_point_events@) == spec_bonus_scores(
                orig.take(i as int),
                c0,
                character_translation,
            ),
            ({
                let hit = spec_hazard_hit(orig.take(i as int), c0, character_translation)
                    && c0.invulnerable_until < now_ms;
                &&& (lose_life is Some) == hit
                &&& character.invulnerable_until == (if hit {
                    now_ms + INVULNERABLE_DURATION_MS
                } else {
                    c0.invulnerable_until as int
                })
            }),
        decreases orig.len() - i,
    {
        let f = ufos[i];
        let is_collide = collide(character, character_translation, &f.ufo, f.translation);
        proof {
            lemma_filter_take_step(orig, pred, i as int);
            assert(orig.take(i + 1).drop_last() =~= orig.take(i as int));
            assert(orig.take(i + 1).last() == orig[i as int]);
            assert(is_collide == overlaps(c0, character_translation, f));
        }
        let ghost old_events = earn_point_events@;
        if is_collide {
            match f.ufo.kind {
                UfoType::ENEMY => {
                    proof {
                        assert(overlaps(c0, character_translation, orig.take(i + 1)[i as int])
                            && orig.take(i + 1)[i as int].ufo.kind == UfoType::ENEMY);
                        assert(spec_hazard_hit(orig.take(i + 1), c0, character_translation));
                    }
                    if character.invulnerable_until < now_ms {
                        character.invulnerable_until = now_ms + INVULNERABLE_DURATION_MS;
                        lose_life = Some(LoseLifeEvent {  });
                    }
                },
                UfoType::BONUS => {
                    earn_point_events.push(EarnPointEvent { scores: f.ufo.score });
                    proof {
                        assert(event_scores(earn_point_events@) =~= event_scores(old_events).push(
                            f.ufo.score,
                        ));
                    }
                },
            }
        } else {
            retained.push(f);
        }
        proof {
            if spec_hazard_hit(orig.take(i + 1), c0, character_translation) && !(
            spec_hazard_hit(orig.take(i as int), c0, character_translation)) {
                let w = choose|j: int|
                    0 <= j < orig.take(i + 1).len() && overlaps(
                        c0,
                        character_translation,
                        #[trigger] orig.take(i + 1)[j],
                    ) && orig.take(i + 1)[j].ufo.kind == UfoType::ENEMY;
                if w < i {
                    assert(overlaps(c0, character_translation, orig.take(i as int)[w]));
                    assert(false);
                }
            }
        }
        i += 1;
    }
    proof {
        lemma_take_all(orig);
    }
    *ufos = retained;
    CollisionOutcome { lose_life, earn_point_events }
}

} // verus!
