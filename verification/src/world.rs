//! The whole game in one place: the world that a host drives one tick at a
//! time, in the fixed order timers, spawner, motion, cleanup, movement,
//! collision and outcomes, presentation, game-over check.

use vstd::prelude::*;
use crate::background::{
    icons_match_lives, spawn_lifes, spec_decimal, spec_sum_scores, update_points,
    update_user_life, GameMetadata, LifeIcon,
};
use crate::boundary::{get_game_boundary, GameBonudary};
use crate::geometry::{translation_bounded, Translation, COORD_BOUND, MAX_TICK_MS, MAX_TIME_MS};
use crate::objects::{
    cleanup_pred, fallen, spawn_bonus_overtime, spawn_enemy_overtime, spawned_from,
    tick_bonus_spawn_timer, tick_enemy_spawn_timer, ufo_cleanup, ufo_fall,
    BonusObjectSpawnTimer, EnemySpawnTimer, FallingUfo, UfoType, BONUS_OBJECT_SCORE,
};
use crate::player::{
    collision_survivor_pred, event_scores, obj_collision, spawn_character, spec_bonus_scores,
    spec_confine, spec_direction, spec_hazard_hit, spec_moved, character_movement, Character,
    EarnPointEvent, KeyState, CHARACTER_TEXTURE_FLIP_FREQ_MS, INVULNERABLE_DURATION_MS,
};
use crate::seqs::{lemma_filter_preserves, lemma_take_all};

verus! {

/// The terminal signal: raised exactly once, when the last life is lost.
/// It carries the fixed payload its receivers expect.
#[derive(Clone, Copy, PartialEq, Eq, Structural, Debug)]
pub struct GameOver {
    pub score: u8,
}

/// The world never holds more falling objects than this; it keeps the score
/// bookkeeping inside `u64`.
pub const MAX_UFOS: usize = 1_000_000_000;

/// The sum of a list of point values.
pub open spec fn sum_u32(s: Seq<u32>) -> int
    decreases s.len(),
{
    if s.len() == 0 {
        0
    } else {
        sum_u32(s.drop_last()) + s.last()
    }
}

/// The total of the point values of all falling objects in the list.
pub open spec fn spec_total_ufo_scores(s: Seq<FallingUfo>) -> int
    decreases s.len(),
{
    if s.len() == 0 {
        0
    } else {
        spec_total_ufo_scores(s.drop_last()) + s.last().ufo.score
    }
}

/// Every falling object after one tick of falling.
pub open spec fn fall_seq(s: Seq<FallingUfo>, dt: int) -> Seq<FallingUfo> {
    s.map_values(|f: FallingUfo| fallen(f, dt))
}

/// A sum of score events equals the sum of the point values they carry.
pub proof fn lemma_sum_events_eq(s: Seq<EarnPointEvent>)
    ensures
        spec_sum_scores(s) == sum_u32(event_scores(s)),
    decreases s.len(),
{
    if s.len() > 0 {
        lemma_sum_events_eq(s.drop_last());
        assert(event_scores(s).drop_last() =~= event_scores(s.drop_last()));
        assert(event_scores(s).last() == s.last().scores);
    }
}

/// The points granted by the overlapping bonuses never exceed the total of
/// all point values in the list.
pub proof fn lemma_bonus_le_total(s: Seq<FallingUfo>, c: Character, ct: Translation)
    ensures
        sum_u32(spec_bonus_scores(s, c, ct)) <= spec_total_ufo_scores(s),
    decreases s.len(),
{
    if s.len() > 0 {
        lemma_bonus_le_total(s.drop_last(), c, ct);
        let b = spec_bonus_scores(s, c, ct);
        let bd = spec_bonus_scores(s.drop_last(), c, ct);
        if b != bd {
            assert(b == bd.push(s.last().ufo.score));
            assert(b.drop_last() =~= bd);
        }
    }
}

/// Filtering never increases the total of the point values.
pub proof fn lemma_total_filter_le(s: Seq<FallingUfo>, pred: spec_fn(FallingUfo) -> bool)
    ensures
        spec_total_ufo_scores(s.filter(pred)) <= spec_total_ufo_scores(s),
    decreases s.len(),
{
    reveal(Seq::filter);
    if s.len() > 0 {
        lemma_total_filter_le(s.drop_last(), pred);
        let out = s.filter(pred);
        let sub = s.drop_last().filter(pred);
        if pred(s.last()) {
            assert(out == sub.push(s.last()));
            assert(out.drop_last() =~= sub);
        }
    }
}

/// Two lists whose objects carry the same point values position by position
/// have the same total.
pub proof fn lemma_total_congruent(s1: Seq<FallingUfo>, s2: Seq<FallingUfo>)
    requires
        s1.len() == s2.len(),
        forall|i: int| 0 <= i < s1.len() ==> (#[trigger] s1[i]).ufo.score == s2[i].ufo.score,
    ensures
        spec_total_ufo_scores(s1) == spec_total_ufo_scores(s2),
    decreases s1.len(),
{
    if s1.len() > 0 {
        assert(forall|i: int|
            0 <= i < s1.drop_last().len() ==> (#[trigger] s1.drop_last()[i]).ufo.score
                == s2.drop_last()[i].ufo.score);
        lemma_total_congruent(s1.drop_last(), s2.drop_last());
    }
}

/// The total of a concatenation is the sum of the totals.
pub proof fn lemma_total_add(a: Seq<FallingUfo>, b: Seq<FallingUfo>)
    ensures
        spec_total_ufo_scores(a + b) == spec_total_ufo_scores(a) + spec_total_ufo_scores(b),
    decreases b.len(),
{
    if b.len() == 0 {
        assert(a + b =~= a);
    } else {
        assert((a + b).drop_last() =~= a + b.drop_last());
        assert((a + b).last() == b.last());
        lemma_total_add(a, b.drop_last());
    }
}

/// Totals are never negative.
pub proof fn lemma_total_nonneg(s: Seq<FallingUfo>)
    ensures
        spec_total_ufo_scores(s) >= 0,
    decreases s.len(),
{
    if s.len() > 0 {
        lemma_total_nonneg(s.drop_last());
    }
}

/// Computes the total of the point values of all falling objects.
pub fn total_ufo_scores(ufos: &Vec<FallingUfo>) -> (total: u64)
    requires
        ufos@.len() <= MAX_UFOS,
    ensures
        total == spec_total_ufo_scores(ufos@),
{
    let mut total: u64 = 0;
    let mut i: usize = 0;
    while i < ufos.len()
        invariant
            i <= ufos@.len(),
            ufos@.len() <= MAX_UFOS,
            total == spec_total_ufo_scores(ufos@.take(i as int)),
            total <= i * (u32::MAX as int),
        decreases ufos@.len() - i,
    {
        proof {
            assert(ufos@.take(i + 1).drop_last() =~= ufos@.take(i as int));
            assert(ufos@.take(i + 1).last() == ufos@[i as int]);
        }
        total = total + ufos[i].ufo.score as u64;
        i += 1;
    }
    proof {
        lemma_take_all(ufos@);
    }
    total
}

/// Everything the simulation owns between two ticks.
pub struct World {
    pub boundary: GameBonudary,
    pub metadata: GameMetadata,
    pub character: Character,
    pub character_translation: Translation,
    pub ufos: Vec<FallingUfo>,
    pub enemy_timer: EnemySpawnTimer,
    pub bonus_timer: BonusObjectSpawnTimer,
    pub life_icons: Vec<LifeIcon>,
    pub game_over_sent: bool,
    pub now_ms: u64,
}

/// What one tick reports back to the host: the texture indices of freshly
/// spawned objects, whether the walk frame flipped, the life and score
/// events, the new score text when the score changed, and the game-over
/// signal when the last life was just lost.
pub struct TickOutput {
    pub spawned_enemy_texture: Option<usize>,
    pub spawned_bonus_texture: Option<usize>,
    pub flipped: bool,
    pub lose_life: bool,
    pub earn_point_events: Vec<EarnPointEvent>,
    pub score_text: Option<String>,
    pub game_over: Option<GameOver>,
}

impl World {
    /// Every piece of the world is within the bounds its arithmetic needs,
    /// and there is one life icon per remaining life.
    pub open spec fn wf(self) -> bool {
        &&& self.boundary.wf()
        &&& self.character.wf()
        &&& translation_bounded(self.character_translation)
        &&& self.character.last_flip <= self.now_ms
        &&& forall|j: int| 0 <= j < self.ufos@.len() ==> (#[trigger] self.ufos@[j]).wf()
        &&& self.ufos@.len() <= MAX_UFOS
        &&& self.enemy_timer.timer.wf()
        &&& self.bonus_timer.timer.wf()
        &&& icons_match_lives(self.life_icons@, self.metadata.lifes)
        &&& self.now_ms <= MAX_TIME_MS
    }

    /// A fresh session: the boundary is computed from the window once, the
    /// player starts in the lower middle, three lives with their icons, no
    /// points, no falling objects, and the clock at zero.
    pub fn new(window_width: i64, window_height: i64) -> (w: World)
        requires
            0 <= window_width <= 1_000_000_000,
            0 <= window_height <= 1_000_000_000,
        ensures
            w.wf(),
            w.boundary == get_boundary_spec(window_width as int, window_height as int),
            w.metadata == (GameMetadata { level: 1, lifes: 3, scores: 0 }),
            w.character.is_head,
            w.character.last_flip == 0,
            w.character.invulnerable_until == 0,
            w.character_translation.x == window_width / 2,
            w.ufos@.len() == 0,
            w.game_over_sent == false,
            w.now_ms == 0,
    {
        let boundary = get_game_boundary(window_width, window_height);
        let metadata = GameMetadata::default();
        let life_icons = spawn_lifes(&metadata);
        World {
            boundary,
            metadata,
            character: Character::default(),
            character_translation: spawn_character(window_width),
            ufos: Vec::new(),
            enemy_timer: EnemySpawnTimer::default(),
            bonus_timer: BonusObjectSpawnTimer::default(),
            life_icons,
            game_over_sent: false,
            now_ms: 0,
        }
    }
}

/// The boundary that a window of the given size yields.
pub open spec fn get_boundary_spec(window_width: int, window_height: int) -> GameBonudary {
    GameBonudary {
        x_min: (window_width / 2 - 245) as i64,
        x_max: (window_width / 2 + 245) as i64,
        y_min: (window_height / 2 - 315) as i64,
        y_max: (window_height / 2 + 315) as i64,
        x_mid: (window_width / 2) as i64,
        y_mid: (window_height / 2) as i64,
    }
}


/// The game clock at the end of a tick.
pub open spec fn tick_now(pre: World, dt_ms: u64) -> int {
    pre.now_ms + dt_ms
}

/// Whether the walk-animation frame flips during the tick.
pub open spec fn tick_flip(pre: World, keys: KeyState, dt_ms: u64) -> bool {
    spec_direction(keys) != (0int, 0int) && tick_now(pre, dt_ms) - pre.character.last_flip
        > CHARACTER_TEXTURE_FLIP_FREQ_MS
}

/// The player state after movement, before the collision pass: only the
/// animation fields can have changed.
pub open spec fn tick_mid_character(pre: World, keys: KeyState, dt_ms: u64) -> Character {
    Character {
        is_head: if tick_flip(pre, keys, dt_ms) {
            !pre.character.is_head
        } else {
            pre.character.is_head
        },
        last_flip: if tick_flip(pre, keys, dt_ms) {
            tick_now(pre, dt_ms) as u64
        } else {
            pre.character.last_flip
        },
        size: pre.character.size,
        invulnerable_until: pre.character.invulnerable_until,
    }
}

/// The player position after movement and clamping.
pub open spec fn tick_position(pre: World, keys: KeyState, dt_ms: u64) -> Translation {
    spec_confine(spec_moved(pre.character_translation, keys, dt_ms as int), pre.boundary)
}

/// The falling objects the collision pass sees: the old ones plus the
/// tick's spawn batch, after falling and after cleanup.
pub open spec fn tick_cleaned(pre: World, spawned: Seq<FallingUfo>, dt_ms: u64) -> Seq<
    FallingUfo,
> {
    fall_seq(pre.ufos@ + spawned, dt_ms as int).filter(cleanup_pred(pre.boundary.y_min as int))
}

/// Whether some hazard overlaps the player during the tick's collision pass.
pub open spec fn tick_hazard(
    pre: World,
    keys: KeyState,
    dt_ms: u64,
    spawned: Seq<FallingUfo>,
) -> bool {
    spec_hazard_hit(
        tick_cleaned(pre, spawned, dt_ms),
        tick_mid_character(pre, keys, dt_ms),
        tick_position(pre, keys, dt_ms),
    )
}

/// Everything one tick does, related to the batch of objects it spawned.
/// The batch is existentially quantified by the tick's contract because its
/// positions and speeds are random; everything else is pinned exactly.
pub open spec fn tick_rel(
    pre: World,
    keys: KeyState,
    dt_ms: u64,
    post: World,
    out: TickOutput,
    spawned: Seq<FallingUfo>,
) -> bool {
    let now = tick_now(pre, dt_ms);
    let enemy_fin = pre.enemy_timer.timer.elapsed_ms + dt_ms >= pre.enemy_timer.timer.period_ms;
    let bonus_fin = pre.bonus_timer.timer.elapsed_ms + dt_ms >= pre.bonus_timer.timer.period_ms;
    let flip = tick_flip(pre, keys, dt_ms);
    let c_mid = tick_mid_character(pre, keys, dt_ms);
    let pos = tick_position(pre, keys, dt_ms);
    let cleaned = tick_cleaned(pre, spawned, dt_ms);
    let hit = tick_hazard(pre, keys, dt_ms, spawned) && pre.character.invulnerable_until < now;
    let lifes_after: int = if hit && pre.metadata.lifes > 0 {
        pre.metadata.lifes - 1
    } else {
        pre.metadata.lifes as int
    };
    &&& post.boundary == pre.boundary
    &&& post.now_ms == now
    &&& post.enemy_timer.timer.period_ms == pre.enemy_timer.timer.period_ms
    &&& post.enemy_timer.timer.finished == enemy_fin
    &&& post.enemy_timer.timer.elapsed_ms == (pre.enemy_timer.timer.elapsed_ms + dt_ms) % (
    pre.enemy_timer.timer.period_ms as int)
    &&& post.bonus_timer.timer.period_ms == pre.bonus_timer.timer.period_ms
    &&& post.bonus_timer.timer.finished == bonus_fin
    &&& post.bonus_timer.timer.elapsed_ms == (pre.bonus_timer.timer.elapsed_ms + dt_ms) % (
    pre.bonus_timer.timer.period_ms as int)
    &&& spawned.len() == (if enemy_fin {
        1int
    } else {
        0int
    }) + (if bonus_fin {
        1int
    } else {
        0int
    })
    &&& (enemy_fin ==> spawned_from(spawned[0], pre.boundary, pre.metadata, 0u32, UfoType::ENEMY))
    &&& (bonus_fin ==> spawned_from(
        spawned[spawned.len() - 1],
        pre.boundary,
        pre.metadata,
        BONUS_OBJECT_SCORE,
        UfoType::BONUS,
    ))
    &&& out.spawned_enemy_texture == (if enemy_fin {
        Some(0usize)
    } else {
        None::<usize>
    })
    &&& out.spawned_bonus_texture == (if bonus_fin {
        Some(0usize)
    } else {
        None::<usize>
    })
    &&& post.character_translation == pos
    &&& out.flipped == flip
    &&& post.character.is_head == c_mid.is_head
    &&& post.character.last_flip == c_mid.last_flip
    &&& post.character.size == pre.character.size
    &&& post.ufos@ == cleaned.filter(collision_survivor_pred(c_mid, pos))
    &&& out.lose_life == hit
    &&& post.character.invulnerable_until == (if hit {
        now + INVULNERABLE_DURATION_MS
    } else {
        pre.character.invulnerable_until as int
    })
    &&& event_scores(out.earn_point_events@) == spec_bonus_scores(cleaned, c_mid, pos)
    &&& post.metadata.scores == pre.metadata.scores + spec_sum_scores(out.earn_point_events@)
    &&& (out.score_text is Some) == (out.earn_point_events@.len() > 0)
    &&& (out.score_text matches Some(s) ==> s@ == spec_decimal(post.metadata.scores as nat))
    &&& post.metadata.lifes == lifes_after
    &&& post.metadata.level == pre.metadata.level
    &&& icons_match_lives(post.life_icons@, post.metadata.lifes)
    &&& (out.game_over is Some) == (post.metadata.lifes == 0 && !pre.game_over_sent)
    &&& (out.game_over matches Some(g) ==> g.score == 10)
    &&& post.game_over_sent == (pre.game_over_sent || post.metadata.lifes == 0)
}

impl World {
    /// One tick of the whole game, in the fixed order: advance the clock and
    /// the spawn timers, spawn due objects, advance and clean up the falling
    /// objects, move the player, resolve collisions, apply the score and
    /// life outcomes, and check for game over.
    pub fn tick(&mut self, keys: KeyState, dt_ms: u64) -> (out: TickOutput)
        requires
            old(self).wf(),
            dt_ms <= MAX_TICK_MS,
            old(self).now_ms + dt_ms <= MAX_TIME_MS,
            old(self).ufos@.len() + 2 <= MAX_UFOS,
            old(self).metadata.scores + spec_total_ufo_scores(old(self).ufos@)
                + BONUS_OBJECT_SCORE <= u32::MAX,
        ensures
            final(self).wf(),
            exists|spawned: Seq<FallingUfo>|
                #[trigger] tick_rel(*old(self), keys, dt_ms, *final(self), out, spawned),
            final(self).metadata.lifes <= old(self).metadata.lifes,
            old(self).metadata.lifes - final(self).metadata.lifes <= 1,
            final(self).metadata.scores >= old(self).metadata.scores,
            final(self).metadata.level == old(self).metadata.level,
            final(self).boundary == old(self).boundary,
            old(self).boundary.contains(final(self).character_translation),
            forall|j: int|
                0 <= j < final(self).ufos@.len() ==> (#[trigger] final(self).ufos@[j]).translation.y
                    >= old(self).boundary.y_min,
            final(self).now_ms == old(self).now_ms + dt_ms,
    {
        let ghost pre = *self;
        // clock
        self.now_ms = self.now_ms + dt_ms;
        // timers advance before spawn decisions
        tick_enemy_spawn_timer(&mut self.enemy_timer, dt_ms);
        tick_bonus_spawn_timer(&mut self.bonus_timer, dt_ms);
        // spawner
        let ghost len0 = self.ufos@.len();
        let spawned_enemy_texture = spawn_enemy_overtime(
            &mut self.ufos,
            &self.enemy_timer,
            &self.boundary,
            &self.metadata,
        );
        let ghost u1 = self.ufos@;
        let spawned_bonus_texture = spawn_bonus_overtime(
            &mut self.ufos,
            &self.bonus_timer,
            &self.boundary,
            &self.metadata,
        );
        let ghost u2 = self.ufos@;
        let ghost spawned = self.ufos@.skip(len0 as int);
        let ghost all = pre.ufos@ + spawned;
        let ghost enemy_fin = self.enemy_timer.timer.finished;
        let ghost bonus_fin = self.bonus_timer.timer.finished;
        proof {
            if enemy_fin {
                assert(u1 == pre.ufos@.push(u1.last()));
            } else {
                assert(u1 == pre.ufos@);
            }
            if bonus_fin {
                assert(u2 == u1.push(u2.last()));
            } else {
                assert(u2 == u1);
            }
            assert(spawned =~= u2.skip(len0 as int));
            if enemy_fin && bonus_fin {
                assert(spawned.len() == 2);
                assert(spawned[0] == u1.last());
                assert(spawned[1] == u2.last());
            } else if enemy_fin {
                assert(spawned.len() == 1);
                assert(spawned[0] == u1.last());
            } else if bonus_fin {
                assert(spawned.len() == 1);
                assert(spawned[0] == u2.last());
            } else {
                assert(spawned.len() == 0);
            }
            assert(self.ufos@ =~= all);
            assert(forall|j: int| 0 <= j < all.len() ==> (#[trigger] all[j]).wf());
            lemma_total_add(pre.ufos@, spawned);
            lemma_total_spawned(spawned);
            lemma_total_nonneg(pre.ufos@);
        }
        // motion before collision testing
        ufo_fall(&mut self.ufos, dt_ms);
        let ghost moved_ufos = fall_seq(all, dt_ms as int);
        proof {
            assert(self.ufos@ =~= moved_ufos);
        }
        // cleanup before collision testing
        ufo_cleanup(&mut self.ufos, &self.boundary);
        let ghost cleaned = moved_ufos.filter(cleanup_pred(pre.boundary.y_min as int));
        proof {
            assert(self.ufos@ == cleaned);
            let pred = cleanup_pred(pre.boundary.y_min as int);
            let bounded_prop = |f: FallingUfo|
                {
                    &&& f.ufo.wf()
                    &&& -COORD_BOUND <= f.translation.x <= COORD_BOUND
                    &&& f.translation.y <= COORD_BOUND
                };
            assert(forall|j: int|
                0 <= j < moved_ufos.len() ==> bounded_prop(#[trigger] moved_ufos[j]));
            lemma_filter_preserves(moved_ufos, pred, bounded_prop);
            assert forall|j: int| 0 <= j < cleaned.len() implies (#[trigger] cleaned[j]).wf()
                && cleaned[j].translation.y >= pre.boundary.y_min by {
                moved_ufos.lemma_filter_pred(pred, j);
                assert(bounded_prop(cleaned[j]));
            }
            lemma_total_congruent(moved_ufos, all);
            lemma_total_filter_le(moved_ufos, pred);
        }
        // player movement
        let flipped = character_movement(
            &mut self.character_translation,
            &mut self.character,
            keys,
            self.now_ms,
            dt_ms,
            &self.boundary,
        );
        let ghost c_mid = self.character;
        // collision and outcomes
        let outcome = obj_collision(
            &mut self.character,
            self.character_translation,
            &mut self.ufos,
            self.now_ms,
        );
        proof {
            lemma_sum_events_eq(outcome.earn_point_events@);
            lemma_bonus_le_total(cleaned, c_mid, self.character_translation);
            crate::background::lemma_sum_nonneg(outcome.earn_point_events@);
        }
        // score outcomes before the readout refresh
        let score_text = update_points(&mut self.metadata, &outcome.earn_point_events);
        // life outcomes, icon refresh, game-over check
        let lose_life = match outcome.lose_life {
            Some(_) => true,
            None => false,
        };
        let game_over = update_user_life(
            &mut self.metadata,
            &mut self.life_icons,
            lose_life,
            &mut self.game_over_sent,
        );
        proof {
            let surv = collision_survivor_pred(c_mid, self.character_translation);
            let bounded_prop = |f: FallingUfo|
                {
                    &&& f.ufo.wf()
                    &&& translation_bounded(f.translation)
                    &&& f.translation.y >= pre.boundary.y_min
                };
            assert(forall|j: int| 0 <= j < cleaned.len() ==> bounded_prop(#[trigger] cleaned[j]));
            lemma_filter_preserves(cleaned, surv, bounded_prop);
            cleaned.lemma_filter_len(surv);
            assert(forall|j: int|
                0 <= j < self.ufos@.len() ==> bounded_prop(#[trigger] self.ufos@[j]));
        }
        let out = TickOutput {
            spawned_enemy_texture,
            spawned_bonus_texture,
            flipped,
            lose_life,
            earn_point_events: outcome.earn_point_events,
            score_text,
            game_over,
        };
        proof {
            assert(tick_rel(pre, keys, dt_ms, *self, out, spawned));
        }
        out
    }
}


/// A hazard overlap during an active invulnerability window never costs a
/// life; once the window has expired, the next hazard overlap costs exactly
/// one, and a fresh window opens at the moment of the hit.
pub proof fn lemma_invulnerability_window(
    pre: World,
    keys: KeyState,
    dt_ms: u64,
    post: World,
    out: TickOutput,
    spawned: Seq<FallingUfo>,
)
    requires
        tick_rel(pre, keys, dt_ms, post, out, spawned),
    ensures
        pre.character.invulnerable_until >= pre.now_ms + dt_ms ==> !out.lose_life
            && post.metadata.lifes == pre.metadata.lifes && post.character.invulnerable_until
            == pre.character.invulnerable_until,
        tick_hazard(pre, keys, dt_ms, spawned) && pre.character.invulnerable_until < pre.now_ms
            + dt_ms ==> out.lose_life && post.character.invulnerable_until == pre.now_ms + dt_ms
            + INVULNERABLE_DURATION_MS && (pre.metadata.lifes > 0 ==> post.metadata.lifes
            == pre.metadata.lifes - 1),
{
}

/// The tick's score gain is exactly the sum of the point values of the
/// overlapping bonuses.
pub proof fn lemma_bonus_points_exact(
    pre: World,
    keys: KeyState,
    dt_ms: u64,
    post: World,
    out: TickOutput,
    spawned: Seq<FallingUfo>,
)
    requires
        tick_rel(pre, keys, dt_ms, post, out, spawned),
    ensures
        post.metadata.scores == pre.metadata.scores + sum_u32(
            spec_bonus_scores(
                tick_cleaned(pre, spawned, dt_ms),
                tick_mid_character(pre, keys, dt_ms),
                tick_position(pre, keys, dt_ms),
            ),
        ),
{
    lemma_sum_events_eq(out.earn_point_events@);
}

/// The points a bonus overlap grants do not depend on the invulnerability
/// state: two players that differ only there earn the same.
pub proof fn lemma_bonus_ignores_invulnerability(
    s: Seq<FallingUfo>,
    c1: Character,
    c2: Character,
    ct: Translation,
)
    requires
        c1.size == c2.size,
    ensures
        spec_bonus_scores(s, c1, ct) == spec_bonus_scores(s, c2, ct),
    decreases s.len(),
{
    if s.len() > 0 {
        lemma_bonus_ignores_invulnerability(s.drop_last(), c1, c2, ct);
    }
}

/// A falling object that has dropped below the bottom edge does not survive
/// cleanup, so it takes part in no later collision test of the tick: every
/// object the collision pass sees still sits at or above the bottom edge.
pub proof fn lemma_low_object_never_collides(
    pre: World,
    spawned: Seq<FallingUfo>,
    dt_ms: u64,
    f: FallingUfo,
)
    requires
        f.translation.y < pre.boundary.y_min,
    ensures
        !tick_cleaned(pre, spawned, dt_ms).contains(f),
        forall|i: int|
            0 <= i < tick_cleaned(pre, spawned, dt_ms).len() ==> (#[trigger] tick_cleaned(
                pre,
                spawned,
                dt_ms,
            )[i]).translation.y >= pre.boundary.y_min,
{
    let moved_ufos = fall_seq(pre.ufos@ + spawned, dt_ms as int);
    let pred = cleanup_pred(pre.boundary.y_min as int);
    let cleaned = tick_cleaned(pre, spawned, dt_ms);
    assert forall|i: int|
        0 <= i < cleaned.len() implies (#[trigger] cleaned[i]).translation.y
        >= pre.boundary.y_min by {
        moved_ufos.lemma_filter_pred(pred, i);
    }
    if cleaned.contains(f) {
        let i = choose|i: int| 0 <= i < cleaned.len() && cleaned[i] == f;
        assert(cleaned[i].translation.y >= pre.boundary.y_min);
    }
}

/// A spawn batch holds at most one hazard (worth nothing) and one bonus, so
/// its total is at most one bonus grant.
proof fn lemma_total_spawned(spawned: Seq<FallingUfo>)
    requires
        spawned.len() <= 2,
        forall|j: int| 0 <= j < spawned.len() ==> (#[trigger] spawned[j]).ufo.score
            <= BONUS_OBJECT_SCORE,
        spawned.len() == 2 ==> spawned[0].ufo.score == 0,
    ensures
        spec_total_ufo_scores(spawned) <= BONUS_OBJECT_SCORE,
{
    if spawned.len() == 1 {
        assert(spec_total_ufo_scores(spawned.drop_last()) == 0);
    } else if spawned.len() == 2 {
        assert(spec_total_ufo_scores(spawned.drop_last().drop_last()) == 0);
        assert(spawned.drop_last()[0] == spawned[0]);
        assert(spec_total_ufo_scores(spawned.drop_last()) == spawned[0].ufo.score);
    }
}

} // verus!
