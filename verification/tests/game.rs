use ufo_dodge::background::{
    score_text, show_scores, spawn_grass, spawn_lifes, update_points, update_user_life,
    GameMetadata, LifeIcon,
};
use ufo_dodge::boundary::{get_game_boundary, GameBonudary};
use ufo_dodge::geometry::Translation;
use ufo_dodge::objects::{
    pick_texture, spawn_ufo, tick_enemy_spawn_timer, ufo_cleanup, ufo_fall,
    BonusObjectSpawnTimer, EnemySpawnTimer, FallingUfo, RandomFreeFall, SpawnTimer, UfoType, UFO,
};
use ufo_dodge::player::{
    character_movement, collide, confine_movement, min_distance, obj_collision, spawn_character,
    Character, EarnPointEvent, KeyState,
};
use ufo_dodge::world::{total_ufo_scores, World};

fn square_boundary() -> GameBonudary {
    GameBonudary { x_min: 0, x_max: 100, y_min: 0, y_max: 100, x_mid: 50, y_mid: 50 }
}

fn hazard_at(x: i64, y: i64, fall_speed: i64) -> FallingUfo {
    FallingUfo {
        translation: Translation { x, y },
        ufo: UFO { fall_speed, size: (51, 73), score: 0, kind: UfoType::ENEMY },
    }
}

fn bonus_at(x: i64, y: i64, score: u32) -> FallingUfo {
    FallingUfo {
        translation: Translation { x, y },
        ufo: UFO { fall_speed: 150, size: (51, 73), score, kind: UfoType::BONUS },
    }
}

#[test]
fn boundary_is_centered_and_fixed_size() {
    let b = get_game_boundary(700, 800);
    assert_eq!(b.x_mid, 350);
    assert_eq!(b.y_mid, 400);
    assert_eq!(b.x_min, 105);
    assert_eq!(b.x_max, 595);
    assert_eq!(b.y_min, 85);
    assert_eq!(b.y_max, 715);
    assert_eq!(b.x_max - b.x_min, 490);
    assert_eq!(b.y_max - b.y_min, 630);
}

#[test]
fn character_spawns_in_lower_middle() {
    let t = spawn_character(700);
    assert_eq!(t.x, 350);
    assert_eq!(t.y, 126);
}

#[test]
fn clamping_keeps_both_axes_inside() {
    let b = square_boundary();
    let inside = confine_movement(&Translation { x: 40, y: 60 }, &b);
    assert_eq!(inside, Translation { x: 40, y: 60 });
    let corner = confine_movement(&Translation { x: 200, y: 200 }, &b);
    assert_eq!(corner, Translation { x: 100, y: 100 });
    let below = confine_movement(&Translation { x: -5, y: -7 }, &b);
    assert_eq!(below, Translation { x: 0, y: 0 });
    let mixed = confine_movement(&Translation { x: 130, y: -2 }, &b);
    assert_eq!(mixed, Translation { x: 100, y: 0 });
}

#[test]
fn collision_uses_half_extent_sums_per_axis() {
    let character = Character::default();
    let ufo = UFO { fall_speed: 150, size: (51, 73), score: 0, kind: UfoType::ENEMY };
    assert_eq!(min_distance(&character, &ufo), (60, 78));
    let at = Translation { x: 0, y: 0 };
    assert!(collide(&character, at, &ufo, Translation { x: 59, y: 0 }));
    assert!(!collide(&character, at, &ufo, Translation { x: 60, y: 0 }));
    assert!(collide(&character, at, &ufo, Translation { x: 0, y: 77 }));
    assert!(!collide(&character, at, &ufo, Translation { x: 0, y: 78 }));
    assert!(!collide(&character, at, &ufo, Translation { x: 60, y: 78 }));
}

#[test]
fn repeating_timer_carries_remainder() {
    let mut t = SpawnTimer::from_millis(1000);
    t.tick(400);
    assert!(!t.finished);
    assert_eq!(t.elapsed_ms, 400);
    t.tick(600);
    assert!(t.finished);
    assert_eq!(t.elapsed_ms, 0);
    t.tick(1700);
    assert!(t.finished);
    assert_eq!(t.elapsed_ms, 700);
    t.tick(100);
    assert!(!t.finished);
    assert_eq!(t.elapsed_ms, 800);
}

#[test]
fn bonus_period_is_twice_the_hazard_period() {
    let e = EnemySpawnTimer::default();
    let b = BonusObjectSpawnTimer::default();
    assert_eq!(e.timer.period_ms, 1000);
    assert_eq!(b.timer.period_ms, 2000);
}

#[test]
fn texture_pick_truncation_always_selects_first() {
    for _ in 0..50 {
        assert_eq!(pick_texture(2), 0);
        assert_eq!(pick_texture(3), 0);
    }
}

#[test]
fn speed_modifier_stays_in_range() {
    for _ in 0..200 {
        let m = UFO::get_speed_modifier(1500, 500);
        assert!((500..1500).contains(&m));
    }
}

#[test]
fn new_ufo_speed_is_level_scaled_and_jittered() {
    for _ in 0..100 {
        let u = UFO::new(1, 51, 73, 0, UfoType::ENEMY);
        // base speed 150 + 1 * 30 = 180; factor in [0.5, 1.5)
        assert!(u.fall_speed >= 90);
        assert!(u.fall_speed < 270);
        assert_eq!(u.size, (51, 73));
        assert_eq!(u.score, 0);
    }
}

#[test]
fn spawned_ufo_sits_at_top_within_width() {
    let b = get_game_boundary(700, 800);
    let meta = GameMetadata::default();
    let mut ufos: Vec<FallingUfo> = Vec::new();
    for _ in 0..50 {
        spawn_ufo(&mut ufos, &b, &meta, 10, UfoType::BONUS);
    }
    assert_eq!(ufos.len(), 50);
    for f in &ufos {
        assert_eq!(f.translation.y, b.y_max);
        assert!(f.translation.x >= b.x_min);
        assert!(f.translation.x < b.x_min + 490);
        assert_eq!(f.ufo.score, 10);
    }
}

#[test]
fn falling_moves_straight_down_by_speed() {
    let mut ufos = vec![hazard_at(50, 100, 150), bonus_at(20, 90, 10)];
    ufo_fall(&mut ufos, 100);
    assert_eq!(ufos[0].translation, Translation { x: 50, y: 85 });
    assert_eq!(ufos[1].translation, Translation { x: 20, y: 75 });
    ufo_fall(&mut ufos, 1000);
    assert_eq!(ufos[0].translation.y, -65);
    assert_eq!(ufos[1].translation.y, -75);
}

#[test]
fn cleanup_removes_only_objects_below_floor() {
    let b = square_boundary();
    let mut ufos = vec![hazard_at(10, -1, 150), bonus_at(20, 0, 10), hazard_at(30, 55, 150)];
    ufo_cleanup(&mut ufos, &b);
    assert_eq!(ufos.len(), 2);
    assert_eq!(ufos[0].translation, Translation { x: 20, y: 0 });
    assert_eq!(ufos[1].translation, Translation { x: 30, y: 55 });
}

#[test]
fn hazard_overlap_costs_life_and_starts_window() {
    // lives 3 on a 100 by 100 play area; a hazard spawned at (50, 100)
    // falling at 150 units per second reaches the player at (50, 10)
    let b = square_boundary();
    let mut meta = GameMetadata::default();
    assert_eq!(meta.lifes, 3);
    let mut icons = spawn_lifes(&meta);
    assert_eq!(icons.len(), 3);
    let mut character = Character::default();
    let char_pos = Translation { x: 50, y: 10 };
    let mut ufos = vec![hazard_at(50, 100, 150)];
    ufo_fall(&mut ufos, 600);
    assert_eq!(ufos[0].translation.y, 10);
    ufo_cleanup(&mut ufos, &b);
    assert_eq!(ufos.len(), 1);
    let now = 5000u64;
    let out = obj_collision(&mut character, char_pos, &mut ufos, now);
    assert!(out.lose_life.is_some());
    assert!(out.earn_point_events.is_empty());
    assert_eq!(character.invulnerable_until, now + 3000);
    assert!(ufos.is_empty());
    let mut sent = false;
    let game_over = update_user_life(&mut meta, &mut icons, true, &mut sent);
    assert_eq!(meta.lifes, 2);
    assert!(game_over.is_none());
    assert_eq!(icons.len(), 2);
    assert_eq!(icons[0], LifeIcon { count: 0 });
    assert_eq!(icons[1], LifeIcon { count: 1 });
}

#[test]
fn hazard_during_window_never_costs_life() {
    let mut character = Character::default();
    character.invulnerable_until = 10_000;
    let char_pos = Translation { x: 50, y: 10 };
    let mut ufos = vec![hazard_at(50, 10, 150)];
    let out = obj_collision(&mut character, char_pos, &mut ufos, 9_999);
    assert!(out.lose_life.is_none());
    assert_eq!(character.invulnerable_until, 10_000);
    // the object is still removed on any overlap
    assert!(ufos.is_empty());
    // once the window has expired, the next overlap costs a life
    let mut ufos = vec![hazard_at(50, 10, 150)];
    let out = obj_collision(&mut character, char_pos, &mut ufos, 10_001);
    assert!(out.lose_life.is_some());
    assert_eq!(character.invulnerable_until, 13_001);
}

#[test]
fn bonus_earns_points_even_while_invulnerable() {
    let mut character = Character::default();
    character.invulnerable_until = u64::MAX - 4000;
    let char_pos = Translation { x: 50, y: 10 };
    let mut ufos = vec![bonus_at(50, 10, 10)];
    let out = obj_collision(&mut character, char_pos, &mut ufos, 1000);
    assert!(out.lose_life.is_none());
    assert_eq!(out.earn_point_events.len(), 1);
    assert_eq!(out.earn_point_events[0], EarnPointEvent { scores: 10 });
    assert!(ufos.is_empty());
}

#[test]
fn score_display_shows_ten_after_first_bonus() {
    // score 0; a bonus worth 10 overlaps the player
    let mut character = Character::default();
    let char_pos = Translation { x: 50, y: 10 };
    let mut ufos = vec![bonus_at(50, 10, 10)];
    let out = obj_collision(&mut character, char_pos, &mut ufos, 1000);
    let mut meta = GameMetadata::default();
    assert_eq!(meta.scores, 0);
    let text = update_points(&mut meta, &out.earn_point_events);
    assert_eq!(meta.scores, 10);
    assert_eq!(text, Some(String::from("10")));
}

#[test]
fn points_accumulate_exactly() {
    let mut meta = GameMetadata::default();
    let events = vec![
        EarnPointEvent { scores: 10 },
        EarnPointEvent { scores: 10 },
        EarnPointEvent { scores: 7 },
    ];
    let text = update_points(&mut meta, &events);
    assert_eq!(meta.scores, 27);
    assert_eq!(text, Some(String::from("27")));
    let none = update_points(&mut meta, &Vec::new());
    assert_eq!(meta.scores, 27);
    assert_eq!(none, None);
}

#[test]
fn game_over_raised_exactly_once() {
    // lives go from 1 to 0: the signal fires once and never again
    let mut meta = GameMetadata { level: 1, lifes: 1, scores: 0 };
    let mut icons = spawn_lifes(&meta);
    let mut sent = false;
    let first = update_user_life(&mut meta, &mut icons, true, &mut sent);
    assert_eq!(meta.lifes, 0);
    assert!(icons.is_empty());
    assert!(first.is_some());
    assert_eq!(first.unwrap().score, 10);
    let second = update_user_life(&mut meta, &mut icons, false, &mut sent);
    assert!(second.is_none());
    let third = update_user_life(&mut meta, &mut icons, true, &mut sent);
    assert_eq!(meta.lifes, 0);
    assert!(third.is_none());
}

#[test]
fn movement_right_moves_along_x_only() {
    let b = GameBonudary { x_min: 0, x_max: 1000, y_min: 0, y_max: 1000, x_mid: 500, y_mid: 500 };
    let mut t = Translation { x: 500, y: 500 };
    let mut c = Character::default();
    let keys = KeyState { up: false, down: false, left: false, right: true };
    let flipped = character_movement(&mut t, &mut c, keys, 1000, 1000, &b);
    assert_eq!(t, Translation { x: 800, y: 500 });
    assert!(flipped);
    assert!(!c.is_head);
    assert_eq!(c.last_flip, 1000);
}

#[test]
fn diagonal_movement_is_normalized() {
    let b = GameBonudary { x_min: 0, x_max: 1000, y_min: 0, y_max: 1000, x_mid: 500, y_mid: 500 };
    let mut t = Translation { x: 500, y: 500 };
    let mut c = Character::default();
    let keys = KeyState { up: true, down: false, left: false, right: true };
    character_movement(&mut t, &mut c, keys, 100, 1000, &b);
    // 0.707 of the speed on each axis
    assert_eq!(t, Translation { x: 712, y: 712 });
}

#[test]
fn movement_is_clamped_into_the_boundary() {
    let b = square_boundary();
    let mut t = Translation { x: 95, y: 95 };
    let mut c = Character::default();
    let keys = KeyState { up: true, down: false, left: false, right: true };
    character_movement(&mut t, &mut c, keys, 100, 1000, &b);
    assert_eq!(t, Translation { x: 100, y: 100 });
}

#[test]
fn no_keys_no_motion_no_flip() {
    let b = square_boundary();
    let mut t = Translation { x: 50, y: 50 };
    let mut c = Character::default();
    let keys = KeyState { up: false, down: false, left: false, right: false };
    let flipped = character_movement(&mut t, &mut c, keys, 10_000, 1000, &b);
    assert_eq!(t, Translation { x: 50, y: 50 });
    assert!(!flipped);
    assert!(c.is_head);
    assert_eq!(c.last_flip, 0);
}

#[test]
fn flip_waits_for_the_interval() {
    let b = square_boundary();
    let mut t = Translation { x: 50, y: 50 };
    let mut c = Character::default();
    let keys = KeyState { up: true, down: false, left: false, right: false };
    let flipped = character_movement(&mut t, &mut c, keys, 200, 50, &b);
    assert!(!flipped);
    let flipped = character_movement(&mut t, &mut c, keys, 300, 50, &b);
    assert!(flipped);
    assert_eq!(c.last_flip, 300);
    let flipped = character_movement(&mut t, &mut c, keys, 400, 50, &b);
    assert!(!flipped);
}

#[test]
fn grass_tiles_cover_the_grid() {
    let b = square_boundary();
    let tiles = spawn_grass(&b, 70, 68);
    // two columns (0, 70) and two rows (0, 68), column by column
    assert_eq!(tiles.len(), 4);
    assert_eq!(tiles[0], Translation { x: 0, y: 0 });
    assert_eq!(tiles[1], Translation { x: 0, y: 68 });
    assert_eq!(tiles[2], Translation { x: 70, y: 0 });
    assert_eq!(tiles[3], Translation { x: 70, y: 68 });
}

#[test]
fn score_text_renders_decimal() {
    assert_eq!(score_text(0), "0");
    assert_eq!(score_text(7), "7");
    assert_eq!(score_text(10), "10");
    assert_eq!(score_text(105), "105");
    assert_eq!(score_text(u32::MAX), "4294967295");
}

#[test]
fn score_panel_sits_upper_right() {
    let b = get_game_boundary(700, 800);
    let meta = GameMetadata { level: 1, lifes: 3, scores: 120 };
    let panel = show_scores(&b, &meta);
    assert_eq!(panel.bottom, b.y_max - 40);
    assert_eq!(panel.left, b.x_min + 245);
    assert_eq!(panel.width, 245);
    assert_eq!(panel.padding, 4);
    assert_eq!(panel.text, "120");
}

#[test]
fn total_scores_adds_all_point_values() {
    let ufos = vec![hazard_at(1, 1, 100), bonus_at(2, 2, 10), bonus_at(3, 3, 7)];
    assert_eq!(total_ufo_scores(&ufos), 17);
    assert_eq!(total_ufo_scores(&Vec::new()), 0);
}

#[test]
fn world_ticks_spawn_on_schedule() {
    let mut world = World::new(700, 800);
    assert_eq!(world.metadata.lifes, 3);
    assert_eq!(world.life_icons.len(), 3);
    let keys = KeyState { up: false, down: false, left: false, right: false };
    let out = world.tick(keys, 500);
    assert_eq!(out.spawned_enemy_texture, None);
    assert_eq!(out.spawned_bonus_texture, None);
    assert!(world.ufos.is_empty());
    let out = world.tick(keys, 500);
    assert_eq!(out.spawned_enemy_texture, Some(0));
    assert_eq!(out.spawned_bonus_texture, None);
    assert_eq!(world.ufos.len(), 1);
    assert_eq!(world.ufos[0].translation.y, world.boundary.y_max - world.ufos[0].ufo.fall_speed / 2);
    let out = world.tick(keys, 1000);
    assert_eq!(out.spawned_enemy_texture, Some(0));
    assert_eq!(out.spawned_bonus_texture, Some(0));
    assert_eq!(world.now_ms, 2000);
}

#[test]
fn world_lives_never_increase() {
    let mut world = World::new(700, 800);
    let keys = KeyState { up: true, down: false, left: false, right: true };
    let mut last = world.metadata.lifes;
    for _ in 0..40 {
        world.tick(keys, 137);
        assert!(world.metadata.lifes <= last);
        assert_eq!(world.life_icons.len(), world.metadata.lifes as usize);
        last = world.metadata.lifes;
        let t = world.character_translation;
        assert!(world.boundary.x_min <= t.x && t.x <= world.boundary.x_max);
        assert!(world.boundary.y_min <= t.y && t.y <= world.boundary.y_max);
    }
}
