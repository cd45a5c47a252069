use balance_rider::balance::{
    disrupt_apply, disrupt_tick, Handlebar, Player, BALANCE_BASE, DISRUPT_PERIOD_MS,
    DISRUPT_RANGE, PLAYER_SPEED,
};
use balance_rider::camera::{camera_controls, player_movement, step_along, SteerKeys};
use balance_rider::events::{
    handle_measure_event, handle_measure_events, in_tolerance, Indicator, MeasureEvent,
    MEASURE_STEP,
};
use balance_rider::fixed::{isqrt, map_range};
use balance_rider::game::{apply_move_outcome, GameState};
use balance_rider::path::{move_player, MoveOutcome, PlayerPath, PlayerTransform};
use balance_rider::scene::{Arena, EntityKind};
use balance_rider::timer::RepeatTimer;
use rand_chacha::rand_core::SeedableRng;

fn origin_transform() -> PlayerTransform {
    PlayerTransform { x: 0, y: 0, z: 0, facing_x: 0, facing_z: 1000 }
}

#[test]
fn map_range_centers_zero_draw() {
    assert_eq!(map_range(0, -200, 200, 45_000, 135_000), 90_000);
    assert_eq!(map_range(200, -200, 200, 45_000, 135_000), 135_000);
    assert_eq!(map_range(-200, -200, 200, 45_000, 135_000), 45_000);
    assert_eq!(map_range(100, -200, 200, 45_000, 135_000), 112_500);
}

#[test]
fn isqrt_rounds_down() {
    assert_eq!(isqrt(0), 0);
    assert_eq!(isqrt(1), 1);
    assert_eq!(isqrt(3), 1);
    assert_eq!(isqrt(4), 2);
    assert_eq!(isqrt(2_000_000), 1414);
    assert_eq!(isqrt(u64::MAX), 4_294_967_295);
}

#[test]
fn timer_fires_on_period() {
    let mut t = RepeatTimer::new(5_000);
    assert!(!t.tick(4_999));
    assert!(t.tick(1));
    assert_eq!(t.elapsed_ms, 0);
    assert!(t.tick(12_000));
    assert_eq!(t.elapsed_ms, 2_000);
}

#[test]
fn first_step_moves_toward_first_waypoint() {
    // Waypoints (1, 1) and (2, 3), speed 0.8, one-second frame from the
    // origin: the distance to the target is sqrt(2) > 0.8, so the entity
    // moves 0.8 units toward (1, 1) and keeps its waypoint index.
    let path = PlayerPath { waypoints: vec![(1000, 1000), (2000, 3000)] };
    let mut transform = origin_transform();
    let mut player = Player::new();
    assert_eq!(player.speed, PLAYER_SPEED);
    let outcome = move_player(&path, &mut transform, &mut player, 1_000);
    assert_eq!(outcome, MoveOutcome::Stepped);
    assert_eq!(player.path_index, 0);
    // 800 / sqrt(2) per axis, truncated: 1000 * 800 / 1414.
    assert_eq!(transform.x, 565);
    assert_eq!(transform.z, 565);
    assert_eq!(transform.y, 0);
    assert_eq!(transform.facing_x, 1000 - 565);
    assert_eq!(transform.facing_z, 1000 - 565);
}

#[test]
fn close_waypoint_advances_index() {
    let path = PlayerPath { waypoints: vec![(1000, 1000)] };
    let mut transform = PlayerTransform { x: 900, y: 0, z: 900, facing_x: 0, facing_z: 1000 };
    let mut player = Player::new();
    let outcome = move_player(&path, &mut transform, &mut player, 1_000);
    assert_eq!(outcome, MoveOutcome::WaypointReached);
    assert_eq!(player.path_index, 1);
    assert_eq!(transform.x, 900);
    assert_eq!(transform.z, 900);
}

#[test]
fn finished_path_triggers_game_over_once() {
    let path = PlayerPath { waypoints: vec![(1000, 1000)] };
    let mut transform = PlayerTransform { x: 1000, y: 0, z: 1000, facing_x: 0, facing_z: 1000 };
    let mut player = Player::new();
    // Standing on the only waypoint: the index advances, then the path is
    // complete on every later tick, and the terminal state fires exactly once.
    assert_eq!(move_player(&path, &mut transform, &mut player, 16), MoveOutcome::WaypointReached);
    let mut state = GameState::Gameplay;
    let o1 = move_player(&path, &mut transform, &mut player, 16);
    assert_eq!(o1, MoveOutcome::PathComplete);
    assert!(apply_move_outcome(&mut state, o1));
    assert_eq!(state, GameState::GameOver);
    let o2 = move_player(&path, &mut transform, &mut player, 16);
    assert_eq!(o2, MoveOutcome::PathComplete);
    assert!(!apply_move_outcome(&mut state, o2));
    assert_eq!(state, GameState::GameOver);
    assert_eq!(player.path_index, 1);
}

#[test]
fn default_path_has_nine_waypoints() {
    let path = PlayerPath::default_path();
    assert_eq!(path.waypoints.len(), 9);
    assert_eq!(path.waypoints[0], (1000, 1000));
    assert_eq!(path.waypoints[8], (0, 0));
}

#[test]
fn disruption_remaps_draw_onto_balance_band() {
    let mut player = Player::new();
    let mut handlebar = Handlebar::new();
    disrupt_apply(&mut player, &mut handlebar, 100);
    assert_eq!(player.balance, BALANCE_BASE + 100 * (BALANCE_BASE / 2) / DISRUPT_RANGE);
    assert_eq!(player.balance, 112_500);
    assert_eq!(handlebar.prev_rotation, 100);
    assert_eq!(handlebar.z_rotation, 100);
    disrupt_apply(&mut player, &mut handlebar, -200);
    assert_eq!(player.balance, 45_000);
    assert_eq!(handlebar.z_rotation, -200);
}

#[test]
fn repeated_equal_draw_keeps_net_rotation() {
    let mut player = Player::new();
    let mut handlebar = Handlebar::new();
    disrupt_apply(&mut player, &mut handlebar, 150);
    let rotation_after_first = handlebar.z_rotation;
    disrupt_apply(&mut player, &mut handlebar, 150);
    assert_eq!(handlebar.z_rotation, rotation_after_first);
}

#[test]
fn disrupt_tick_waits_for_timer_and_stays_in_band() {
    let mut player = Player::new();
    let mut handlebar = Handlebar::new();
    let mut rng = rand_chacha::ChaCha8Rng::seed_from_u64(7);
    let balance_before = player.balance;
    assert!(!disrupt_tick(&mut player, &mut handlebar, &mut rng, 1_000));
    assert_eq!(player.balance, balance_before);
    assert_eq!(handlebar.prev_rotation, 0);
    assert!(disrupt_tick(&mut player, &mut handlebar, &mut rng, DISRUPT_PERIOD_MS - 1_000));
    assert!(player.balance >= BALANCE_BASE / 2);
    assert!(player.balance <= BALANCE_BASE + BALANCE_BASE / 2);
    assert!(handlebar.prev_rotation >= -DISRUPT_RANGE);
    assert!(handlebar.prev_rotation < DISRUPT_RANGE);
    assert_eq!(handlebar.z_rotation, handlebar.prev_rotation);
}

#[test]
fn left_then_right_restores_balance_and_indicator() {
    let mut player = Player::new();
    let mut handlebar = Handlebar::new();
    let mut indicator = Indicator::new();
    let balance_before = player.balance;
    let turns_before = indicator.half_turns;
    handle_measure_event(&mut player, &mut handlebar, &mut indicator, MeasureEvent::Left);
    assert_eq!(player.balance, balance_before + MEASURE_STEP);
    assert_eq!(indicator.half_turns, turns_before + 1);
    handle_measure_event(&mut player, &mut handlebar, &mut indicator, MeasureEvent::Right);
    assert_eq!(player.balance, balance_before);
    assert_eq!(indicator.half_turns, turns_before);
}

#[test]
fn centered_balance_resets_handlebar() {
    let mut player = Player::new();
    player.balance = 60_000;
    let mut handlebar = Handlebar { prev_rotation: 150, z_rotation: 150 };
    let mut indicator = Indicator::new();
    // 60 + 30 = 90, inside the tolerance band: the handlebar is undone.
    handle_measure_event(&mut player, &mut handlebar, &mut indicator, MeasureEvent::Left);
    assert!(in_tolerance(player.balance));
    assert_eq!(handlebar.prev_rotation, 0);
    assert_eq!(handlebar.z_rotation, 0);
    // 90 + 30 = 120, outside the band: the handlebar is untouched.
    handle_measure_event(&mut player, &mut handlebar, &mut indicator, MeasureEvent::Left);
    assert_eq!(handlebar.prev_rotation, 0);
    assert_eq!(handlebar.z_rotation, 0);
    assert_eq!(player.balance, 120_000);
}

#[test]
fn event_queue_drains_in_order() {
    let mut player = Player::new();
    let mut handlebar = Handlebar::new();
    let mut indicator = Indicator::new();
    let events = vec![MeasureEvent::Left, MeasureEvent::Left, MeasureEvent::Right];
    handle_measure_events(&mut player, &mut handlebar, &mut indicator, &events);
    assert_eq!(player.balance, BALANCE_BASE + MEASURE_STEP);
    assert_eq!(indicator.half_turns, 1);
}

#[test]
fn player_rig_spawns_nine_children_under_root() {
    let mut arena = Arena::new();
    let player_id = arena.spawn_player_rig();
    assert_eq!(player_id, 0);
    assert_eq!(arena.slots.len(), 9);
    assert_eq!(arena.slots[0].data.kind, EntityKind::PlayerRoot);
    assert_eq!(arena.slots[0].parent, None);
    assert_eq!(arena.slots[1].data.kind, EntityKind::PlayerCam);
    assert_eq!(arena.slots[1].parent, Some(0));
    assert_eq!(arena.slots[2].data.kind, EntityKind::HandlebarSprite);
    assert_eq!(arena.slots[2].data.scale.x, 550);
    for k in 0..4usize {
        let parrot = &arena.slots[3 + k];
        assert_eq!(parrot.parent, Some(2));
        assert_eq!(parrot.data.translation.x, -600 + 400 * k as i64);
        assert_eq!(parrot.data.translation.z, 10 + 10 * k as i64);
    }
    assert_eq!(arena.slots[7].data.kind, EntityKind::DashboardSprite);
    assert_eq!(arena.slots[8].data.kind, EntityKind::IndicatorSprite);
    assert_eq!(arena.slots[8].parent, Some(0));
}

#[test]
fn despawning_player_clears_whole_rig() {
    let mut arena = Arena::new();
    let cam = arena.spawn_camera();
    let player_id = arena.spawn_player_rig();
    arena.despawn_player(player_id);
    assert!(arena.slots[cam].alive);
    for k in 0..9usize {
        assert!(!arena.slots[player_id + k].alive);
    }
}

#[test]
fn basic_scene_parents_tower_model_under_base() {
    let mut arena = Arena::new();
    let base_id = arena.spawn_basic_scene();
    assert_eq!(arena.slots.len(), 6);
    assert_eq!(arena.slots[base_id].data.kind, EntityKind::TowerBase);
    assert_eq!(arena.slots[base_id + 1].data.kind, EntityKind::TowerModel);
    assert_eq!(arena.slots[base_id + 1].parent, Some(base_id));
    let target = &arena.slots[4];
    assert_eq!(target.data.kind, EntityKind::TargetDummy);
    assert_eq!(target.data.target.unwrap().speed, 300);
    assert_eq!(target.data.health.unwrap().value, 3);
    // Despawning the base takes its model with it but leaves the rest.
    arena.despawn_recursive(base_id);
    assert!(!arena.slots[base_id].alive);
    assert!(!arena.slots[base_id + 1].alive);
    assert!(arena.slots[2].alive);
    assert!(arena.slots[3].alive);
}

#[test]
fn camera_pans_and_yaws() {
    let mut pos = balance_rider::scene::Vec3Fx { x: 0, y: 2500, z: 0 };
    let keys = SteerKeys {
        forward: true,
        back: false,
        left: false,
        right: false,
        rotate_left: true,
        rotate_right: false,
    };
    let yaw = camera_controls(&mut pos, (1000, 0), (0, 1000), keys, 1_000);
    assert_eq!(pos.x, 3000);
    assert_eq!(pos.z, 0);
    assert_eq!(pos.y, 2500);
    assert_eq!(yaw, 300);
}

#[test]
fn step_along_scales_to_budget() {
    assert_eq!(step_along(1000, 0, 800), (800, 0));
    assert_eq!(step_along(1000, 1000, 800), (565, 565));
}

#[test]
fn walk_moves_along_summed_directions() {
    let mut transform = origin_transform();
    let keys = SteerKeys {
        forward: true,
        back: false,
        left: true,
        right: false,
        rotate_left: false,
        rotate_right: false,
    };
    let moved = player_movement(&mut transform, (1000, 0), (0, 1000), keys, 3000, 1_000);
    assert!(moved);
    assert_eq!(transform.x, 2121);
    assert_eq!(transform.z, 2121);
    assert_eq!(transform.facing_x, 1000);
    assert_eq!(transform.facing_z, 1000);
    let idle = SteerKeys {
        forward: false,
        back: false,
        left: false,
        right: false,
        rotate_left: false,
        rotate_right: false,
    };
    let moved_idle = player_movement(&mut transform, (1000, 0), (0, 1000), idle, 3000, 1_000);
    assert!(!moved_idle);
    assert_eq!(transform.x, 2121);
}
