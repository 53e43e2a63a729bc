use undertale_proto::player::{movement, Player, MAX_COOLDOWN, PLAYER_SPEED};
use undertale_proto::save::{decode_save, parse_stat, SaveError};
use undertale_proto::tear::{tear_movement_system, tear_spawn_system, Tear, TEAR_DELAY, TEAR_SPEED};
use undertale_proto::units::{Keys, Vec2, DIRECTION_SCALE, SECOND, UNIT, X_BOUND, Y_BOUND};
use undertale_proto::world::{FrameInput, World};

/// One sixtieth of a second, in nanoseconds.
const FRAME: u32 = 16_666_667;
/// One second, in nanoseconds.
const ONE_SECOND: u32 = SECOND as u32;

fn keys(up: bool, down: bool, left: bool, right: bool) -> Keys {
    Keys { up, down, left, right }
}

fn player() -> Player {
    Player::new(String::from("Frisk"), 1, 20)
}

fn per_frame(speed: i64, dt: u32) -> i64 {
    speed * dt as i64 * UNIT / SECOND as i64
}

#[test]
fn left_edge_blocks_leftward_input() {
    let mut p = player();
    p.position = Vec2::new(-X_BOUND, 0);
    let applied = movement(&mut p, &keys(false, false, true, false), FRAME);
    assert_eq!(p.position.x, -X_BOUND);
    assert_eq!(applied.x, 0);
    assert_eq!(p.direction, Vec2::new(-1, 0));
}

#[test]
fn left_edge_allows_rightward_input() {
    let mut p = player();
    p.position = Vec2::new(-X_BOUND, 0);
    movement(&mut p, &keys(false, false, false, true), FRAME);
    assert_eq!(p.position.x, -X_BOUND + per_frame(PLAYER_SPEED as i64, FRAME));
}

#[test]
fn other_edges_clamp_symmetrically() {
    let mut p = player();
    p.position = Vec2::new(X_BOUND, Y_BOUND);
    movement(&mut p, &keys(true, false, false, true), FRAME);
    assert_eq!(p.position, Vec2::new(X_BOUND, Y_BOUND));
    p.position = Vec2::new(0, -Y_BOUND);
    movement(&mut p, &keys(false, true, false, false), FRAME);
    assert_eq!(p.position, Vec2::new(0, -Y_BOUND));
    movement(&mut p, &keys(true, false, false, false), FRAME);
    assert_eq!(p.position, Vec2::new(0, -Y_BOUND + per_frame(100, FRAME)));
}

#[test]
fn beyond_edge_still_moves_inward() {
    let mut p = player();
    p.position = Vec2::new(X_BOUND + 5 * UNIT, 0);
    movement(&mut p, &keys(false, false, true, false), ONE_SECOND);
    assert_eq!(p.position.x, X_BOUND + 5 * UNIT - 100 * UNIT);
}

#[test]
fn diagonal_movement_is_not_normalised() {
    let mut p = player();
    let applied = movement(&mut p, &keys(true, false, false, true), ONE_SECOND);
    assert_eq!(p.direction, Vec2::new(1, 1));
    assert_eq!(p.position, Vec2::new(100 * UNIT, 100 * UNIT));
    assert_eq!(applied, Vec2::new(100 * UNIT, 100 * UNIT));
}

#[test]
fn opposite_keys_cancel_and_idle_resets_direction() {
    let mut p = player();
    movement(&mut p, &keys(true, true, false, false), FRAME);
    assert_eq!(p.direction, Vec2::new(0, 0));
    assert_eq!(p.position, Vec2::new(0, 0));
    movement(&mut p, &keys(false, false, false, true), FRAME);
    assert_eq!(p.direction, Vec2::new(1, 0));
    movement(&mut p, &Keys::none(), FRAME);
    assert_eq!(p.direction, Vec2::new(0, 0));
}

#[test]
fn cooldown_runs_down_and_stays_in_range() {
    let mut p = player();
    p.tear_cooldown = TEAR_DELAY;
    let r = tear_spawn_system(&mut p, &Keys::none(), FRAME);
    assert!(r.is_none());
    assert_eq!(p.tear_cooldown, TEAR_DELAY - FRAME as u64);
    let r = tear_spawn_system(&mut p, &Keys::none(), ONE_SECOND);
    assert!(r.is_none());
    assert_eq!(p.tear_cooldown, 0);
    p.tear_cooldown = MAX_COOLDOWN;
    tear_spawn_system(&mut p, &Keys::none(), 0);
    assert_eq!(p.tear_cooldown, MAX_COOLDOWN);
}

#[test]
fn cooldown_blocks_spawn() {
    let mut p = player();
    p.tear_cooldown = 1;
    let r = tear_spawn_system(&mut p, &keys(true, false, true, false), FRAME);
    assert!(r.is_none());
    assert_eq!(p.tear_cooldown, 0);
    let r = tear_spawn_system(&mut p, &keys(true, false, true, false), FRAME);
    assert!(r.is_some());
}

#[test]
fn spawn_resets_cooldown() {
    let mut p = player();
    let r = tear_spawn_system(&mut p, &keys(false, true, false, false), FRAME);
    assert_eq!(r, Some(Tear { direction: Vec2::new(0, -DIRECTION_SCALE), position: Vec2::new(0, 0) }));
    assert_eq!(p.tear_cooldown, TEAR_DELAY);
    assert_eq!(TEAR_DELAY, SECOND / 5);
}

#[test]
fn zero_direction_fires_nothing() {
    let mut p = player();
    assert!(tear_spawn_system(&mut p, &Keys::none(), FRAME).is_none());
    assert_eq!(p.tear_cooldown, 0);
    // aiming left while walking right leaves half a unit to the left
    p.direction = Vec2::new(1, 0);
    let r = tear_spawn_system(&mut p, &keys(false, false, true, false), FRAME);
    assert_eq!(r.map(|t| t.direction), Some(Vec2::new(-1, 0)));
}

#[test]
fn movement_bias_without_aim_key_fires_nothing() {
    let mut p = player();
    p.direction = Vec2::new(1, 1);
    assert!(tear_spawn_system(&mut p, &Keys::none(), FRAME).is_none());
}

#[test]
fn player_direction_biases_tear() {
    let mut p = player();
    p.direction = Vec2::new(1, -1);
    p.position = Vec2::new(7, 9);
    let r = tear_spawn_system(&mut p, &keys(true, false, false, true), FRAME).unwrap();
    assert_eq!(r.direction, Vec2::new(3, 1));
    assert_eq!(r.position, Vec2::new(7, 9));
}

#[test]
fn projectile_advances_along_x() {
    let mut tears = vec![Tear { direction: Vec2::new(DIRECTION_SCALE, 0), position: Vec2::new(3, 4) }];
    for k in 1..=5i64 {
        tear_movement_system(&mut tears, FRAME);
        assert_eq!(tears[0].position, Vec2::new(3 + k * per_frame(TEAR_SPEED, FRAME), 4));
        assert_eq!(tears[0].direction, Vec2::new(DIRECTION_SCALE, 0));
    }
}

#[test]
fn projectile_over_uneven_frames() {
    let mut tears = vec![Tear { direction: Vec2::new(DIRECTION_SCALE, 0), position: Vec2::new(-7, 11) }];
    let mut x = -7;
    for dt in [1_000u32, FRAME, 0, 2 * FRAME, 1] {
        tear_movement_system(&mut tears, dt);
        x += per_frame(TEAR_SPEED, dt);
        assert_eq!(tears[0].position, Vec2::new(x, 11));
    }
    assert_eq!(x, -7 + 200 * (1_000 + 3 * FRAME as i64 + 1));
}

#[test]
fn projectile_with_biased_direction() {
    let mut tears = vec![
        Tear { direction: Vec2::new(3, -1), position: Vec2::new(0, 0) },
        Tear { direction: Vec2::new(0, 0), position: Vec2::new(1, 1) },
    ];
    tear_movement_system(&mut tears, ONE_SECOND);
    assert_eq!(tears[0].position, Vec2::new(300 * UNIT, -100 * UNIT));
    assert_eq!(tears[1].position, Vec2::new(1, 1));
}

#[test]
fn projectile_position_saturates() {
    let mut tears = vec![Tear { direction: Vec2::new(DIRECTION_SCALE, -DIRECTION_SCALE), position: Vec2::new(i64::MAX - 5, i64::MIN + 5) }];
    tear_movement_system(&mut tears, ONE_SECOND);
    assert_eq!(tears[0].position, Vec2::new(i64::MAX, i64::MIN));
}

#[test]
fn walking_up_for_one_second() {
    let p = Player::from_save("Frisk\n1\n20").unwrap();
    assert_eq!(p.name, "Frisk");
    assert_eq!(p.level, 1);
    assert_eq!(p.health, 20);
    let mut world = World::new(p);
    let input = FrameInput { dt: FRAME, movement: keys(true, false, false, false), aim: Keys::none() };
    for _ in 0..60 {
        assert!(world.frame(&input).is_none());
    }
    let y = world.player.position.y;
    assert!((y - 100 * UNIT).abs() <= UNIT / 1000);
    assert_eq!(y, 60 * per_frame(100, FRAME));
    assert_eq!(world.player.position.x, 0);
    assert!(world.tears.is_empty());
}

#[test]
fn aiming_right_from_rest() {
    let mut world = World::new(player());
    let input = FrameInput { dt: FRAME, movement: Keys::none(), aim: keys(false, false, false, true) };
    let fired = world.frame(&input);
    let expected = Tear { direction: Vec2::new(DIRECTION_SCALE, 0), position: Vec2::new(0, 0) };
    assert_eq!(fired, Some(expected));
    assert_eq!(world.tears, vec![expected]);
    assert_eq!(world.player.tear_cooldown, SECOND / 5);
    // the next frame is gated and moves the tear
    assert!(world.frame(&input).is_none());
    assert_eq!(world.tears.len(), 1);
    assert_eq!(world.tears[0].position, Vec2::new(per_frame(TEAR_SPEED, FRAME), 0));
    assert_eq!(world.player.tear_cooldown, SECOND / 5 - FRAME as u64);
}

#[test]
fn firing_again_after_cooldown() {
    let mut world = World::new(player());
    let input = FrameInput { dt: 50_000_000, movement: Keys::none(), aim: keys(true, false, false, false) };
    let mut shots = 0;
    for _ in 0..10 {
        if world.frame(&input).is_some() {
            shots += 1;
        }
    }
    // one shot, four frames of cooldown, a shot on the sixth frame
    assert_eq!(shots, 2);
    assert_eq!(world.tears.len(), 2);
}

#[test]
fn save_lines_split() {
    assert_eq!(decode_save("a\r\nb\n\nc"), vec!["a", "b", "", "c"]);
    assert_eq!(decode_save("x\n"), vec!["x"]);
    assert_eq!(decode_save("x\r"), vec!["x\r"]);
    assert!(decode_save("").is_empty());
    assert_eq!(decode_save("\n"), vec![""]);
}

#[test]
fn stat_parsing() {
    assert_eq!(parse_stat("42"), Some(42));
    assert_eq!(parse_stat("-7"), Some(-7));
    assert_eq!(parse_stat("+3"), Some(3));
    assert_eq!(parse_stat("007"), Some(7));
    assert_eq!(parse_stat("2147483647"), Some(i32::MAX));
    assert_eq!(parse_stat("-2147483648"), Some(i32::MIN));
    assert_eq!(parse_stat("2147483648"), None);
    assert_eq!(parse_stat("99999999999999999999"), None);
    assert_eq!(parse_stat(""), None);
    assert_eq!(parse_stat("-"), None);
    assert_eq!(parse_stat("1a"), None);
    assert_eq!(parse_stat(" 1"), None);
}

#[test]
fn save_errors() {
    assert_eq!(Player::from_save("Frisk\n1").unwrap_err(), SaveError::MissingLine);
    assert_eq!(Player::from_save("").unwrap_err(), SaveError::MissingLine);
    assert_eq!(Player::from_save("Frisk\none\n20").unwrap_err(), SaveError::BadLevel);
    assert_eq!(Player::from_save("Frisk\n1\n20 ").unwrap_err(), SaveError::BadHealth);
    let p = Player::from_save("Chara\r\n-3\r\n+9\r\nextra").unwrap();
    assert_eq!((p.name.as_str(), p.level, p.health), ("Chara", -3, 9));
    assert_eq!(p.speed, PLAYER_SPEED);
    assert_eq!(p.tear_cooldown, 0);
}
