use n64_game::controllers::{Controllers, UP_BUTTON};
use n64_game::entity::EntitySystem;
use n64_game::player::{Player, Steering, SHIP_SHOOT_DELAY_MS, START_HEALTH};
use n64_game::ticks::{get_tick_rate, get_ticks_us};

fn player() -> Player {
    Player::new(EntitySystem::new().create_entity())
}

#[test]
fn new_player_has_full_health_and_no_score() {
    let mut es = EntitySystem::new();
    let owned = es.create_entity();
    let e = owned.entity();
    let p = Player::new(owned);
    assert_eq!(p.health(), 500);
    assert_eq!(START_HEALTH, 500);
    assert_eq!(p.score(), 0);
    assert!(!p.is_dead());
    assert_eq!(p.entity(), e);
    assert_eq!(p.into_entity().entity(), e);
}

#[test]
fn damage_takes_health_down_to_zero_at_most() {
    let mut p = player();
    p.damage(120);
    assert_eq!(p.health(), 380);
    assert!(!p.is_dead());
    p.damage(380);
    assert_eq!(p.health(), 0);
    assert!(p.is_dead());
    p.damage(50);
    assert_eq!(p.health(), 0);
}

#[test]
fn damage_beyond_health_stops_at_zero() {
    let mut p = player();
    p.damage(501);
    assert_eq!(p.health(), 0);
    assert!(p.is_dead());
}

#[test]
fn negative_damage_heals() {
    let mut p = player();
    p.damage(-20);
    assert_eq!(p.health(), 520);
}

#[test]
fn add_score_sums_up() {
    let mut p = player();
    p.add_score(10);
    p.add_score(25);
    assert_eq!(p.score(), 35);
    p.add_score(-5);
    assert_eq!(p.score(), 30);
    assert_eq!(p.health(), 500);
}

#[test]
fn stick_inside_dead_zone_does_not_steer() {
    let mut p = player();
    assert_eq!(p.update(0, 32, -32, false), Steering { x: 0, y: 0, shoot: false });
    assert_eq!(p.update(0, 0, 0, false), Steering { x: 0, y: 0, shoot: false });
}

#[test]
fn stick_outside_dead_zone_steers() {
    let mut p = player();
    assert_eq!(p.update(0, 33, 33, false), Steering { x: 1, y: -1, shoot: false });
    assert_eq!(p.update(0, -33, -33, false), Steering { x: -1, y: 1, shoot: false });
    assert_eq!(p.update(0, 127, -128, false), Steering { x: 1, y: 1, shoot: false });
}

#[test]
fn ship_fires_only_after_the_delay() {
    let mut p = player();
    assert_eq!(SHIP_SHOOT_DELAY_MS, 150);
    assert!(!p.update(150_000, 0, 0, true).shoot);
    assert!(p.update(150_001, 0, 0, true).shoot);
    assert!(!p.update(150_002, 0, 0, true).shoot);
    assert!(!p.update(300_001, 0, 0, true).shoot);
    assert!(!p.update(400_000, 0, 0, false).shoot);
    assert!(p.update(400_000, 0, 0, true).shoot);
    assert!(!p.update(400_000, 0, 0, true).shoot);
}

#[test]
fn new_controllers_have_nothing_pressed() {
    let c = Controllers::new();
    assert_eq!(c.data, [0u64; 8]);
    assert!(!c.up_pressed());
    assert!(!c.down_pressed());
    assert!(!c.left_pressed());
    assert!(!c.right_pressed());
}

#[test]
fn up_is_read_from_its_bit_of_the_first_word() {
    let mut c = Controllers::new();
    c.update([UP_BUTTON, 0, 0, 0, 0, 0, 0, 0]);
    assert!(c.up_pressed());
    c.update([0x0800_0000_0000_0000, 0, 0, 0, 0, 0, 0, 0]);
    assert!(c.up_pressed());
    c.update([!UP_BUTTON, 0, 0, 0, 0, 0, 0, 0]);
    assert!(!c.up_pressed());
    c.update([0, UP_BUTTON, 0, 0, 0, 0, 0, 0]);
    assert!(!c.up_pressed());
    c.update([0x0000_0000_0800_0000, 0, 0, 0, 0, 0, 0, 0]);
    assert!(!c.up_pressed());
}

#[test]
fn other_directions_are_never_pressed() {
    let mut c = Controllers::new();
    c.update([u64::MAX; 8]);
    assert!(c.up_pressed());
    assert!(!c.down_pressed());
    assert!(!c.left_pressed());
    assert!(!c.right_pressed());
}

#[test]
fn tick_rate_is_half_the_clock() {
    assert_eq!(get_tick_rate(), 46_875_000);
}

#[test]
fn ticks_become_microseconds() {
    assert_eq!(get_ticks_us(0), 0);
    assert_eq!(get_ticks_us(45), 0);
    assert_eq!(get_ticks_us(46), 1);
    assert_eq!(get_ticks_us(46_000_000), 1_000_000);
    assert_eq!(get_ticks_us(u32::MAX), 93_368_854);
}
