use rusty_bird::bird::Bird;
use rusty_bird::tuning::{BIRD_START_Y, FLY_AREA, GRAVITY, JUMP};

#[test]
fn bird_no_jump() {
    let mut bird: Bird = Bird::new();
    let mut time: i32 = 0;

    while !bird.dead {
        bird.update();
        time += 1;
    }
    assert_eq!(time, 39);
}

#[test]
fn rusty_bird_test_only_jump() {
    let mut bird: Bird = Bird::new();

    for i in 0..20 {
        bird.update();
        if i % 10 == 0 {
            bird.jump();
        }
    }
    assert_eq!(bird.speed, -9);
    assert_eq!(bird.bird_box.y, 599);
    assert!(!bird.dead);
}

#[test]
fn a_new_bird_rests_in_the_middle() {
    let bird = Bird::new();
    assert_eq!(bird.bird_box.w, 136);
    assert_eq!(bird.bird_box.h, 96);
    assert_eq!(bird.bird_box.x, 240);
    assert_eq!(bird.bird_box.y, 840);
    assert_eq!(bird.bird_box.y * 2, FLY_AREA);
    assert_eq!(bird.speed, 0);
    assert!(!bird.dead);
}

#[test]
fn one_tick_adds_gravity_then_moves() {
    let mut bird = Bird::new();
    bird.update();
    assert_eq!(bird.speed, 1);
    assert_eq!(bird.bird_box.y, 841);
    bird.update();
    assert_eq!(bird.speed, 2);
    assert_eq!(bird.bird_box.y, 843);
    bird.update();
    assert_eq!(bird.speed, 3);
    assert_eq!(bird.bird_box.y, 846);
}

#[test]
fn a_falling_bird_follows_the_triangular_numbers() {
    let mut bird = Bird::new();
    for n in 1..=38i64 {
        bird.update();
        assert_eq!(bird.speed, GRAVITY * n);
        assert_eq!(bird.bird_box.y, BIRD_START_Y + GRAVITY * n * (n + 1) / 2);
        assert!(!bird.dead);
    }
    assert_eq!(bird.bird_box.y, 1581);
}

#[test]
fn the_floor_kills_and_holds_the_bird() {
    let mut bird = Bird::new();
    for _ in 0..39 {
        bird.update();
    }
    assert!(bird.dead);
    assert_eq!(bird.bird_box.y, FLY_AREA);
    assert_eq!(bird.speed, 39);
}

#[test]
fn a_bird_that_ends_exactly_on_the_floor_lives() {
    let mut bird = Bird::new();
    bird.bird_box.y = FLY_AREA - bird.bird_box.h - 1;
    bird.update();
    assert_eq!(bird.bird_box.y + bird.bird_box.h, FLY_AREA);
    assert!(!bird.dead);
    bird.update();
    assert!(bird.dead);
    assert_eq!(bird.bird_box.y, FLY_AREA);
}

#[test]
fn the_ceiling_stops_the_bird_and_does_not_kill_it() {
    let mut bird = Bird::new();
    let mut ticks = 0;
    while bird.bird_box.y > 0 {
        bird.jump();
        bird.update();
        ticks += 1;
        assert!(ticks <= 50);
    }
    assert_eq!(ticks, 50);
    assert_eq!(bird.bird_box.y, 0);
    assert_eq!(bird.speed, -17);
    assert!(!bird.dead);
    bird.jump();
    bird.update();
    assert_eq!(bird.bird_box.y, 0);
    assert!(!bird.dead);
}

#[test]
fn a_jump_sets_the_speed() {
    let mut bird = Bird::new();
    bird.jump();
    assert_eq!(bird.speed, JUMP);
    assert_eq!(bird.speed, -18);
}

#[test]
fn jumps_on_consecutive_ticks_do_not_add_up() {
    let mut bird = Bird::new();
    bird.jump();
    bird.update();
    bird.jump();
    assert_eq!(bird.speed, JUMP);
    bird.jump();
    assert_eq!(bird.speed, JUMP);
}

#[test]
fn a_jump_leaves_position_and_life_alone() {
    let mut bird = Bird::new();
    bird.update();
    let before = bird;
    bird.jump();
    assert_eq!(bird.bird_box, before.bird_box);
    assert_eq!(bird.dead, before.dead);
}

#[test]
fn death_is_not_undone_by_a_tick_or_a_jump() {
    let mut bird = Bird::new();
    for _ in 0..39 {
        bird.update();
    }
    assert!(bird.dead);
    bird.jump();
    assert!(bird.dead);
    bird.update();
    assert!(bird.dead);
}

#[test]
fn reset_revives_the_bird_at_the_start() {
    let mut bird = Bird::new();
    for _ in 0..39 {
        bird.update();
    }
    bird.reset();
    assert_eq!(bird, Bird::new());
}
