use plinko::spawn::{toggle_button, BoundingBox, Spawner, AUTO_SPAWN_X, AUTO_SPAWN_Y, SPAWN_INTERVAL_US};
use plinko::SCREEN_WIDTH;

#[test]
fn box_contains_its_border() {
    let b = BoundingBox { x: 10, y: 20, width: 30, height: 40 };
    assert!(b.contains(10, 20));
    assert!(b.contains(40, 60));
    assert!(b.contains(25, 35));
    assert!(!b.contains(9, 30));
    assert!(!b.contains(41, 30));
    assert!(!b.contains(20, 19));
    assert!(!b.contains(20, 61));
}

#[test]
fn box_at_extremes_does_not_overflow() {
    let b = BoundingBox { x: i32::MAX, y: i32::MAX, width: i32::MAX, height: i32::MAX };
    assert!(b.contains(i32::MAX, i32::MAX));
    assert!(!b.contains(i32::MIN, i32::MAX));
}

#[test]
fn toggle_button_sits_right_of_centre() {
    let b = toggle_button();
    assert_eq!(b, BoundingBox { x: 550, y: 10, width: 200, height: 40 });
    assert_eq!(b.x, SCREEN_WIDTH / 2 + 150);
}

#[test]
fn auto_spawn_point_is_top_centre() {
    assert_eq!(AUTO_SPAWN_X, SCREEN_WIDTH / 2);
    assert_eq!(AUTO_SPAWN_Y, 0);
}

#[test]
fn new_spawner_is_off() {
    let s = Spawner::new();
    assert!(!s.auto_spawn);
    assert_eq!(s.timer_us, 0);
    assert_eq!(s.button_label(), "Auto Spawn: OFF");
}

#[test]
fn click_on_button_toggles() {
    let b = toggle_button();
    let mut s = Spawner::new();
    assert!(!s.click(&b, 600, 30));
    assert!(s.auto_spawn);
    assert_eq!(s.button_label(), "Auto Spawn: ON");
    assert!(!s.click(&b, 550, 10));
    assert!(!s.auto_spawn);
}

#[test]
fn click_elsewhere_spawns_and_keeps_state() {
    let b = toggle_button();
    let mut s = Spawner { auto_spawn: true, timer_us: 1234 };
    assert!(s.click(&b, 100, 100));
    assert_eq!(s, Spawner { auto_spawn: true, timer_us: 1234 });
}

#[test]
fn tick_while_off_changes_nothing() {
    let mut s = Spawner { auto_spawn: false, timer_us: 77 };
    assert!(!s.tick(10_000_000));
    assert_eq!(s, Spawner { auto_spawn: false, timer_us: 77 });
}

#[test]
fn tick_gathers_time_and_drops_at_interval() {
    let mut s = Spawner { auto_spawn: true, timer_us: 0 };
    let frame = 16_667u64;
    let mut drops = 0;
    let mut frames_to_first = 0;
    for i in 1..=60 {
        if s.tick(frame) {
            drops += 1;
            if frames_to_first == 0 {
                frames_to_first = i;
            }
            assert_eq!(s.timer_us, 0);
        } else {
            assert!(s.timer_us < SPAWN_INTERVAL_US);
        }
    }
    // 30 frames of 16667 us make 500010 us, the first to reach half a second.
    assert_eq!(frames_to_first, 30);
    assert_eq!(drops, 2);
}

#[test]
fn tick_drops_exactly_at_interval() {
    let mut s = Spawner { auto_spawn: true, timer_us: 499_999 };
    assert!(s.tick(1));
    assert_eq!(s.timer_us, 0);
    let mut s = Spawner { auto_spawn: true, timer_us: 100 };
    assert!(!s.tick(499_899));
    assert_eq!(s.timer_us, 499_999);
}

#[test]
fn tick_handles_huge_steps() {
    let mut s = Spawner { auto_spawn: true, timer_us: 400_000 };
    assert!(s.tick(u64::MAX));
    assert_eq!(s.timer_us, 0);
    let mut s = Spawner { auto_spawn: true, timer_us: u64::MAX };
    assert!(s.tick(0));
    assert_eq!(s.timer_us, 0);
}
