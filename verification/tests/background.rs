use star_journey::input::{default_bindings, triggers, Action, InputSource, Key, PadButton, StickDirection};
use star_journey::screens::Screen;
use star_journey::stars::{roll_star_picture, star_speed_multiplier, StarPool, StarSpawn, MAX_ACTIVE_STARS};

#[test]
fn pool_reuses_waiting_stars_last_first() {
    let mut pool = StarPool::new();
    pool.add_inactive(11);
    pool.add_inactive(12);
    assert_eq!(pool.next_star(), StarSpawn::Reuse(12));
    assert_eq!(pool.next_star(), StarSpawn::Reuse(11));
    assert_eq!(pool.active_count, 2);
    assert_eq!(pool.next_star(), StarSpawn::New);
    assert_eq!(pool.active_count, 3);
}

#[test]
fn pool_stops_making_new_stars() {
    let mut pool = StarPool::new();
    pool.active_count = MAX_ACTIVE_STARS - 1;
    assert_eq!(pool.next_star(), StarSpawn::New);
    assert_eq!(pool.next_star(), StarSpawn::Skip);
    assert_eq!(pool.active_count, MAX_ACTIVE_STARS);
    pool.add_inactive(5);
    assert_eq!(pool.next_star(), StarSpawn::Reuse(5));
    assert_eq!(pool.active_count, MAX_ACTIVE_STARS + 1);
    assert_eq!(pool.next_star(), StarSpawn::Skip);
}

#[test]
fn splash_pool_of_601_stars() {
    let mut pool = StarPool::new();
    for id in 0..601u64 {
        pool.add_inactive(id);
    }
    for _ in 0..601 {
        assert!(matches!(pool.next_star(), StarSpawn::Reuse(_)));
    }
    assert_eq!(pool.active_count, 601);
    assert_eq!(pool.next_star(), StarSpawn::Skip);
}

#[test]
fn star_pictures_and_speed() {
    let mut seen = [false; 3];
    for _ in 0..200 {
        let p = roll_star_picture();
        assert!(p == 1 || p == 2);
        seen[p as usize] = true;
    }
    assert!(seen[1] && seen[2]);
    assert_eq!(star_speed_multiplier(Screen::Game), 2);
    assert_eq!(star_speed_multiplier(Screen::Title), 1);
    assert_eq!(star_speed_multiplier(Screen::Splash), 1);
}

#[test]
fn controls() {
    let b = default_bindings();
    assert_eq!(b.len(), 24);
    assert_eq!(b[0], (Action::Up, InputSource::LeftStick(StickDirection::Up)));
    assert!(triggers(InputSource::Key(Key::Space), Action::Shoot));
    assert!(triggers(InputSource::Key(Key::Space), Action::Select));
    assert!(triggers(InputSource::Button(PadButton::South), Action::Select));
    assert!(triggers(InputSource::Key(Key::Escape), Action::Pause));
    assert!(triggers(InputSource::Button(PadButton::Start), Action::Pause));
    assert!(!triggers(InputSource::Key(Key::Enter), Action::Shoot));
    assert!(!triggers(InputSource::Key(Key::W), Action::Down));
}

#[test]
fn every_action_on_keyboard_and_gamepad() {
    let b = default_bindings();
    for action in [
        Action::Up,
        Action::Down,
        Action::Left,
        Action::Right,
        Action::Select,
        Action::Shoot,
        Action::Pause,
    ] {
        assert!(b.iter().any(|(a, s)| *a == action && matches!(s, InputSource::Key(_))));
        assert!(b.iter().any(|(a, s)| *a == action && !matches!(s, InputSource::Key(_))));
    }
}
