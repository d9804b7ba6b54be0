use star_journey::asteroids::{
    plan_wave, roll_asteroid_picture, roll_wave, AsteroidSize, WaveRolls, LANES,
};
use star_journey::audio::{PlaySfxEvent, SoundEffect};
use star_journey::combat::{
    collide_with_asteroids, explosion_step, resolve_projectile_hits, shield_sprite_after,
    ContactOutcome, ProjectileHit,
};
use star_journey::game::{
    fire_step, movement_intent, shield_regen, stat_rows, thruster_for, GameStats, Player,
    ShieldSprite, StatKind, Thruster, MAX_SHIELD,
};

#[test]
fn new_ship() {
    let p = Player::new();
    assert!(p.can_shoot);
    assert_eq!(p.shield, MAX_SHIELD);
}

#[test]
fn gun_fires_once_then_reloads() {
    let mut p = Player::new();
    let mut s = GameStats::new();
    assert_eq!(
        fire_step(&mut p, &mut s, false, true),
        Some(PlaySfxEvent { sfx: SoundEffect::Shoot })
    );
    assert!(!p.can_shoot);
    assert_eq!(s.shots_fired, 1);
    assert_eq!(fire_step(&mut p, &mut s, false, true), None);
    assert_eq!(s.shots_fired, 1);
    assert_eq!(fire_step(&mut p, &mut s, true, false), None);
    assert!(p.can_shoot);
    assert!(fire_step(&mut p, &mut s, false, true).is_some());
    assert_eq!(s.shots_fired, 2);
}

#[test]
fn reload_and_shot_in_the_same_frame() {
    let mut p = Player { can_shoot: false, shield: 2 };
    let mut s = GameStats::new();
    assert!(fire_step(&mut p, &mut s, true, true).is_some());
    assert!(!p.can_shoot);
}

#[test]
fn shield_absorbs_one_hit_per_frame() {
    let mut p = Player::new();
    let out = collide_with_asteroids(&mut p, true, &vec![false, true, true]);
    assert_eq!(
        out,
        vec![
            ContactOutcome::NoContact,
            ContactOutcome::ShieldHit { shield_left: 1 },
            ContactOutcome::NoContact
        ]
    );
    assert_eq!(p.shield, 1);
    assert_eq!(shield_sprite_after(out[1]), Some(ShieldSprite::Low));
}

#[test]
fn no_hit_during_cooldown() {
    let mut p = Player::new();
    let out = collide_with_asteroids(&mut p, false, &vec![true, true]);
    assert_eq!(out, vec![ContactOutcome::NoContact, ContactOutcome::NoContact]);
    assert_eq!(p.shield, 2);
}

#[test]
fn last_shield_point_then_fatal() {
    let mut p = Player { can_shoot: true, shield: 1 };
    let out = collide_with_asteroids(&mut p, true, &vec![true]);
    assert_eq!(out, vec![ContactOutcome::ShieldHit { shield_left: 0 }]);
    assert_eq!(shield_sprite_after(out[0]), Some(ShieldSprite::Empty));
    let out = collide_with_asteroids(&mut p, true, &vec![true, false, true]);
    assert_eq!(
        out,
        vec![ContactOutcome::Fatal, ContactOutcome::NoContact, ContactOutcome::Fatal]
    );
    assert_eq!(p.shield, 0);
    assert_eq!(shield_sprite_after(ContactOutcome::Fatal), None);
    assert_eq!(shield_sprite_after(ContactOutcome::NoContact), None);
}

#[test]
fn shield_regenerates_up_to_full() {
    let mut p = Player { can_shoot: true, shield: 0 };
    assert_eq!(shield_regen(&mut p, false), None);
    assert_eq!(p.shield, 0);
    assert_eq!(shield_regen(&mut p, true), Some(ShieldSprite::Low));
    assert_eq!(p.shield, 1);
    assert_eq!(shield_regen(&mut p, true), Some(ShieldSprite::Full));
    assert_eq!(shield_regen(&mut p, true), Some(ShieldSprite::Full));
    assert_eq!(p.shield, 2);
}

#[test]
fn projectiles_wear_asteroids_down() {
    let mut healths = vec![2u8, 5u8, 1u8];
    let touching = vec![vec![true, false, true], vec![true, true, false]];
    let mut stats = GameStats::new();
    stats.shots_fired = 7;
    let hits = resolve_projectile_hits(&mut healths, &touching, &mut stats);
    assert_eq!(healths, vec![0, 4, 0]);
    assert_eq!(stats.shots_hit, 4);
    assert_eq!(stats.asteroids_destroyed, 2);
    assert_eq!(stats.shots_fired, 7);
    assert_eq!(
        hits,
        vec![
            ProjectileHit { projectile: 0, asteroid: 0, destroyed: false },
            ProjectileHit { projectile: 0, asteroid: 2, destroyed: true },
            ProjectileHit { projectile: 1, asteroid: 0, destroyed: true },
            ProjectileHit { projectile: 1, asteroid: 1, destroyed: false },
        ]
    );
}

#[test]
fn no_projectiles_no_hits() {
    let mut healths = vec![2u8];
    let mut stats = GameStats::new();
    let hits = resolve_projectile_hits(&mut healths, &vec![], &mut stats);
    assert!(hits.is_empty());
    assert_eq!(healths, vec![2]);
    assert_eq!(stats, GameStats::new());
}

#[test]
fn explosion_lasts_eight_frames() {
    let mut frame = 0usize;
    for k in 1..=8usize {
        let (next, gone) = explosion_step(frame);
        assert_eq!(next, k);
        assert_eq!(gone, k == 8);
        frame = next;
    }
}

#[test]
fn asteroid_sizes() {
    assert_eq!(AsteroidSize::Small.pixels(), 32);
    assert_eq!(AsteroidSize::Big.pixels(), 64);
    assert_eq!(AsteroidSize::Small.initial_health(), 2);
    assert_eq!(AsteroidSize::Big.initial_health(), 5);
    let mut seen = [false; 5];
    for _ in 0..200 {
        let i = roll_asteroid_picture();
        assert!(i == 3 || i == 4);
        seen[i as usize] = true;
    }
    assert!(seen[3] && seen[4]);
}

#[test]
fn wave_from_rolls_with_big_asteroid() {
    let rolls = WaveRolls { count: 9, big_roll: 0, big_lane: 4, picks: vec![0, 7, 0, 3, 2, 0, 2] };
    let w = plan_wave(&rolls);
    assert_eq!(w.count, 9);
    assert_eq!(w.big_lane, Some(4));
    // free lanes: 0 1 2 3 5 6 7 8 9
    assert_eq!(w.small_lanes, vec![0, 9, 1, 6, 5, 2, 8]);
}

#[test]
fn wave_from_rolls_without_big_asteroid() {
    let rolls = WaveRolls { count: 7, big_roll: 2, big_lane: 0, picks: vec![9, 0, 0, 0, 0] };
    let w = plan_wave(&rolls);
    assert_eq!(w.big_lane, None);
    assert_eq!(w.small_lanes, vec![9, 0, 1, 2, 3]);
    let rolls = WaveRolls { count: 3, big_roll: 0, big_lane: 0, picks: vec![5, 5, 5] };
    let w = plan_wave(&rolls);
    assert_eq!(w.big_lane, None);
    assert_eq!(w.small_lanes, vec![5, 6, 7]);
}

#[test]
fn rolled_waves_vary() {
    let mut sizes = [false; 10];
    let mut big = false;
    for _ in 0..2000 {
        let w = roll_wave();
        sizes[w.count as usize] = true;
        big |= w.big_lane.is_some();
    }
    assert!((3..=9).all(|c| sizes[c]));
    assert!(big);
}

#[test]
fn rolled_waves_are_sound() {
    for _ in 0..200 {
        let w = roll_wave();
        assert!(w.count >= 3 && w.count <= 9);
        let expected = if w.count > 6 { w.count - 2 } else { w.count };
        assert_eq!(w.small_lanes.len() as u32, expected);
        let mut seen = vec![false; LANES as usize];
        if let Some(b) = w.big_lane {
            assert!(w.count > 6 && b >= 1 && b <= 8);
            seen[b as usize] = true;
        }
        for &l in &w.small_lanes {
            assert!(l < LANES);
            assert!(!seen[l as usize]);
            seen[l as usize] = true;
        }
    }
}

#[test]
fn movement_and_thruster() {
    assert_eq!(movement_intent(true, false, false, true), (1, 1));
    assert_eq!(movement_intent(true, true, true, false), (-1, 0));
    assert_eq!(movement_intent(false, true, false, false), (0, -1));
    assert_eq!(thruster_for(1), Thruster::Fast);
    assert_eq!(thruster_for(-1), Thruster::Slow);
    assert_eq!(thruster_for(0), Thruster::Default);
}

#[test]
fn stats_table() {
    let s = GameStats { asteroids_destroyed: 3, distance_traveled: 0, shots_fired: 10, shots_hit: 6 };
    assert_eq!(
        stat_rows(&s),
        vec![
            (StatKind::DistanceTraveled, 0),
            (StatKind::ShotsFired, 10),
            (StatKind::ShotsHit, 6),
            (StatKind::AsteroidsDestroyed, 3)
        ]
    );
    assert_eq!(StatKind::AsteroidsDestroyed.label(), "ASTEROIDS DESTROYED");
    let mut s = s;
    s.reset();
    assert_eq!(s, GameStats::new());
}
