use vstd::prelude::*;
use crate::game::{GameStats, Player, MAX_SHIELD, ShieldSprite};

verus! {

/// What one asteroid does to the ship this frame.
#[derive(PartialEq, Eq, Structural, Clone, Copy, Debug, Hash)]
pub enum ContactOutcome {
    /// Not touching, or the ship is still recovering from a hit.
    NoContact,
    /// The shield took the hit and has `shield_left` points left; the
    /// shield's regeneration and hit cooldown timers restart.
    ShieldHit { shield_left: u8 },
    /// The ship had no shield left: the game is over.
    Fatal,
}

/// The state that collisions carry from one asteroid to the next: the
/// shield level and whether the ship can be hit (its hit cooldown has
/// finished).
pub open spec fn contact_step(shield: u8, ready: bool, touching: bool) -> (u8, bool, ContactOutcome) {
    if touching && ready {
        if shield == 0 {
            (shield, ready, ContactOutcome::Fatal)
        } else {
            ((shield - 1) as u8, false, ContactOutcome::ShieldHit { shield_left: (shield - 1) as u8 })
        }
    } else {
        (shield, ready, ContactOutcome::NoContact)
    }
}

/// The shield, readiness and outcomes after the asteroids whose contacts
/// are `touching`, in order.
pub open spec fn contact_run(shield: u8, ready: bool, touching: Seq<bool>) -> (u8, bool, Seq<
    ContactOutcome,
>)
    decreases touching.len(),
{
    if touching.len() == 0 {
        (shield, ready, Seq::empty())
    } else {
        let prev = contact_run(shield, ready, touching.drop_last());
        let step = contact_step(prev.0, prev.1, touching.last());
        (step.0, step.1, prev.2.push(step.2))
    }
}

/// The ship against every asteroid, in order: `touching[i]` says whether
/// asteroid `i` is within reach of the ship's hitbox, and `cooldown_finished`
/// whether the ship could be hit at the start of the frame. An asteroid in
/// reach while the ship can be hit either takes a shield point (and the ship
/// cannot be hit again this frame) or, with no shield left, ends the game.
pub fn collide_with_asteroids(player: &mut Player, cooldown_finished: bool, touching: &Vec<bool>) -> (outcomes:
    Vec<ContactOutcome>)
    ensures
        ({
            let run = contact_run(old(player).shield, cooldown_finished, touching@);
            &&& final(player).shield == run.0
            &&& final(player).can_shoot == old(player).can_shoot
            &&& outcomes@ == run.2
        }),
{
    let mut ready = cooldown_finished;
    let mut outcomes: Vec<ContactOutcome> = Vec::new();
    let n = touching.len();
    let mut i: usize = 0;
    while i < n
        invariant
            n == touching@.len(),
            i <= n,
            (player.shield, ready, outcomes@) == contact_run(
                old(player).shield,
                cooldown_finished,
                touching@.take(i as int),
            ),
            player.can_shoot == old(player).can_shoot,
        decreases n - i,
    {
        assert(touching@.take(i as int + 1).drop_last() == touching@.take(i as int));
        let t = touching[i];
        if t && ready {
            if player.shield == 0 {
                outcomes.push(ContactOutcome::Fatal);
            } else {
                player.shield = player.shield - 1;
                ready = false;
                outcomes.push(ContactOutcome::ShieldHit { shield_left: player.shield });
            }
        } else {
            outcomes.push(ContactOutcome::NoContact);
        }
        i = i + 1;
    }
    assert(touching@.take(n as int) == touching@);
    outcomes
}

/// The shield picture for a shield hit, as the application shows it: the
/// empty and the low shield have one; a hit never leaves a full shield.
pub fn shield_sprite_after(outcome: ContactOutcome) -> (s: Option<ShieldSprite>)
    ensures
        s == (match outcome {
            ContactOutcome::ShieldHit { shield_left } => if shield_left == 0 {
                Some(ShieldSprite::Empty)
            } else if shield_left == 1 {
                Some(ShieldSprite::Low)
            } else {
                None
            },
            _ => None,
        }),
{
    match outcome {
        ContactOutcome::ShieldHit { shield_left } => if shield_left == 0 {
            Some(ShieldSprite::Empty)
        } else if shield_left == 1 {
            Some(ShieldSprite::Low)
        } else {
            None
        },
        _ => None,
    }
}

/// The shield never grows while the ship is hit, and outcomes come one per
/// asteroid.
proof fn lemma_contact_run_shape(shield: u8, ready: bool, touching: Seq<bool>)
    ensures
        contact_run(shield, ready, touching).0 <= shield,
        contact_run(shield, ready, touching).2.len() == touching.len(),
        !ready ==> contact_run(shield, ready, touching).2 == Seq::new(
            touching.len(),
            |i: int| ContactOutcome::NoContact,
        ),
        !ready ==> contact_run(shield, ready, touching).0 == shield,
        !ready ==> !contact_run(shield, ready, touching).1,
    decreases touching.len(),
{
    if touching.len() > 0 {
        lemma_contact_run_shape(shield, ready, touching.drop_last());
    }
}

/// Law: collisions keep the shield within its capacity and never raise it.
pub proof fn lemma_collisions_keep_shield_bounded(shield: u8, ready: bool, touching: Seq<bool>)
    requires
        shield <= MAX_SHIELD,
    ensures
        contact_run(shield, ready, touching).0 <= shield,
        contact_run(shield, ready, touching).0 <= MAX_SHIELD,
{
    lemma_contact_run_shape(shield, ready, touching);
}

/// Law: once a frame's hit has been taken by the shield, no other asteroid
/// touches the ship in that frame: the shield loses at most one point per
/// frame.
pub proof fn lemma_one_shield_hit_per_frame(shield: u8, ready: bool, touching: Seq<bool>, i: int, j: int)
    requires
        0 <= i < j < touching.len(),
        contact_run(shield, ready, touching).2[i] is ShieldHit,
    ensures
        contact_run(shield, ready, touching).2[j] == ContactOutcome::NoContact,
    decreases touching.len(),
{
    lemma_contact_run_shape(shield, ready, touching);
    let prev = touching.drop_last();
    lemma_contact_run_shape(shield, ready, prev);
    if j < touching.len() - 1 {
        lemma_one_shield_hit_per_frame(shield, ready, prev, i, j);
    } else {
        lemma_hit_disarms(shield, ready, prev, i);
    }
}

/// After a shield hit the ship cannot be hit again in the same frame.
proof fn lemma_hit_disarms(shield: u8, ready: bool, touching: Seq<bool>, i: int)
    requires
        0 <= i < touching.len(),
        contact_run(shield, ready, touching).2[i] is ShieldHit,
    ensures
        !contact_run(shield, ready, touching).1,
    decreases touching.len(),
{
    lemma_contact_run_shape(shield, ready, touching);
    let prev = touching.drop_last();
    lemma_contact_run_shape(shield, ready, prev);
    if i < touching.len() - 1 {
        lemma_hit_disarms(shield, ready, prev, i);
    }
}

/// Law: the game is lost only by a ship with no shield left, and then by
/// every asteroid that touches it in that frame.
pub proof fn lemma_fatal_only_without_shield(shield: u8, ready: bool, touching: Seq<bool>, i: int)
    requires
        0 <= i < touching.len(),
        contact_run(shield, ready, touching).2[i] == ContactOutcome::Fatal,
    ensures
        contact_run(shield, ready, touching).0 == 0,
    decreases touching.len(),
{
    lemma_contact_run_shape(shield, ready, touching);
    let prev = touching.drop_last();
    lemma_contact_run_shape(shield, ready, prev);
    if i < touching.len() - 1 {
        lemma_fatal_only_without_shield(shield, ready, prev, i);
        lemma_fatal_keeps_ready(shield, ready, prev, i);
    }
}

/// A fatal hit leaves the ship hittable and its shield empty.
proof fn lemma_fatal_keeps_ready(shield: u8, ready: bool, touching: Seq<bool>, i: int)
    requires
        0 <= i < touching.len(),
        contact_run(shield, ready, touching).2[i] == ContactOutcome::Fatal,
    ensures
        contact_run(shield, ready, touching).1,
        contact_run(shield, ready, touching).0 == 0,
    decreases touching.len(),
{
    lemma_contact_run_shape(shield, ready, touching);
    let prev = touching.drop_last();
    lemma_contact_run_shape(shield, ready, prev);
    if i < touching.len() - 1 {
        lemma_fatal_keeps_ready(shield, ready, prev, i);
    }
}


/// One projectile striking one asteroid.
#[derive(PartialEq, Eq, Structural, Clone, Copy, Debug, Hash)]
pub struct ProjectileHit {
    /// The index of the projectile (it is removed, and an explosion shown).
    pub projectile: usize,
    /// The index of the asteroid.
    pub asteroid: usize,
    /// Whether this hit used up the asteroid's health (it is removed).
    pub destroyed: bool,
}

/// The running account of projectile hits: asteroid healths, the number of
/// hits and of destroyed asteroids, and the hits in the order they happen.
pub struct HitTally {
    pub healths: Seq<int>,
    pub hits: nat,
    pub destroyed: nat,
    pub events: Seq<ProjectileHit>,
}

/// The account before any hit, for asteroids of health `healths`.
pub open spec fn tally_start(healths: Seq<u8>) -> HitTally {
    HitTally {
        healths: healths.map_values(|h: u8| h as int),
        hits: 0,
        destroyed: 0,
        events: Seq::empty(),
    }
}

/// Projectile `p` against asteroid `a`: if they touch, the asteroid loses a
/// point of health, the hit is counted, and the asteroid is destroyed when
/// its health reaches zero.
pub open spec fn hit_one(t: HitTally, p: nat, a: nat, touching: bool) -> HitTally {
    if !touching {
        t
    } else {
        let h = t.healths[a as int] - 1;
        HitTally {
            healths: t.healths.update(a as int, h),
            hits: t.hits + 1,
            destroyed: if h == 0 {
                t.destroyed + 1
            } else {
                t.destroyed
            },
            events: t.events.push(
                ProjectileHit { projectile: p as usize, asteroid: a as usize, destroyed: h == 0 },
            ),
        }
    }
}

/// Projectile `p` against the first `k` asteroids, in order.
pub open spec fn hit_row(t: HitTally, p: nat, row: Seq<bool>, k: nat) -> HitTally
    decreases k,
{
    if k == 0 {
        t
    } else {
        hit_one(hit_row(t, p, row, (k - 1) as nat), p, (k - 1) as nat, row[k - 1])
    }
}

/// The first `m` projectiles, in order, each against all `n` asteroids.
pub open spec fn hit_rows(t: HitTally, rows: Seq<Seq<bool>>, m: nat, n: nat) -> HitTally
    decreases m,
{
    if m == 0 {
        t
    } else {
        hit_row(hit_rows(t, rows, (m - 1) as nat, n), (m - 1) as nat, rows[m - 1], n)
    }
}

/// How many of the first `m` projectiles touch asteroid `a`.
pub open spec fn contacts_on(rows: Seq<Seq<bool>>, m: nat, a: int) -> nat
    decreases m,
{
    if m == 0 {
        0
    } else {
        contacts_on(rows, (m - 1) as nat, a) + if rows[m - 1][a] {
            1nat
        } else {
            0nat
        }
    }
}

/// The count of destroying hits among `events`.
pub open spec fn destroying_hits(events: Seq<ProjectileHit>) -> nat
    decreases events.len(),
{
    if events.len() == 0 {
        0
    } else {
        destroying_hits(events.drop_last()) + if events.last().destroyed {
            1nat
        } else {
            0nat
        }
    }
}

/// The account keeps its shape: one health per asteroid, one event per hit,
/// and destroyed counts the destroying events.
pub open spec fn tally_consistent(t: HitTally, n: nat) -> bool {
    &&& t.healths.len() == n
    &&& t.events.len() == t.hits
    &&& destroying_hits(t.events) == t.destroyed
}

proof fn lemma_hit_row_effect(t: HitTally, p: nat, row: Seq<bool>, k: nat, n: nat)
    requires
        k <= n,
        row.len() == n,
        tally_consistent(t, n),
    ensures
        tally_consistent(hit_row(t, p, row, k), n),
        hit_row(t, p, row, k).hits >= t.hits,
        hit_row(t, p, row, k).destroyed >= t.destroyed,
        forall|b: int|
            0 <= b < n ==> #[trigger] hit_row(t, p, row, k).healths[b] == t.healths[b] - (if b
                < k && row[b] {
                1int
            } else {
                0int
            }),
    decreases k,
{
    if k > 0 {
        lemma_hit_row_effect(t, p, row, (k - 1) as nat, n);
        let prev = hit_row(t, p, row, (k - 1) as nat);
        let next = hit_one(prev, p, (k - 1) as nat, row[k - 1]);
        if row[k - 1] {
            assert(next.events.drop_last() == prev.events);
        }
    }
}

proof fn lemma_hit_rows_effect(t: HitTally, rows: Seq<Seq<bool>>, m: nat, n: nat)
    requires
        m <= rows.len(),
        forall|q: int| 0 <= q < rows.len() ==> (#[trigger] rows[q]).len() == n,
        tally_consistent(t, n),
    ensures
        tally_consistent(hit_rows(t, rows, m, n), n),
        hit_rows(t, rows, m, n).hits >= t.hits,
        hit_rows(t, rows, m, n).destroyed >= t.destroyed,
        forall|a: int|
            0 <= a < n ==> #[trigger] hit_rows(t, rows, m, n).healths[a] == t.healths[a]
                - contacts_on(rows, m, a),
    decreases m,
{
    if m > 0 {
        lemma_hit_rows_effect(t, rows, (m - 1) as nat, n);
        lemma_hit_row_effect(hit_rows(t, rows, (m - 1) as nat, n), (m - 1) as nat, rows[m - 1], n, n);
    }
}

/// Later states of the account have at least the hits and destructions of
/// earlier ones.
proof fn lemma_hit_rows_monotone(t: HitTally, rows: Seq<Seq<bool>>, m1: nat, m2: nat, n: nat)
    requires
        m1 <= m2 <= rows.len(),
        forall|q: int| 0 <= q < rows.len() ==> (#[trigger] rows[q]).len() == n,
        tally_consistent(t, n),
    ensures
        hit_rows(t, rows, m1, n).hits <= hit_rows(t, rows, m2, n).hits,
        hit_rows(t, rows, m1, n).destroyed <= hit_rows(t, rows, m2, n).destroyed,
    decreases m2,
{
    if m1 < m2 {
        lemma_hit_rows_monotone(t, rows, m1, (m2 - 1) as nat, n);
        lemma_hit_rows_effect(t, rows, (m2 - 1) as nat, n);
        lemma_hit_row_effect(
            hit_rows(t, rows, (m2 - 1) as nat, n),
            (m2 - 1) as nat,
            rows[m2 - 1],
            n,
            n,
        );
    }
}

proof fn lemma_row_then_rest(t: HitTally, rows: Seq<Seq<bool>>, p: nat, k: nat, n: nat)
    requires
        p < rows.len(),
        k <= n,
        forall|q: int| 0 <= q < rows.len() ==> (#[trigger] rows[q]).len() == n,
        tally_consistent(t, n),
    ensures
        hit_row(hit_rows(t, rows, p, n), p, rows[p as int], k).hits <= hit_rows(
            t,
            rows,
            rows.len(),
            n,
        ).hits,
        hit_row(hit_rows(t, rows, p, n), p, rows[p as int], k).destroyed <= hit_rows(
            t,
            rows,
            rows.len(),
            n,
        ).destroyed,
    decreases n - k,
{
    lemma_hit_rows_effect(t, rows, p, n);
    if k < n {
        lemma_row_then_rest(t, rows, p, k + 1, n);
        lemma_hit_row_effect(hit_rows(t, rows, p, n), p, rows[p as int], k, n);
    } else {
        lemma_hit_rows_monotone(t, rows, p + 1, rows.len(), n);
    }
}

/// The contacts of the first `m` projectiles with an asteroid never exceed
/// those of all of them.
proof fn lemma_contacts_monotone(rows: Seq<Seq<bool>>, m1: nat, m2: nat, a: int)
    requires
        m1 <= m2,
    ensures
        contacts_on(rows, m1, a) <= contacts_on(rows, m2, a),
    decreases m2,
{
    if m1 < m2 {
        lemma_contacts_monotone(rows, m1, (m2 - 1) as nat, a);
    }
}

/// Every projectile against every asteroid, in order: `touching[p][a]` says
/// whether projectile `p` is within reach of asteroid `a`. Each contact
/// costs the asteroid a point of health and counts as a hit; an asteroid
/// whose health reaches zero is destroyed and counted. The hits are
/// returned in order, for the application to remove projectiles and
/// destroyed asteroids and to show explosions.
pub fn resolve_projectile_hits(
    healths: &mut Vec<u8>,
    touching: &Vec<Vec<bool>>,
    stats: &mut GameStats,
) -> (hits: Vec<ProjectileHit>)
    requires
        forall|q: int|
            0 <= q < touching@.len() ==> (#[trigger] touching@[q])@.len() == old(healths)@.len(),
        forall|a: int|
            0 <= a < old(healths)@.len() ==> contacts_on(
                touching@.map_values(|r: Vec<bool>| r@),
                touching@.len(),
                a,
            ) <= #[trigger] old(healths)@[a],
        old(stats).shots_hit + hit_rows(
            tally_start(old(healths)@),
            touching@.map_values(|r: Vec<bool>| r@),
            touching@.len(),
            old(healths)@.len(),
        ).hits <= u32::MAX,
        old(stats).asteroids_destroyed + hit_rows(
            tally_start(old(healths)@),
            touching@.map_values(|r: Vec<bool>| r@),
            touching@.len(),
            old(healths)@.len(),
        ).destroyed <= u32::MAX,
    ensures
        ({
            let t = hit_rows(
                tally_start(old(healths)@),
                touching@.map_values(|r: Vec<bool>| r@),
                touching@.len(),
                old(healths)@.len(),
            );
            &&& final(healths)@.map_values(|h: u8| h as int) == t.healths
            &&& hits@ == t.events
            &&& *final(stats) == (GameStats {
                shots_hit: (old(stats).shots_hit + t.hits) as u32,
                asteroids_destroyed: (old(stats).asteroids_destroyed + t.destroyed) as u32,
                ..*old(stats)
            })
        }),
{
    let ghost rows = touching@.map_values(|r: Vec<bool>| r@);
    let ghost n = healths@.len();
    let ghost start = tally_start(healths@);
    let ghost h0 = healths@;
    let ghost s0 = *stats;
    proof {
        assert(destroying_hits(start.events) == 0);
        assert forall|q: int| 0 <= q < rows.len() implies (#[trigger] rows[q]).len() == n by {
            assert(rows[q] == touching@[q]@);
        }
    }
    let mut hits: Vec<ProjectileHit> = Vec::new();
    let m = touching.len();
    let na = healths.len();
    let mut p: usize = 0;
    while p < m
        invariant
            m == touching@.len(),
            rows == touching@.map_values(|r: Vec<bool>| r@),
            na == n,
            n == h0.len(),
            start == tally_start(h0),
            p <= m,
            forall|q: int| 0 <= q < rows.len() ==> (#[trigger] rows[q]).len() == n,
            forall|a: int| 0 <= a < n ==> contacts_on(rows, m as nat, a) <= #[trigger] h0[a],
            s0.shots_hit + hit_rows(start, rows, m as nat, n).hits <= u32::MAX,
            s0.asteroids_destroyed + hit_rows(start, rows, m as nat, n).destroyed <= u32::MAX,
            healths@.map_values(|h: u8| h as int) == hit_rows(start, rows, p as nat, n).healths,
            hits@ == hit_rows(start, rows, p as nat, n).events,
            *stats == (GameStats {
                shots_hit: (s0.shots_hit + hit_rows(start, rows, p as nat, n).hits) as u32,
                asteroids_destroyed: (s0.asteroids_destroyed + hit_rows(
                    start,
                    rows,
                    p as nat,
                    n,
                ).destroyed) as u32,
                ..s0
            }),
        decreases m - p,
    {
        let row = &touching[p];
        let ghost before = hit_rows(start, rows, p as nat, n);
        proof {
            assert(rows[p as int] == row@);
            lemma_hit_rows_effect(start, rows, p as nat, n);
            lemma_hit_rows_monotone(start, rows, p as nat, m as nat, n);
        }
        let mut a: usize = 0;
        while a < na
            invariant
                m == touching@.len(),
                rows == touching@.map_values(|r: Vec<bool>| r@),
                na == n,
                n == h0.len(),
                start == tally_start(h0),
                p < m,
                a <= na,
                row@ == rows[p as int],
                row@.len() == n,
                before == hit_rows(start, rows, p as nat, n),
                tally_consistent(before, n),
                forall|q: int| 0 <= q < rows.len() ==> (#[trigger] rows[q]).len() == n,
                forall|b: int| 0 <= b < n ==> contacts_on(rows, m as nat, b) <= #[trigger] h0[b],
                forall|b: int|
                    0 <= b < n ==> #[trigger] before.healths[b] == h0[b] - contacts_on(
                        rows,
                        p as nat,
                        b,
                    ),
                s0.shots_hit + hit_rows(start, rows, m as nat, n).hits <= u32::MAX,
                s0.asteroids_destroyed + hit_rows(start, rows, m as nat, n).destroyed <= u32::MAX,
                healths@.map_values(|h: u8| h as int) == hit_row(
                    before,
                    p as nat,
                    row@,
                    a as nat,
                ).healths,
                hits@ == hit_row(before, p as nat, row@, a as nat).events,
                *stats == (GameStats {
                    shots_hit: (s0.shots_hit + hit_row(before, p as nat, row@, a as nat).hits) as u32,
                    asteroids_destroyed: (s0.asteroids_destroyed + hit_row(
                        before,
                        p as nat,
                        row@,
                        a as nat,
                    ).destroyed) as u32,
                    ..s0
                }),
            decreases na - a,
        {
            let ghost cur = hit_row(before, p as nat, row@, a as nat);
            proof {
                lemma_hit_row_effect(before, p as nat, row@, a as nat, n);
                lemma_row_then_rest(start, rows, p as nat, (a + 1) as nat, n);
                lemma_hit_row_effect(before, p as nat, row@, (a + 1) as nat, n);
                assert(healths@.map_values(|h: u8| h as int)[a as int] == healths@[a as int]);
            }
            if row[a] {
                proof {
                    lemma_contacts_monotone(rows, (p + 1) as nat, m as nat, a as int);
                    assert(contacts_on(rows, (p + 1) as nat, a as int) == contacts_on(rows, p as nat, a as int) + 1);
                }
                let h = healths[a] - 1;
                healths.set(a, h);
                stats.shots_hit = stats.shots_hit + 1;
                let destroyed = h == 0;
                if destroyed {
                    stats.asteroids_destroyed = stats.asteroids_destroyed + 1;
                }
                hits.push(ProjectileHit { projectile: p, asteroid: a, destroyed });
                proof {
                    assert(healths@.map_values(|h: u8| h as int) =~= cur.healths.update(
                        a as int,
                        cur.healths[a as int] - 1,
                    ));
                }
            }
            a = a + 1;
        }
        p = p + 1;
    }
    hits
}

/// Law: after a frame of projectile hits, each asteroid has lost one point
/// of health per projectile that touched it; the hits counted are the hits
/// reported, and the destroyed asteroids counted are the destroying hits
/// reported.
pub proof fn lemma_projectile_hits_account(healths: Seq<u8>, rows: Seq<Seq<bool>>)
    requires
        forall|q: int| 0 <= q < rows.len() ==> (#[trigger] rows[q]).len() == healths.len(),
    ensures
        ({
            let t = hit_rows(tally_start(healths), rows, rows.len(), healths.len());
            &&& t.healths.len() == healths.len()
            &&& forall|a: int|
                0 <= a < healths.len() ==> #[trigger] t.healths[a] == healths[a] - contacts_on(
                    rows,
                    rows.len(),
                    a,
                )
            &&& t.events.len() == t.hits
            &&& destroying_hits(t.events) == t.destroyed
        }),
{
    let start = tally_start(healths);
    assert(destroying_hits(start.events) == 0);
    lemma_hit_rows_effect(start, rows, rows.len(), healths.len());
}

/// How many of the first `k` hits struck asteroid `a`.
pub open spec fn hits_on(events: Seq<ProjectileHit>, k: nat, a: int) -> nat
    decreases k,
{
    if k == 0 {
        0
    } else {
        hits_on(events, (k - 1) as nat, a) + if events[k - 1].asteroid as int == a {
            1nat
        } else {
            0nat
        }
    }
}

/// How many of the first `k` asteroids are struck by exactly as many
/// projectiles as they have health (and had some health).
pub open spec fn broken_count(healths: Seq<u8>, rows: Seq<Seq<bool>>, k: nat) -> nat
    decreases k,
{
    if k == 0 {
        0
    } else {
        broken_count(healths, rows, (k - 1) as nat) + if healths[k - 1] != 0 && contacts_on(
            rows,
            rows.len(),
            k - 1,
        ) == healths[k - 1] {
            1nat
        } else {
            0nat
        }
    }
}

/// How many of the first `k` asteroids have been worn down to zero from a
/// non-zero start.
spec fn zeroed(hs: Seq<int>, h0: Seq<u8>, k: nat) -> nat
    decreases k,
{
    if k == 0 {
        0
    } else {
        zeroed(hs, h0, (k - 1) as nat) + if hs[k - 1] == 0 && h0[k - 1] != 0 {
            1nat
        } else {
            0nat
        }
    }
}

/// The account agrees with the hits it lists: each health is the start
/// health less the hits on that asteroid, each hit is destroying exactly when
/// it takes the asteroid's last point, and the destroyed count is the number
/// of asteroids worn to zero.
spec fn hit_inv(t: HitTally, h0: Seq<u8>, n: nat) -> bool {
    &&& tally_consistent(t, n)
    &&& n == h0.len()
    &&& n <= usize::MAX
    &&& forall|a: int|
        0 <= a < n ==> #[trigger] t.healths[a] == h0[a] - hits_on(t.events, t.events.len(), a)
    &&& forall|a: int| 0 <= a < n ==> #[trigger] t.healths[a] >= 0
    &&& forall|k: int|
        0 <= k < t.events.len() ==> (#[trigger] t.events[k]).asteroid < n && (t.events[k].destroyed
            <==> h0[t.events[k].asteroid as int] == hits_on(
            t.events,
            (k + 1) as nat,
            t.events[k].asteroid as int,
        ))
    &&& t.destroyed == zeroed(t.healths, h0, n)
}

proof fn lemma_hits_on_push(events: Seq<ProjectileHit>, e: ProjectileHit, k: nat, a: int)
    requires
        k <= events.len(),
    ensures
        hits_on(events.push(e), k, a) == hits_on(events, k, a),
    decreases k,
{
    if k > 0 {
        lemma_hits_on_push(events, e, (k - 1) as nat, a);
    }
}

proof fn lemma_zeroed_update(hs: Seq<int>, h0: Seq<u8>, k: nat, a: int, v: int)
    requires
        0 <= a < hs.len(),
        k <= hs.len(),
    ensures
        zeroed(hs.update(a, v), h0, k) + (if a < k && hs[a] == 0 && h0[a] != 0 {
            1int
        } else {
            0int
        }) == zeroed(hs, h0, k) + (if a < k && v == 0 && h0[a] != 0 {
            1int
        } else {
            0int
        }),
    decreases k,
{
    if k > 0 {
        lemma_zeroed_update(hs, h0, (k - 1) as nat, a, v);
    }
}

proof fn lemma_zeroed_start(h0: Seq<u8>, k: nat)
    requires
        k <= h0.len(),
    ensures
        zeroed(h0.map_values(|h: u8| h as int), h0, k) == 0,
    decreases k,
{
    if k > 0 {
        lemma_zeroed_start(h0, (k - 1) as nat);
    }
}

proof fn lemma_zeroed_is_broken(hs: Seq<int>, h0: Seq<u8>, rows: Seq<Seq<bool>>, k: nat)
    requires
        k <= h0.len(),
        k <= hs.len(),
        forall|a: int| 0 <= a < k ==> #[trigger] hs[a] == h0[a] - contacts_on(rows, rows.len(), a),
    ensures
        zeroed(hs, h0, k) == broken_count(h0, rows, k),
    decreases k,
{
    if k > 0 {
        lemma_zeroed_is_broken(hs, h0, rows, (k - 1) as nat);
        assert(hs[k - 1] == h0[k - 1] - contacts_on(rows, rows.len(), k - 1));
    }
}

proof fn lemma_hit_one_inv(t: HitTally, h0: Seq<u8>, n: nat, p: nat, a: nat, touching: bool)
    requires
        hit_inv(t, h0, n),
        a < n,
        touching ==> t.healths[a as int] >= 1,
    ensures
        hit_inv(hit_one(t, p, a, touching), h0, n),
{
    if touching {
        let t2 = hit_one(t, p, a, touching);
        let e = ProjectileHit {
            projectile: p as usize,
            asteroid: a as usize,
            destroyed: t.healths[a as int] - 1 == 0,
        };
        let len = t.events.len();
        assert(t2.events == t.events.push(e));
        assert(t2.events.drop_last() == t.events);
        assert(t2.events[len as int] == e);
        assert(e.asteroid as int == a);
        assert forall|b: int| 0 <= b < n implies #[trigger] t2.healths[b] == h0[b] - hits_on(
            t2.events,
            t2.events.len(),
            b,
        ) by {
            lemma_hits_on_push(t.events, e, len, b);
            assert(t.healths[b] == h0[b] - hits_on(t.events, len, b));
        }
        assert forall|b: int| 0 <= b < n implies #[trigger] t2.healths[b] >= 0 by {
            assert(t.healths[b] >= 0);
        }
        assert forall|k: int| 0 <= k < t2.events.len() implies (#[trigger] t2.events[k]).asteroid
            < n && (t2.events[k].destroyed <==> h0[t2.events[k].asteroid as int] == hits_on(
            t2.events,
            (k + 1) as nat,
            t2.events[k].asteroid as int,
        )) by {
            if k < len {
                assert(t2.events[k] == t.events[k]);
                lemma_hits_on_push(t.events, e, (k + 1) as nat, t.events[k].asteroid as int);
            } else {
                lemma_hits_on_push(t.events, e, len, a as int);
                assert(t.healths[a as int] == h0[a as int] - hits_on(t.events, len, a as int));
            }
        }
        lemma_zeroed_update(t.healths, h0, n, a as int, t.healths[a as int] - 1);
        assert(t.healths[a as int] == h0[a as int] - hits_on(t.events, len, a as int));
    }
}

proof fn lemma_hit_row_inv(t: HitTally, h0: Seq<u8>, n: nat, p: nat, row: Seq<bool>, k: nat)
    requires
        hit_inv(t, h0, n),
        row.len() == n,
        k <= n,
        forall|b: int| 0 <= b < k && #[trigger] row[b] ==> t.healths[b] >= 1,
    ensures
        hit_inv(hit_row(t, p, row, k), h0, n),
    decreases k,
{
    if k > 0 {
        lemma_hit_row_inv(t, h0, n, p, row, (k - 1) as nat);
        lemma_hit_row_effect(t, p, row, (k - 1) as nat, n);
        let prev = hit_row(t, p, row, (k - 1) as nat);
        assert(prev.healths[k - 1] == t.healths[k - 1]);
        lemma_hit_one_inv(prev, h0, n, p, (k - 1) as nat, row[k - 1]);
    }
}

proof fn lemma_hit_rows_inv(h0: Seq<u8>, rows: Seq<Seq<bool>>, m: nat)
    requires
        m <= rows.len(),
        h0.len() <= usize::MAX,
        forall|q: int| 0 <= q < rows.len() ==> (#[trigger] rows[q]).len() == h0.len(),
        forall|a: int| 0 <= a < h0.len() ==> contacts_on(rows, rows.len(), a) <= #[trigger] h0[a],
    ensures
        hit_inv(hit_rows(tally_start(h0), rows, m, h0.len()), h0, h0.len()),
    decreases m,
{
    let n = h0.len();
    let start = tally_start(h0);
    if m == 0 {
        assert(destroying_hits(start.events) == 0);
        lemma_zeroed_start(h0, n);
        assert forall|a: int| 0 <= a < n implies #[trigger] start.healths[a] == h0[a] - hits_on(
            start.events,
            start.events.len(),
            a,
        ) by {}
    } else {
        lemma_hit_rows_inv(h0, rows, (m - 1) as nat);
        lemma_hit_rows_effect(start, rows, (m - 1) as nat, n);
        let before = hit_rows(start, rows, (m - 1) as nat, n);
        let row = rows[m - 1];
        assert forall|b: int| 0 <= b < n && #[trigger] row[b] implies before.healths[b] >= 1 by {
            lemma_contacts_monotone(rows, m, rows.len(), b);
            assert(contacts_on(rows, m, b) == contacts_on(rows, (m - 1) as nat, b) + 1);
        }
        lemma_hit_row_inv(before, h0, n, (m - 1) as nat, row, n);
    }
}

/// Law: after a frame of projectile hits, every reported hit lists a real
/// asteroid, and it is reported destroying exactly when that asteroid has
/// then been struck as many times as its health; the hits listed on each
/// asteroid are the projectiles that touched it; and the destroyed count
/// grows by the number of asteroids touched by exactly as many projectiles
/// as their health.
pub proof fn lemma_projectile_destruction(healths: Seq<u8>, rows: Seq<Seq<bool>>)
    requires
        healths.len() <= usize::MAX,
        forall|q: int| 0 <= q < rows.len() ==> (#[trigger] rows[q]).len() == healths.len(),
        forall|a: int|
            0 <= a < healths.len() ==> contacts_on(rows, rows.len(), a) <= #[trigger] healths[a],
    ensures
        ({
            let t = hit_rows(tally_start(healths), rows, rows.len(), healths.len());
            &&& forall|k: int|
                0 <= k < t.events.len() ==> (#[trigger] t.events[k]).asteroid < healths.len() && (
                t.events[k].destroyed <==> healths[t.events[k].asteroid as int] == hits_on(
                    t.events,
                    (k + 1) as nat,
                    t.events[k].asteroid as int,
                ))
            &&& forall|a: int|
                0 <= a < healths.len() ==> #[trigger] hits_on(t.events, t.events.len(), a)
                    == contacts_on(rows, rows.len(), a)
            &&& t.destroyed == broken_count(healths, rows, healths.len())
        }),
{
    let n = healths.len();
    let start = tally_start(healths);
    lemma_hit_rows_inv(healths, rows, rows.len());
    assert(destroying_hits(start.events) == 0);
    lemma_hit_rows_effect(start, rows, rows.len(), n);
    let t = hit_rows(start, rows, rows.len(), n);
    assert forall|a: int| 0 <= a < n implies #[trigger] hits_on(t.events, t.events.len(), a)
        == contacts_on(rows, rows.len(), a) by {
        assert(t.healths[a] == healths[a] - hits_on(t.events, t.events.len(), a));
        assert(t.healths[a] == start.healths[a] - contacts_on(rows, rows.len(), a));
    }
    assert forall|a: int| 0 <= a < n implies #[trigger] t.healths[a] == healths[a] - contacts_on(
        rows,
        rows.len(),
        a,
    ) by {
        assert(t.healths[a] == start.healths[a] - contacts_on(rows, rows.len(), a));
    }
    lemma_zeroed_is_broken(t.healths, healths, rows, n);
}

/// The number of frames in an explosion's animation.
pub const EXPLOSION_FRAMES: usize = 8;

/// One frame of an explosion: the animation moves on by a picture, and the
/// explosion is removed once it has run past its last picture.
pub fn explosion_step(frame: usize) -> (r: (usize, bool))
    requires
        frame < usize::MAX,
    ensures
        r.0 == frame + 1,
        r.1 == (frame + 1 >= EXPLOSION_FRAMES),
{
    let next = frame + 1;
    (next, next >= EXPLOSION_FRAMES)
}

} // verus!
