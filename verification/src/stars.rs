use vstd::prelude::*;
use crate::rng::random_in;
use crate::screens::Screen;

verus! {

/// The most stars that are newly created rather than taken from the pool.
pub const MAX_ACTIVE_STARS: usize = 600;

/// The background stars: how many have been put on screen, and the stars
/// (by entity id) made in advance that wait to be used.
#[derive(Debug)]
pub struct StarPool {
    pub active_count: usize,
    pub inactive_stars: Vec<u64>,
}

/// Where the next star comes from.
#[derive(PartialEq, Eq, Structural, Clone, Copy, Debug, Hash)]
pub enum StarSpawn {
    /// Reuse the waiting star with this id.
    Reuse(u64),
    /// Create a new star.
    New,
    /// No star this frame.
    Skip,
}

/// The pool after a star has been asked for, as its count and waiting ids.
pub open spec fn after_spawn(active: nat, inactive: Seq<u64>) -> (nat, Seq<u64>) {
    if inactive.len() > 0 {
        (active + 1, inactive.drop_last())
    } else if active < MAX_ACTIVE_STARS {
        (active + 1, inactive)
    } else {
        (active, inactive)
    }
}

/// Where the star asked for comes from.
pub open spec fn spawn_source(active: nat, inactive: Seq<u64>) -> StarSpawn {
    if inactive.len() > 0 {
        StarSpawn::Reuse(inactive.last())
    } else if active < MAX_ACTIVE_STARS {
        StarSpawn::New
    } else {
        StarSpawn::Skip
    }
}

impl StarPool {
    /// An empty pool.
    pub fn new() -> (p: Self)
        ensures
            p.active_count == 0,
            p.inactive_stars@.len() == 0,
    {
        StarPool { active_count: 0, inactive_stars: Vec::new() }
    }

    /// Puts a star made in advance into the pool.
    pub fn add_inactive(&mut self, id: u64)
        ensures
            final(self).active_count == old(self).active_count,
            final(self).inactive_stars@ == old(self).inactive_stars@.push(id),
    {
        self.inactive_stars.push(id);
    }

    /// Asks for the next star: the last waiting star if there is one, else a
    /// new one while fewer than the most new stars are on screen, else none.
    pub fn next_star(&mut self) -> (s: StarSpawn)
        requires
            old(self).inactive_stars@.len() > 0 || old(self).active_count < MAX_ACTIVE_STARS
                ==> old(self).active_count < usize::MAX,
        ensures
            s == spawn_source(old(self).active_count as nat, old(self).inactive_stars@),
            (final(self).active_count as nat, final(self).inactive_stars@) == after_spawn(
                old(self).active_count as nat,
                old(self).inactive_stars@,
            ),
    {
        match self.inactive_stars.pop() {
            Some(id) => {
                self.active_count = self.active_count + 1;
                StarSpawn::Reuse(id)
            },
            None => {
                if self.active_count < MAX_ACTIVE_STARS {
                    self.active_count = self.active_count + 1;
                    StarSpawn::New
                } else {
                    StarSpawn::Skip
                }
            },
        }
    }
}

/// Law: reusing a waiting star keeps the number of stars (on screen and
/// waiting) the same, and a new star is made only when none waits and
/// fewer than the most new stars are on screen.
pub proof fn lemma_star_pool_accounting(active: nat, inactive: Seq<u64>)
    ensures
        spawn_source(active, inactive) is Reuse ==> after_spawn(active, inactive).0 + after_spawn(
            active,
            inactive,
        ).1.len() == active + inactive.len(),
        spawn_source(active, inactive) is New ==> inactive.len() == 0 && active
            < MAX_ACTIVE_STARS && after_spawn(active, inactive).0 == active + 1,
        spawn_source(active, inactive) is Skip ==> after_spawn(active, inactive) == (
        active,
        inactive,
        ),
{
}

/// Law: once no star waits and the most new stars are on screen, the pool
/// never changes again.
pub proof fn lemma_star_pool_saturates(active: nat, inactive: Seq<u64>)
    requires
        inactive.len() == 0,
        active >= MAX_ACTIVE_STARS,
    ensures
        after_spawn(active, inactive) == (active, inactive),
        spawn_source(active, inactive) == StarSpawn::Skip,
{
}

/// One of the two star pictures, numbered 1 and 2, drawn at random.
pub fn roll_star_picture() -> (i: u32)
    ensures
        1 <= i <= 2,
{
    random_in(1, 3)
}

/// How much faster than their own speed the stars fall: twice as fast
/// during the game.
pub fn star_speed_multiplier(screen: Screen) -> (m: u32)
    ensures
        m == (if screen == Screen::Game {
            2u32
        } else {
            1u32
        }),
{
    match screen {
        Screen::Game => 2,
        _ => 1,
    }
}

} // verus!
