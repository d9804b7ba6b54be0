use vstd::prelude::*;
use crate::rng::random_in;

verus! {

/// The number of lanes that asteroids fall in.
pub const LANES: u32 = 10;

/// The sizes of asteroid.
#[derive(PartialEq, Eq, Structural, Clone, Copy, Debug, Hash)]
pub enum AsteroidSize {
    Small,
    Big,
}

impl AsteroidSize {
    pub open spec fn pixels_spec(self) -> u32 {
        match self {
            AsteroidSize::Small => 32,
            AsteroidSize::Big => 64,
        }
    }

    /// The asteroid's drawn width and height, in pixels.
    pub fn pixels(&self) -> (p: u32)
        ensures
            p == self.pixels_spec(),
    {
        match self {
            AsteroidSize::Small => 32,
            AsteroidSize::Big => 64,
        }
    }

    /// The hits an asteroid takes before it breaks: five for one wider than
    /// a small one, two otherwise.
    pub fn initial_health(&self) -> (h: u8)
        ensures
            h == (if self.pixels_spec() > 32 {
                5u8
            } else {
                2u8
            }),
    {
        if self.pixels() > 32 {
            5
        } else {
            2
        }
    }
}

/// One of the two asteroid pictures, numbered 3 and 4, drawn at random.
pub fn roll_asteroid_picture() -> (i: u32)
    ensures
        3 <= i <= 4,
{
    random_in(3, 5)
}

/// The random draws that decide a wave of asteroids: its size `count`, the
/// roll that decides a big asteroid (one chance in four), the big
/// asteroid's lane, and for each small asteroid the position, among the
/// lanes still free (in increasing order), of the lane it takes.
#[derive(Debug)]
pub struct WaveRolls {
    pub count: u32,
    pub big_roll: u32,
    pub big_lane: u32,
    pub picks: Vec<u32>,
}

/// A wave of asteroids: its size and the lanes of its big asteroid, if any,
/// and of its small ones, in the order they spawn.
#[derive(Debug)]
pub struct Wave {
    pub count: u32,
    pub big_lane: Option<u32>,
    pub small_lanes: Vec<u32>,
}

/// A wave of more than six may hold a big asteroid, when its roll is zero.
pub open spec fn has_big(count: u32, big_roll: u32) -> bool {
    count > 6 && big_roll == 0
}

/// The number of small asteroids: a wave of more than six counts two for
/// its big slot, whether or not a big asteroid spawned there.
pub open spec fn small_count(count: u32) -> nat {
    if count > 6 {
        (count - 2) as nat
    } else {
        count as nat
    }
}

/// All lanes, in increasing order.
pub open spec fn all_lanes() -> Seq<u32> {
    Seq::new(LANES as nat, |i: int| i as u32)
}

/// The lanes free for small asteroids: all but the big asteroid's.
pub open spec fn start_pool(big_lane: Option<u32>) -> Seq<u32> {
    match big_lane {
        Some(b) => all_lanes().remove(b as int),
        None => all_lanes(),
    }
}

/// Each pick is a position in the lanes still free at its turn.
pub open spec fn picks_fit(pool: Seq<u32>, picks: Seq<u32>) -> bool
    decreases picks.len(),
{
    if picks.len() == 0 {
        true
    } else {
        picks[0] < pool.len() && picks_fit(pool.remove(picks[0] as int), picks.drop_first())
    }
}

/// The lanes taken by the picks, in order: each pick takes the lane at its
/// position among the free lanes, which is then no longer free.
pub open spec fn draw(pool: Seq<u32>, picks: Seq<u32>) -> Seq<u32>
    decreases picks.len(),
{
    if picks.len() == 0 {
        Seq::empty()
    } else {
        seq![pool[picks[0] as int]] + draw(pool.remove(picks[0] as int), picks.drop_first())
    }
}

/// The big asteroid's lane, if the rolls give one.
pub open spec fn big_lane_of(rolls: WaveRolls) -> Option<u32> {
    if has_big(rolls.count, rolls.big_roll) {
        Some(rolls.big_lane)
    } else {
        None
    }
}

/// The rolls describe a wave: a big asteroid in one of the inner lanes 1 to
/// 8, one pick per small asteroid, each within the lanes free at its turn.
pub open spec fn rolls_fit(rolls: WaveRolls) -> bool {
    &&& has_big(rolls.count, rolls.big_roll) ==> 1 <= rolls.big_lane <= 8
    &&& rolls.picks@.len() == small_count(rolls.count)
    &&& picks_fit(start_pool(big_lane_of(rolls)), rolls.picks@)
}

/// The wave that the rolls decide.
pub fn plan_wave(rolls: &WaveRolls) -> (w: Wave)
    requires
        rolls_fit(*rolls),
    ensures
        w.count == rolls.count,
        w.big_lane == big_lane_of(*rolls),
        w.small_lanes@ == draw(start_pool(big_lane_of(*rolls)), rolls.picks@),
{
    let big_lane = if rolls.count > 6 && rolls.big_roll == 0 {
        Some(rolls.big_lane)
    } else {
        None
    };
    let mut pool: Vec<u32> = Vec::new();
    let mut lane: u32 = 0;
    while lane < LANES
        invariant
            lane <= LANES,
            pool@ == all_lanes().take(lane as int),
        decreases LANES - lane,
    {
        assert(all_lanes().take(lane as int + 1) == all_lanes().take(lane as int).push(lane));
        pool.push(lane);
        lane = lane + 1;
    }
    assert(all_lanes().take(LANES as int) == all_lanes());
    if let Some(b) = big_lane {
        pool.remove(b as usize);
    }
    let ghost pool0 = pool@;
    let mut small: Vec<u32> = Vec::new();
    let n = rolls.picks.len();
    assert(rolls.picks@.skip(0) == rolls.picks@);
    assert(small@ + draw(pool@, rolls.picks@) == draw(pool@, rolls.picks@));
    let mut k: usize = 0;
    while k < n
        invariant
            n == rolls.picks@.len(),
            k <= n,
            pool0 == start_pool(big_lane_of(*rolls)),
            picks_fit(pool@, rolls.picks@.skip(k as int)),
            small@ + draw(pool@, rolls.picks@.skip(k as int)) == draw(pool0, rolls.picks@),
        decreases n - k,
    {
        let ghost rest = rolls.picks@.skip(k as int);
        assert(rest.drop_first() == rolls.picks@.skip(k as int + 1));
        let ghost old_pool = pool@;
        let pick = rolls.picks[k];
        let lane = pool.remove(pick as usize);
        assert(draw(old_pool, rest) == seq![lane] + draw(pool@, rest.drop_first()));
        small.push(lane);
        assert(small@ + draw(pool@, rolls.picks@.skip(k as int + 1)) == (small@.drop_last() + (
        seq![lane] + draw(pool@, rest.drop_first()))));
        k = k + 1;
    }
    assert(rolls.picks@.skip(n as int).len() == 0);
    assert(small@ + draw(pool@, rolls.picks@.skip(n as int)) == small@);
    Wave { count: rolls.count, big_lane, small_lanes: small }
}

/// The lanes of a wave are sound: a big asteroid sits in an inner lane,
/// there is one small asteroid per small slot, every lane exists, and no two
/// asteroids share a lane.
pub open spec fn wave_fits(w: Wave) -> bool {
    &&& 3 <= w.count <= 9
    &&& w.big_lane matches Some(b) ==> w.count > 6 && 1 <= b <= 8
    &&& w.small_lanes@.len() == small_count(w.count)
    &&& forall|i: int| 0 <= i < w.small_lanes@.len() ==> #[trigger] w.small_lanes@[i] < LANES
    &&& w.small_lanes@.no_duplicates()
    &&& w.big_lane matches Some(b) ==> !w.small_lanes@.contains(b)
}

proof fn lemma_picks_fit(pool: Seq<u32>, picks: Seq<u32>)
    requires
        forall|k: int| 0 <= k < picks.len() ==> #[trigger] picks[k] < pool.len() - k,
    ensures
        picks_fit(pool, picks),
    decreases picks.len(),
{
    if picks.len() > 0 {
        pool.remove_ensures(picks[0] as int);
        let rest = picks.drop_first();
        assert forall|k: int| 0 <= k < rest.len() implies #[trigger] rest[k] < pool.remove(
            picks[0] as int,
        ).len() - k by {
            assert(rest[k] == picks[k + 1]);
        }
        lemma_picks_fit(pool.remove(picks[0] as int), rest);
    }
}

proof fn lemma_draw_distinct(pool: Seq<u32>, picks: Seq<u32>)
    requires
        pool.no_duplicates(),
        picks_fit(pool, picks),
    ensures
        draw(pool, picks).len() == picks.len(),
        draw(pool, picks).no_duplicates(),
        forall|i: int| 0 <= i < draw(pool, picks).len() ==> pool.contains(#[trigger] draw(pool, picks)[i]),
    decreases picks.len(),
{
    if picks.len() > 0 {
        let i0 = picks[0] as int;
        let x = pool[i0];
        let rest_pool = pool.remove(i0);
        pool.remove_ensures(i0);
        assert(rest_pool.no_duplicates()) by {
            assert forall|a: int, b: int| 0 <= a < b < rest_pool.len() implies rest_pool[a] != rest_pool[b] by {
                let pa = if a < i0 { a } else { a + 1 };
                let pb = if b < i0 { b } else { b + 1 };
                assert(rest_pool[a] == pool[pa]);
                assert(rest_pool[b] == pool[pb]);
            }
        }
        lemma_draw_distinct(rest_pool, picks.drop_first());
        let tail = draw(rest_pool, picks.drop_first());
        assert(!tail.contains(x)) by {
            if tail.contains(x) {
                let j = choose|j: int| 0 <= j < tail.len() && tail[j] == x;
                assert(rest_pool.contains(tail[j]));
                let r = choose|r: int| 0 <= r < rest_pool.len() && rest_pool[r] == x;
                let pr = if r < i0 { r } else { r + 1 };
                assert(pool[pr] == x);
            }
        }
        let d = draw(pool, picks);
        assert(d == seq![x] + tail);
        assert forall|i: int| 0 <= i < d.len() implies pool.contains(#[trigger] d[i]) by {
            if i == 0 {
                assert(pool[i0] == x);
            } else {
                assert(d[i] == tail[i - 1]);
                assert(rest_pool.contains(tail[i - 1]));
                let r = choose|r: int| 0 <= r < rest_pool.len() && rest_pool[r] == tail[i - 1];
                let pr = if r < i0 { r } else { r + 1 };
                assert(pool[pr] == d[i]);
            }
        }
        assert forall|a: int, b: int| 0 <= a < b < d.len() implies d[a] != d[b] by {
            if a == 0 {
                assert(d[b] == tail[b - 1]);
            } else {
                assert(d[a] == tail[a - 1]);
                assert(d[b] == tail[b - 1]);
            }
        }
    }
}

/// The start pool holds every lane but the big asteroid's, once each.
proof fn lemma_start_pool(big_lane: Option<u32>)
    requires
        big_lane matches Some(b) ==> b < LANES,
    ensures
        start_pool(big_lane).no_duplicates(),
        start_pool(big_lane).len() == (if big_lane is Some {
            LANES - 1
        } else {
            LANES as int
        }),
        forall|i: int|
            0 <= i < start_pool(big_lane).len() ==> #[trigger] start_pool(big_lane)[i] < LANES
                && Some(start_pool(big_lane)[i]) != big_lane,
{
    let all = all_lanes();
    match big_lane {
        Some(b) => {
            all.remove_ensures(b as int);
            let p = all.remove(b as int);
            assert forall|i: int| 0 <= i < p.len() implies #[trigger] p[i] == (if i < b {
                i
            } else {
                i + 1
            }) by {}
        },
        None => {},
    }
}

/// Law: the lanes of any wave planned from fitting rolls are sound: every
/// lane exists, no two asteroids share a lane, the big asteroid (if any) is
/// in an inner lane, and there is one small asteroid per small slot.
pub proof fn lemma_planned_wave_lanes(rolls: WaveRolls)
    requires
        rolls_fit(rolls),
    ensures
        ({
            let small = draw(start_pool(big_lane_of(rolls)), rolls.picks@);
            &&& small.len() == small_count(rolls.count)
            &&& small.no_duplicates()
            &&& forall|i: int| 0 <= i < small.len() ==> #[trigger] small[i] < LANES
            &&& big_lane_of(rolls) matches Some(b) ==> 1 <= b <= 8 && !small.contains(b)
        }),
{
    let big = big_lane_of(rolls);
    let pool = start_pool(big);
    lemma_start_pool(big);
    lemma_draw_distinct(pool, rolls.picks@);
    let small = draw(pool, rolls.picks@);
    assert forall|i: int| 0 <= i < small.len() implies #[trigger] small[i] < LANES && Some(small[i]) != big by {
        assert(pool.contains(small[i]));
    }
}

/// The big asteroid's lane that the draws give, if any.
pub open spec fn big_option(count: u32, big_roll: u32, big_lane: u32) -> Option<u32> {
    if has_big(count, big_roll) {
        Some(big_lane)
    } else {
        None
    }
}

/// The picks that take `lanes`, in order, from `pool`: each pick is the
/// position of the next lane among the lanes still free.
pub open spec fn picks_for(pool: Seq<u32>, lanes: Seq<u32>) -> Seq<u32>
    decreases lanes.len(),
{
    if lanes.len() == 0 {
        Seq::empty()
    } else {
        let i = pool.index_of(lanes[0]);
        seq![i as u32] + picks_for(pool.remove(i), lanes.drop_first())
    }
}

proof fn lemma_picks_for(pool: Seq<u32>, lanes: Seq<u32>)
    requires
        pool.no_duplicates(),
        pool.len() <= u32::MAX,
        lanes.no_duplicates(),
        forall|j: int| 0 <= j < lanes.len() ==> pool.contains(#[trigger] lanes[j]),
    ensures
        picks_fit(pool, picks_for(pool, lanes)),
        picks_for(pool, lanes).len() == lanes.len(),
        draw(pool, picks_for(pool, lanes)) == lanes,
    decreases lanes.len(),
{
    if lanes.len() > 0 {
        let x = lanes[0];
        assert(pool.contains(lanes[0]));
        let i = pool.index_of(x);
        let rest_pool = pool.remove(i);
        pool.remove_ensures(i);
        let rest = lanes.drop_first();
        assert(rest_pool.no_duplicates()) by {
            assert forall|a: int, b: int| 0 <= a < b < rest_pool.len() implies rest_pool[a]
                != rest_pool[b] by {
                let pa = if a < i { a } else { a + 1 };
                let pb = if b < i { b } else { b + 1 };
                assert(rest_pool[a] == pool[pa]);
                assert(rest_pool[b] == pool[pb]);
            }
        }
        assert forall|j: int| 0 <= j < rest.len() implies rest_pool.contains(#[trigger] rest[j]) by {
            assert(rest[j] == lanes[j + 1]);
            assert(pool.contains(lanes[j + 1]));
            let r = choose|r: int| 0 <= r < pool.len() && pool[r] == rest[j];
            assert(r != i);
            if r < i {
                assert(rest_pool[r] == rest[j]);
            } else {
                assert(rest_pool[r - 1] == rest[j]);
            }
        }
        assert(rest.no_duplicates()) by {
            assert forall|a: int, b: int| 0 <= a < b < rest.len() implies rest[a] != rest[b] by {
                assert(rest[a] == lanes[a + 1]);
                assert(rest[b] == lanes[b + 1]);
            }
        }
        lemma_picks_for(rest_pool, rest);
        let picks = picks_for(pool, lanes);
        assert(picks[0] == i as u32);
        assert(picks.drop_first() == picks_for(rest_pool, rest));
        assert(draw(pool, picks) == seq![x] + rest);
        assert(lanes == seq![x] + rest);
    }
}

/// Law: planning reaches every sound wave: for any wave size and roll
/// deciding a big asteroid in an inner lane, and any distinct lanes for the
/// small asteroids, one per slot and apart from the big asteroid's, there
/// are picks that put the small asteroids exactly there; and two different
/// picks at the same turn take different lanes.
pub proof fn lemma_every_wave_plannable(count: u32, big_roll: u32, big_lane: u32, lanes: Seq<u32>)
    requires
        has_big(count, big_roll) ==> 1 <= big_lane <= 8,
        lanes.len() == small_count(count),
        lanes.no_duplicates(),
        forall|j: int| 0 <= j < lanes.len() ==> #[trigger] lanes[j] < LANES,
        has_big(count, big_roll) ==> !lanes.contains(big_lane),
    ensures
        exists|picks: Seq<u32>|
            #![trigger picks_fit(start_pool(big_option(count, big_roll, big_lane)), picks)]
            picks.len() == small_count(count) && picks_fit(
                start_pool(big_option(count, big_roll, big_lane)),
                picks,
            ) && draw(start_pool(big_option(count, big_roll, big_lane)), picks) == lanes,
{
    let big = big_option(count, big_roll, big_lane);
    let pool = start_pool(big);
    lemma_start_pool(big);
    let all = all_lanes();
    assert forall|j: int| 0 <= j < lanes.len() implies pool.contains(#[trigger] lanes[j]) by {
        let l = lanes[j];
        match big {
            Some(b) => {
                all.remove_ensures(b as int);
                assert(l != b);
                if l < b {
                    assert(pool[l as int] == l);
                } else {
                    assert(pool[l - 1] == l);
                }
            },
            None => {
                assert(pool[l as int] == l);
            },
        }
    }
    lemma_picks_for(pool, lanes);
    let picks = picks_for(pool, lanes);
    assert(picks.len() == small_count(count) && picks_fit(pool, picks) && draw(pool, picks) == lanes);
}

/// Law: at any turn, different picks among the free lanes take different
/// lanes, and each free lane is taken by some pick.
pub proof fn lemma_pick_is_a_choice_of_free_lane(pool: Seq<u32>, i: u32, j: u32, lane: u32)
    requires
        pool.no_duplicates(),
        pool.len() <= u32::MAX,
        i < pool.len(),
        j < pool.len(),
        pool.contains(lane),
    ensures
        i != j ==> draw(pool, seq![i])[0] != draw(pool, seq![j])[0],
        exists|k: u32| k < pool.len() && #[trigger] draw(pool, seq![k])[0] == lane,
{
    assert(seq![i].drop_first().len() == 0);
    assert(seq![j].drop_first().len() == 0);
    assert(draw(pool, seq![i])[0] == pool[i as int]);
    assert(draw(pool, seq![j])[0] == pool[j as int]);
    let r = choose|r: int| 0 <= r < pool.len() && pool[r] == lane;
    let k = r as u32;
    assert(seq![k].drop_first().len() == 0);
    assert(draw(pool, seq![k])[0] == pool[r]);
}

/// A wave of asteroids rolled at random: three to nine asteroids; a wave of
/// more than six has one chance in four of a big asteroid in an inner lane;
/// the small asteroids each take a lane chosen evenly among the lanes still
/// free.
pub fn roll_wave() -> (w: Wave)
    ensures
        wave_fits(w),
{
    let count = random_in(3, 10);
    let mut big_roll: u32 = 0;
    let mut big_lane: u32 = 0;
    if count > 6 {
        big_roll = random_in(0, 4);
        if big_roll == 0 {
            big_lane = random_in(1, LANES - 1);
        }
    }
    let big = count > 6 && big_roll == 0;
    let pool_len: u32 = if big {
        LANES - 1
    } else {
        LANES
    };
    let n_small: u32 = if count > 6 {
        count - 2
    } else {
        count
    };
    let mut picks: Vec<u32> = Vec::new();
    let mut k: u32 = 0;
    while k < n_small
        invariant
            k <= n_small,
            n_small + 2 <= pool_len <= LANES,
            picks@.len() == k,
            forall|j: int| 0 <= j < k ==> #[trigger] picks@[j] < pool_len - j,
        decreases n_small - k,
    {
        let pick = random_in(0, pool_len - k);
        picks.push(pick);
        k = k + 1;
    }
    let rolls = WaveRolls { count, big_roll, big_lane, picks };
    proof {
        let bl = big_lane_of(rolls);
        lemma_start_pool(bl);
        lemma_picks_fit(start_pool(bl), rolls.picks@);
    }
    let w = plan_wave(&rolls);
    proof {
        lemma_planned_wave_lanes(rolls);
    }
    w
}

} // verus!
