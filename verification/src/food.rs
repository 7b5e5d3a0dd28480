//! Food items: spawning, aging, expiry, and the at-most-one-per-kind rule.

use vstd::prelude::*;
use crate::geom::{Point, in_bounds, contains_point};
use crate::snake::Snake;
use crate::rng::rand_below;

verus! {

/// Score awarded for eating an apple.
pub const APPLE_SCORE: u32 = 10;

/// Ticks an apple stays on the board before it expires.
pub const APPLE_LIFETIME: u32 = 45;

/// Percent chance per tick that an absent apple spawns: always.
pub const APPLE_SPAWN_PERCENT: u32 = 100;

/// Score awarded for eating a candy.
pub const CANDY_SCORE: u32 = 50;

/// Ticks a candy stays on the board before it expires.
pub const CANDY_LIFETIME: u32 = 15;

/// Percent chance per tick that an absent candy spawns.
pub const CANDY_SPAWN_PERCENT: u32 = 1;

/// How many random cells a spawn attempt tries before giving up for this
/// tick, so that a pathologically full board cannot loop forever.
pub const SPAWN_RETRIES: u32 = 100;

/// The two kinds of food.
#[derive(PartialEq, Eq, Structural, Copy, Clone, Debug)]
pub enum FoodType {
    Apple,
    Candy,
}

/// An active food item: its kind, the cell it sits on, the score it awards,
/// its maximum lifetime in ticks, and how many ticks it has lived.
#[derive(PartialEq, Eq, Structural, Copy, Clone, Debug)]
pub struct Food {
    pub kind: FoodType,
    pub xy: Point,
    pub score: u32,
    pub life_time: u32,
    pub lived_time: u32,
}

/// Score a food of kind `k` awards.
pub open spec fn spec_food_score(k: FoodType) -> u32 {
    match k {
        FoodType::Apple => APPLE_SCORE,
        FoodType::Candy => CANDY_SCORE,
    }
}

/// Lifetime in ticks of a food of kind `k`.
pub open spec fn spec_food_lifetime(k: FoodType) -> u32 {
    match k {
        FoodType::Apple => APPLE_LIFETIME,
        FoodType::Candy => CANDY_LIFETIME,
    }
}

/// Percent chance per tick that an absent food of kind `k` spawns.
pub open spec fn spec_spawn_percent(k: FoodType) -> u32 {
    match k {
        FoodType::Apple => APPLE_SPAWN_PERCENT,
        FoodType::Candy => CANDY_SPAWN_PERCENT,
    }
}

/// Some food of kind `k` is active.
pub open spec fn has_kind(s: Seq<Food>, k: FoodType) -> bool {
    exists|i: int| 0 <= i < s.len() && (#[trigger] s[i]).kind == k
}

/// No two distinct active food items share the kind `k`.
pub open spec fn at_most_one(s: Seq<Food>, k: FoodType) -> bool {
    forall|i: int, j: int|
        0 <= i < s.len() && 0 <= j < s.len() && i != j ==> !((#[trigger] s[i]).kind == k
            && (#[trigger] s[j]).kind == k)
}

/// The food list holds at most one apple and at most one candy.
pub open spec fn food_exclusive(s: Seq<Food>) -> bool {
    at_most_one(s, FoodType::Apple) && at_most_one(s, FoodType::Candy)
}

/// Every active food item sits on the board.
pub open spec fn food_in_bounds(s: Seq<Food>) -> bool {
    forall|i: int| 0 <= i < s.len() ==> in_bounds((#[trigger] s[i]).xy)
}

/// A food item freshly spawned this tick: kind `k`, unaged, with the
/// score and lifetime that belong to that kind.
pub open spec fn is_fresh_spawn(f: Food, k: FoodType) -> bool {
    &&& f.kind == k
    &&& f.lived_time == 0
    &&& f.score == spec_food_score(k)
    &&& f.life_time == spec_food_lifetime(k)
}

/// The cell `p` is free for a spawn: on no snake body, on no active food,
/// and on neither a wall nor an invisible-wall tile.
pub open spec fn cell_free(
    snakes: Seq<Snake>,
    food: Seq<Food>,
    walls: Seq<Point>,
    iwalls: Seq<Point>,
    p: Point,
) -> bool {
    &&& forall|i: int| 0 <= i < snakes.len() ==> !(#[trigger] snakes[i]).body@.contains(p)
    &&& forall|i: int| 0 <= i < food.len() ==> (#[trigger] food[i]).xy != p
    &&& !walls.contains(p)
    &&& !iwalls.contains(p)
}

/// A food item one tick older. Aging saturates rather than wrap, so a
/// stuck item can never make the counter overflow.
pub open spec fn age1(f: Food) -> Food {
    Food {
        lived_time: if f.lived_time == u32::MAX {
            f.lived_time
        } else {
            (f.lived_time + 1) as u32
        },
        ..f
    }
}

/// Every item of `s` one tick older.
pub open spec fn age_seq(s: Seq<Food>) -> Seq<Food> {
    Seq::new(s.len(), |i: int| age1(s[i]))
}

/// The item has outlived its maximum lifetime and is due for removal.
pub open spec fn is_expired(f: Food) -> bool {
    f.lived_time > f.life_time
}

/// The index of the first food item sitting on `p`, or -1 if none does.
pub open spec fn first_food_at(s: Seq<Food>, p: Point) -> int
    decreases s.len(),
{
    if s.len() == 0 {
        -1
    } else if s[0].xy == p {
        0
    } else {
        let r = first_food_at(s.subrange(1, s.len() as int), p);
        if r < 0 {
            -1
        } else {
            r + 1
        }
    }
}

/// An index that holds `p` and has no earlier index holding `p` is the
/// first index at `p`.
pub proof fn lemma_first_food_at_some(s: Seq<Food>, p: Point, i: int)
    requires
        0 <= i < s.len(),
        s[i].xy == p,
        forall|j: int| 0 <= j < i ==> (#[trigger] s[j]).xy != p,
    ensures
        first_food_at(s, p) == i,
    decreases i,
{
    if i == 0 {
    } else {
        let t = s.subrange(1, s.len() as int);
        assert(t[i - 1] == s[i]);
        assert(forall|j: int| 0 <= j < i - 1 ==> (#[trigger] t[j]) == s[j + 1]);
        lemma_first_food_at_some(t, p, i - 1);
    }
}

/// When no index holds `p`, there is no first index at `p`.
pub proof fn lemma_first_food_at_none(s: Seq<Food>, p: Point)
    requires
        forall|j: int| 0 <= j < s.len() ==> (#[trigger] s[j]).xy != p,
    ensures
        first_food_at(s, p) == -1,
    decreases s.len(),
{
    if s.len() > 0 {
        let t = s.subrange(1, s.len() as int);
        assert(forall|j: int| 0 <= j < t.len() ==> (#[trigger] t[j]) == s[j + 1]);
        lemma_first_food_at_none(t, p);
    }
}

/// How one spawn attempt for kind `k` may change the food list: either it
/// leaves the list alone, or — only when no food of kind `k` was active —
/// it appends one fresh item of kind `k` on a cell that was free.
pub open spec fn spawn_step_rel(
    before: Seq<Food>,
    after: Seq<Food>,
    k: FoodType,
    snakes: Seq<Snake>,
    walls: Seq<Point>,
    iwalls: Seq<Point>,
) -> bool {
    ||| after == before
    ||| {
        &&& !has_kind(before, k)
        &&& after == before.push(after.last())
        &&& is_fresh_spawn(after.last(), k)
        &&& in_bounds(after.last().xy)
        &&& cell_free(snakes, before, walls, iwalls, after.last().xy)
    }
}

/// How the expiry sweep changes the food list: if no item is expired the
/// list is unchanged; otherwise the first expired item is removed by
/// swapping the last item into its place and dropping the end. At most one
/// item is removed per tick.
pub open spec fn expiry_step_rel(before: Seq<Food>, after: Seq<Food>) -> bool {
    ||| {
        &&& after == before
        &&& forall|j: int| 0 <= j < before.len() ==> !is_expired(#[trigger] before[j])
    }
    ||| exists|i: int|
        {
            &&& 0 <= i < before.len()
            &&& is_expired(#[trigger] before[i])
            &&& (forall|j: int| 0 <= j < i ==> !is_expired(#[trigger] before[j]))
            &&& after == before.update(i, before.last()).drop_last()
        }
}

/// Everything one tick of the food manager may do, in order: an apple
/// spawn attempt, a candy spawn attempt, aging of every item, and removal
/// of the first expired item if any.
pub open spec fn food_tick_rel(
    olds: Seq<Food>,
    finals: Seq<Food>,
    snakes: Seq<Snake>,
    walls: Seq<Point>,
    iwalls: Seq<Point>,
) -> bool {
    exists|mid1: Seq<Food>, mid2: Seq<Food>|
        {
            &&& #[trigger] spawn_step_rel(olds, mid1, FoodType::Apple, snakes, walls, iwalls)
            &&& #[trigger] spawn_step_rel(mid1, mid2, FoodType::Candy, snakes, walls, iwalls)
            &&& expiry_step_rel(age_seq(mid2), finals)
        }
}

/// A spawn step keeps the at-most-one-per-kind rule.
pub proof fn lemma_spawn_keeps_exclusive(
    before: Seq<Food>,
    after: Seq<Food>,
    k: FoodType,
    snakes: Seq<Snake>,
    walls: Seq<Point>,
    iwalls: Seq<Point>,
)
    requires
        spawn_step_rel(before, after, k, snakes, walls, iwalls),
        food_exclusive(before),
    ensures
        food_exclusive(after),
{
    if after != before {
        let f = after.last();
        assert forall|k2: FoodType| #[trigger] at_most_one(before, k2) implies at_most_one(
            after,
            k2,
        ) by {
            assert forall|i: int, j: int|
                0 <= i < after.len() && 0 <= j < after.len() && i != j implies !((
            #[trigger] after[i]).kind == k2 && (#[trigger] after[j]).kind == k2) by {
                if after[i].kind == k2 && after[j].kind == k2 {
                    if i < before.len() && j < before.len() {
                        assert(after[i] == before[i] && after[j] == before[j]);
                    } else if i < before.len() {
                        assert(after[j] == f && after[i] == before[i]);
                        assert(before[i].kind == k);
                        assert(has_kind(before, k));
                    } else {
                        assert(after[i] == f && after[j] == before[j]);
                        assert(before[j].kind == k);
                        assert(has_kind(before, k));
                    }
                }
            }
        }
    }
}

/// Aging changes no kinds, so it keeps the at-most-one-per-kind rule.
pub proof fn lemma_age_keeps_exclusive(s: Seq<Food>)
    requires
        food_exclusive(s),
    ensures
        food_exclusive(age_seq(s)),
{
    let t = age_seq(s);
    assert(forall|i: int| 0 <= i < t.len() ==> (#[trigger] t[i]).kind == s[i].kind);
}

/// Removing one item by swapping the last into its place keeps the
/// at-most-one-per-kind rule.
pub proof fn lemma_swap_remove_exclusive(s: Seq<Food>, i: int)
    requires
        0 <= i < s.len(),
        food_exclusive(s),
    ensures
        food_exclusive(s.update(i, s.last()).drop_last()),
{
    let after = s.update(i, s.last()).drop_last();
    assert forall|k: FoodType| #[trigger] at_most_one(s, k) implies at_most_one(after, k) by {
        assert forall|m1: int, m2: int|
            0 <= m1 < after.len() && 0 <= m2 < after.len() && m1 != m2 implies !((
        #[trigger] after[m1]).kind == k && (#[trigger] after[m2]).kind == k) by {
            let o1: int = if m1 == i {
                s.len() - 1
            } else {
                m1
            };
            let o2: int = if m2 == i {
                s.len() - 1
            } else {
                m2
            };
            assert(after[m1] == s[o1]);
            assert(after[m2] == s[o2]);
            assert(o1 != o2);
        }
    }
}

/// Removing one item by swapping the last into its place keeps every
/// remaining item on the board.
pub proof fn lemma_swap_remove_in_bounds(s: Seq<Food>, i: int)
    requires
        0 <= i < s.len(),
        food_in_bounds(s),
    ensures
        food_in_bounds(s.update(i, s.last()).drop_last()),
{
    let after = s.update(i, s.last()).drop_last();
    assert forall|m: int| 0 <= m < after.len() implies in_bounds((#[trigger] after[m]).xy) by {
        if m == i {
            assert(after[m] == s[s.len() - 1]);
        } else {
            assert(after[m] == s[m]);
        }
    }
}

/// The expiry sweep removes an item or nothing, so it keeps the
/// at-most-one-per-kind rule.
pub proof fn lemma_expiry_keeps_exclusive(before: Seq<Food>, after: Seq<Food>)
    requires
        expiry_step_rel(before, after),
        food_exclusive(before),
    ensures
        food_exclusive(after),
{
    if after != before {
        let i = choose|i: int|
            0 <= i < before.len() && is_expired(#[trigger] before[i]) && (forall|j: int|
                0 <= j < i ==> !is_expired(#[trigger] before[j])) && after == before.update(
                i,
                before.last(),
            ).drop_last();
        lemma_swap_remove_exclusive(before, i);
    }
}

impl Food {
    /// Whether the item is drawn this frame: in its last six ticks of life
    /// it blinks, visible only on odd-aged ticks.
    pub open spec fn spec_visible(self) -> bool {
        !(self.life_time < self.lived_time + 6 && self.lived_time % 2 == 0)
    }

    /// Derived visibility flag for the renderer; simulation state is not
    /// affected by it.
    pub fn is_visible(&self) -> (r: bool)
        ensures
            r == self.spec_visible(),
    {
        let near_expiry = self.life_time < self.lived_time || self.life_time - self.lived_time
            < 6;
        !(near_expiry && self.lived_time % 2 == 0)
    }
}

/// Whether some food of kind `k` is active.
pub fn kind_present(food: &Vec<Food>, k: FoodType) -> (r: bool)
    ensures
        r == has_kind(food@, k),
{
    let mut i: usize = 0;
    while i < food.len()
        invariant
            i <= food@.len(),
            forall|j: int| 0 <= j < i ==> (#[trigger] food@[j]).kind != k,
        decreases food@.len() - i,
    {
        if food[i].kind == k {
            assert(has_kind(food@, k));
            return true;
        }
        i = i + 1;
    }
    false
}

/// The index of the first active food sitting on `p`, if any.
pub fn find_food_at(food: &Vec<Food>, p: Point) -> (r: Option<usize>)
    ensures
        match r {
            Some(i) => i < food@.len() && food@[i as int].xy == p && (forall|j: int|
                0 <= j < i ==> (#[trigger] food@[j]).xy != p),
            None => forall|j: int| 0 <= j < food@.len() ==> (#[trigger] food@[j]).xy != p,
        },
{
    let mut i: usize = 0;
    while i < food.len()
        invariant
            i <= food@.len(),
            forall|j: int| 0 <= j < i ==> (#[trigger] food@[j]).xy != p,
        decreases food@.len() - i,
    {
        if food[i].xy == p {
            return Some(i);
        }
        i = i + 1;
    }
    None
}

/// Whether `p` is on any of the given snakes' bodies.
fn any_snake_occupies(snakes: &Vec<Snake>, p: Point) -> (r: bool)
    ensures
        r == exists|i: int| 0 <= i < snakes@.len() && (#[trigger] snakes@[i]).body@.contains(p),
{
    let mut i: usize = 0;
    while i < snakes.len()
        invariant
            i <= snakes@.len(),
            forall|j: int| 0 <= j < i ==> !(#[trigger] snakes@[j]).body@.contains(p),
        decreases snakes@.len() - i,
    {
        if snakes[i].occupies(p) {
            return true;
        }
        i = i + 1;
    }
    false
}

/// Picks a uniformly random free cell for a spawn, retrying a bounded
/// number of times; gives up with `None` rather than looping forever on a
/// pathologically full board.
pub fn find_empty_cell(
    snakes: &Vec<Snake>,
    food: &Vec<Food>,
    walls: &Vec<Point>,
    iwalls: &Vec<Point>,
) -> (r: Option<Point>)
    ensures
        match r {
            Some(p) => in_bounds(p) && cell_free(snakes@, food@, walls@, iwalls@, p),
            None => true,
        },
{
    let mut tries: u32 = 0;
    while tries < SPAWN_RETRIES
        invariant
            tries <= SPAWN_RETRIES,
        decreases SPAWN_RETRIES - tries,
    {
        let x = rand_below(crate::geom::BOARD_WIDTH as u32);
        let y = rand_below(crate::geom::BOARD_HEIGHT as u32);
        let p = Point { x: x as i8, y: y as i8 };
        let taken = any_snake_occupies(snakes, p) || {
            let at = find_food_at(food, p);
            match at {
                Some(_) => true,
                None => false,
            }
        } || contains_point(walls, p) || contains_point(iwalls, p);
        if !taken {
            return Some(p);
        }
        tries = tries + 1;
    }
    None
}

/// Attempts to spawn one food of kind `k` if none is active: picks a free
/// cell and rolls the kind's spawn chance. Appends at most one fresh item.
pub fn maybe_spawn(
    food: &mut Vec<Food>,
    k: FoodType,
    snakes: &Vec<Snake>,
    walls: &Vec<Point>,
    iwalls: &Vec<Point>,
)
    ensures
        spawn_step_rel(old(food)@, final(food)@, k, snakes@, walls@, iwalls@),
        has_kind(old(food)@, k) ==> final(food)@ == old(food)@,
{
    if kind_present(food, k) {
        return ;
    }
    let xy_opt = find_empty_cell(snakes, food, walls, iwalls);
    match xy_opt {
        None => {},
        Some(xy) => {
            let roll = rand_below(100);
            match spawn_decision(k, xy, roll) {
                Some(f) => {
                    food.push(f);
                },
                None => {},
            }
        },
    }
}

/// Decides a spawn attempt from the rolled chance: a food of kind `k` at
/// `xy` comes into being exactly when the roll (uniform in 0..100) falls
/// below the kind's spawn percentage — always for an apple, one tick in a
/// hundred for a candy.
pub fn spawn_decision(k: FoodType, xy: Point, roll: u32) -> (r: Option<Food>)
    ensures
        r == (if roll < spec_spawn_percent(k) {
            Some(
                Food {
                    kind: k,
                    xy,
                    score: spec_food_score(k),
                    life_time: spec_food_lifetime(k),
                    lived_time: 0,
                },
            )
        } else {
            None
        }),
        roll < 100 && k == FoodType::Apple ==> r is Some,
{
    let percent: u32 = match k {
        FoodType::Apple => APPLE_SPAWN_PERCENT,
        FoodType::Candy => CANDY_SPAWN_PERCENT,
    };
    if roll < percent {
        let score: u32 = match k {
            FoodType::Apple => APPLE_SCORE,
            FoodType::Candy => CANDY_SCORE,
        };
        let life: u32 = match k {
            FoodType::Apple => APPLE_LIFETIME,
            FoodType::Candy => CANDY_LIFETIME,
        };
        Some(Food { kind: k, xy, score, life_time: life, lived_time: 0 })
    } else {
        None
    }
}

/// Ages every active food item by one tick.
pub fn age_all(food: &mut Vec<Food>)
    ensures
        final(food)@ == age_seq(old(food)@),
{
    let mut i: usize = 0;
    while i < food.len()
        invariant
            i <= food@.len(),
            food@.len() == old(food)@.len(),
            forall|j: int| 0 <= j < i ==> food@[j] == age1(#[trigger] old(food)@[j]),
            forall|j: int| i <= j < food@.len() ==> food@[j] == #[trigger] old(food)@[j],
        decreases food@.len() - i,
    {
        let f = food[i];
        let aged = if f.lived_time == u32::MAX {
            f.lived_time
        } else {
            f.lived_time + 1
        };
        food[i] = Food { lived_time: aged, ..f };
        i = i + 1;
    }
    assert(food@ =~= age_seq(old(food)@));
}

/// Removes the first expired food item, if any, by swapping the last item
/// into its place; at most one item is removed per tick. Returns the index
/// the removed item occupied.
pub fn remove_first_expired(food: &mut Vec<Food>) -> (r: Option<usize>)
    ensures
        match r {
            Some(i) => {
                &&& i < old(food)@.len()
                &&& is_expired(old(food)@[i as int])
                &&& forall|j: int| 0 <= j < i ==> !is_expired(#[trigger] old(food)@[j])
                &&& final(food)@ == old(food)@.update(i as int, old(food)@.last()).drop_last()
            },
            None => {
                &&& final(food)@ == old(food)@
                &&& forall|j: int| 0 <= j < old(food)@.len() ==> !is_expired(
                    #[trigger] old(food)@[j],
                )
            },
        },
        expiry_step_rel(old(food)@, final(food)@),
{
    let mut i: usize = 0;
    while i < food.len()
        invariant
            i <= food@.len(),
            food@ == old(food)@,
            forall|j: int| 0 <= j < i ==> !is_expired(#[trigger] old(food)@[j]),
        decreases food@.len() - i,
    {
        if food[i].lived_time > food[i].life_time {
            food.swap_remove(i);
            return Some(i);
        }
        i = i + 1;
    }
    None
}

/// One tick of the food manager, run after all snakes have moved: spawn an
/// apple if absent (always succeeds on a found free cell), spawn a candy if
/// absent (one percent chance), age every item, and remove the first
/// expired item. Keeps at most one apple and at most one candy active.
pub fn food_tick(
    food: &mut Vec<Food>,
    snakes: &Vec<Snake>,
    walls: &Vec<Point>,
    iwalls: &Vec<Point>,
)
    ensures
        food_tick_rel(old(food)@, final(food)@, snakes@, walls@, iwalls@),
        food_exclusive(old(food)@) ==> food_exclusive(final(food)@),
        food_in_bounds(old(food)@) ==> food_in_bounds(final(food)@),
{
    let ghost olds = food@;
    maybe_spawn(food, FoodType::Apple, snakes, walls, iwalls);
    let ghost mid1 = food@;
    maybe_spawn(food, FoodType::Candy, snakes, walls, iwalls);
    let ghost mid2 = food@;
    age_all(food);
    let ghost aged = food@;
    remove_first_expired(food);
    proof {
        assert(aged == age_seq(mid2));
        assert(spawn_step_rel(olds, mid1, FoodType::Apple, snakes@, walls@, iwalls@));
        assert(spawn_step_rel(mid1, mid2, FoodType::Candy, snakes@, walls@, iwalls@));
        assert(food_tick_rel(olds, food@, snakes@, walls@, iwalls@));
        if food_exclusive(olds) {
            lemma_spawn_keeps_exclusive(olds, mid1, FoodType::Apple, snakes@, walls@, iwalls@);
            lemma_spawn_keeps_exclusive(mid1, mid2, FoodType::Candy, snakes@, walls@, iwalls@);
            lemma_age_keeps_exclusive(mid2);
            lemma_expiry_keeps_exclusive(aged, food@);
        }
        if food_in_bounds(olds) {
            assert(food_in_bounds(mid1));
            assert(food_in_bounds(mid2));
            assert(food_in_bounds(aged));
            assert(food_in_bounds(food@));
        }
    }
}

} // verus!
