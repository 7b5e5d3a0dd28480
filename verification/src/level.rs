//! Level layouts: hand-authored wall patterns, invisible-wall markers, and
//! the two starting snakes, chosen at random per session.

use vstd::prelude::*;
use crate::geom::{Point, Dir, in_bounds};
use crate::snake::{Snake, snake_wf};
use crate::rng::rand_below;

verus! {

/// An immutable level blueprint: solid walls (lethal on contact),
/// invisible walls (non-lethal markers that only bias spawn placement),
/// and the two starting snakes. Consumed into session state at start or
/// restart.
pub struct Level {
    pub snakes: Vec<Snake>,
    pub walls: Vec<Point>,
    pub invisible_walls: Vec<Point>,
}

/// Starting body of the first snake, head first, vertically oriented.
pub open spec fn start_body_a() -> Seq<Point> {
    seq![Point { x: 2, y: 3 }, Point { x: 2, y: 2 }, Point { x: 2, y: 1 }]
}

/// Starting body of the second snake, head first, vertically oriented.
pub open spec fn start_body_b() -> Seq<Point> {
    seq![Point { x: 4, y: 3 }, Point { x: 4, y: 2 }, Point { x: 4, y: 1 }]
}

/// Walls of the first layout: a border with one gap in the middle of each
/// side, and a single block in the center.
pub open spec fn level1_walls() -> Seq<Point> {
    seq![
        Point { x: 1, y: 0 },
        Point { x: 2, y: 0 },
        Point { x: 3, y: 0 },
        Point { x: 4, y: 0 },
        Point { x: 5, y: 0 },
        Point { x: 6, y: 0 },
        Point { x: 8, y: 0 },
        Point { x: 9, y: 0 },
        Point { x: 10, y: 0 },
        Point { x: 11, y: 0 },
        Point { x: 12, y: 0 },
        Point { x: 13, y: 0 },
        Point { x: 14, y: 1 },
        Point { x: 14, y: 2 },
        Point { x: 14, y: 3 },
        Point { x: 14, y: 4 },
        Point { x: 14, y: 5 },
        Point { x: 14, y: 6 },
        Point { x: 14, y: 8 },
        Point { x: 14, y: 9 },
        Point { x: 14, y: 10 },
        Point { x: 14, y: 11 },
        Point { x: 14, y: 12 },
        Point { x: 14, y: 13 },
        Point { x: 1, y: 14 },
        Point { x: 2, y: 14 },
        Point { x: 3, y: 14 },
        Point { x: 4, y: 14 },
        Point { x: 5, y: 14 },
        Point { x: 6, y: 14 },
        Point { x: 8, y: 14 },
        Point { x: 9, y: 14 },
        Point { x: 10, y: 14 },
        Point { x: 11, y: 14 },
        Point { x: 12, y: 14 },
        Point { x: 13, y: 14 },
        Point { x: 0, y: 1 },
        Point { x: 0, y: 2 },
        Point { x: 0, y: 3 },
        Point { x: 0, y: 4 },
        Point { x: 0, y: 5 },
        Point { x: 0, y: 6 },
        Point { x: 0, y: 8 },
        Point { x: 0, y: 9 },
        Point { x: 0, y: 10 },
        Point { x: 0, y: 11 },
        Point { x: 0, y: 12 },
        Point { x: 0, y: 13 },
        Point { x: 7, y: 7 }
    ]
}

/// Invisible walls of the first layout: the four corners and the middle of
/// each side, keeping food away from the border gaps.
pub open spec fn level1_iwalls() -> Seq<Point> {
    seq![
        Point { x: 0, y: 0 },
        Point { x: 7, y: 0 },
        Point { x: 14, y: 0 },
        Point { x: 14, y: 7 },
        Point { x: 14, y: 14 },
        Point { x: 7, y: 14 },
        Point { x: 0, y: 14 },
        Point { x: 0, y: 7 }
    ]
}

/// Walls of the second layout: two diagonals crossing at the center and
/// one block in the middle of each side.
pub open spec fn level2_walls() -> Seq<Point> {
    seq![
        Point { x: 1, y: 1 },
        Point { x: 3, y: 3 },
        Point { x: 4, y: 4 },
        Point { x: 5, y: 5 },
        Point { x: 7, y: 7 },
        Point { x: 9, y: 9 },
        Point { x: 10, y: 10 },
        Point { x: 11, y: 11 },
        Point { x: 12, y: 12 },
        Point { x: 12, y: 2 },
        Point { x: 11, y: 3 },
        Point { x: 10, y: 4 },
        Point { x: 9, y: 5 },
        Point { x: 7, y: 7 },
        Point { x: 5, y: 9 },
        Point { x: 4, y: 10 },
        Point { x: 3, y: 11 },
        Point { x: 2, y: 12 },
        Point { x: 0, y: 7 },
        Point { x: 7, y: 0 },
        Point { x: 14, y: 7 },
        Point { x: 7, y: 14 }
    ]
}

/// A well-formed level: exactly two snakes, each a well-formed three-cell
/// body with an empty input queue and initially moving down; every wall and
/// invisible wall on the board; no snake cell on a wall; and the two
/// starting bodies disjoint.
pub open spec fn level_wf(l: Level) -> bool {
    &&& l.snakes@.len() == 2
    &&& forall|i: int| 0 <= i < l.snakes@.len() ==> snake_wf(#[trigger] l.snakes@[i])
    &&& forall|i: int| 0 <= i < l.snakes@.len() ==> (#[trigger] l.snakes@[i]).body@.len() == 3
    &&& forall|i: int| 0 <= i < l.snakes@.len() ==> (#[trigger] l.snakes@[i]).keys@.len() == 0
    &&& forall|i: int| 0 <= i < l.snakes@.len() ==> (#[trigger] l.snakes@[i]).last_dir == Dir::Down
    &&& forall|i: int| 0 <= i < l.walls@.len() ==> in_bounds(#[trigger] l.walls@[i])
    &&& forall|i: int| 0 <= i < l.invisible_walls@.len() ==> in_bounds(
        #[trigger] l.invisible_walls@[i],
    )
    &&& forall|si: int, bi: int|
        0 <= si < l.snakes@.len() && 0 <= bi < l.snakes@[si].body@.len() ==> !l.walls@.contains(
            #[trigger] l.snakes@[si].body@[bi],
        )
    &&& forall|bi: int, bj: int|
        0 <= bi < l.snakes@[0].body@.len() && 0 <= bj < l.snakes@[1].body@.len() ==> (
        #[trigger] l.snakes@[0].body@[bi]) != (#[trigger] l.snakes@[1].body@[bj])
}

/// The level equals the first catalog layout.
pub open spec fn is_level1(l: Level) -> bool {
    &&& l.walls@ == level1_walls()
    &&& l.invisible_walls@ == level1_iwalls()
    &&& is_start_snakes(l.snakes@)
}

/// The level equals the second catalog layout.
pub open spec fn is_level2(l: Level) -> bool {
    &&& l.walls@ == level2_walls()
    &&& l.invisible_walls@ == Seq::<Point>::empty()
    &&& is_start_snakes(l.snakes@)
}

/// Both snakes stand on their shared starting cells, queues empty, moving
/// down.
pub open spec fn is_start_snakes(s: Seq<Snake>) -> bool {
    &&& s.len() == 2
    &&& s[0].body@ == start_body_a()
    &&& s[1].body@ == start_body_b()
    &&& s[0].keys@ == Seq::<Dir>::empty()
    &&& s[1].keys@ == Seq::<Dir>::empty()
    &&& s[0].last_dir == Dir::Down
    &&& s[1].last_dir == Dir::Down
}

fn push_cell(v: &mut Vec<Point>, x: i8, y: i8)
    ensures
        final(v)@ == old(v)@.push(Point { x, y }),
{
    v.push(Point { x, y });
}

/// The two starting snakes shared by every layout.
fn start_snakes() -> (s: Vec<Snake>)
    ensures
        s@.len() == 2,
        s@[0].body@ == start_body_a(),
        s@[1].body@ == start_body_b(),
        s@[0].keys@ == Seq::<Dir>::empty(),
        s@[1].keys@ == Seq::<Dir>::empty(),
        s@[0].last_dir == Dir::Down,
        s@[1].last_dir == Dir::Down,
{
    let mut b1: Vec<Point> = Vec::new();
    push_cell(&mut b1, 2, 3);
    push_cell(&mut b1, 2, 2);
    push_cell(&mut b1, 2, 1);
    let mut b2: Vec<Point> = Vec::new();
    push_cell(&mut b2, 4, 3);
    push_cell(&mut b2, 4, 2);
    push_cell(&mut b2, 4, 1);
    proof {
        assert(b1@ =~= start_body_a());
        assert(b2@ =~= start_body_b());
    }
    let mut s: Vec<Snake> = Vec::new();
    s.push(Snake::new(b1, Dir::Down));
    s.push(Snake::new(b2, Dir::Down));
    s
}

/// A layout built of the common pieces is well formed, as long as no
/// starting cell lies on one of its walls.
proof fn lemma_start_level_wf(l: Level)
    requires
        is_start_snakes(l.snakes@),
        forall|i: int| 0 <= i < l.walls@.len() ==> in_bounds(#[trigger] l.walls@[i]),
        forall|i: int| 0 <= i < l.invisible_walls@.len() ==> in_bounds(
            #[trigger] l.invisible_walls@[i],
        ),
        !l.walls@.contains(Point { x: 2, y: 3 }),
        !l.walls@.contains(Point { x: 2, y: 2 }),
        !l.walls@.contains(Point { x: 2, y: 1 }),
        !l.walls@.contains(Point { x: 4, y: 3 }),
        !l.walls@.contains(Point { x: 4, y: 2 }),
        !l.walls@.contains(Point { x: 4, y: 1 }),
    ensures
        level_wf(l),
{
    assert forall|i: int| 0 <= i < l.snakes@.len() implies snake_wf(#[trigger] l.snakes@[i]) by {
        assert(forall|bi: int|
            0 <= bi < l.snakes@[0].body@.len() ==> in_bounds(#[trigger] l.snakes@[0].body@[bi]));
        assert(forall|bi: int|
            0 <= bi < l.snakes@[1].body@.len() ==> in_bounds(#[trigger] l.snakes@[1].body@[bi]));
    }
    assert forall|si: int, bi: int|
        0 <= si < l.snakes@.len() && 0 <= bi
            < l.snakes@[si].body@.len() implies !l.walls@.contains(
        #[trigger] l.snakes@[si].body@[bi],
    ) by {
        if si == 0 {
            assert(l.snakes@[0].body@[bi] == start_body_a()[bi]);
        } else {
            assert(l.snakes@[1].body@[bi] == start_body_b()[bi]);
        }
    }
}

/// Builds the first catalog layout.
#[verifier::rlimit(60)]
pub fn level1() -> (l: Level)
    ensures
        is_level1(l),
        level_wf(l),
{
    let mut w: Vec<Point> = Vec::new();
    push_cell(&mut w, 1, 0);
    push_cell(&mut w, 2, 0);
    push_cell(&mut w, 3, 0);
    push_cell(&mut w, 4, 0);
    push_cell(&mut w, 5, 0);
    push_cell(&mut w, 6, 0);
    push_cell(&mut w, 8, 0);
    push_cell(&mut w, 9, 0);
    push_cell(&mut w, 10, 0);
    push_cell(&mut w, 11, 0);
    push_cell(&mut w, 12, 0);
    push_cell(&mut w, 13, 0);
    push_cell(&mut w, 14, 1);
    push_cell(&mut w, 14, 2);
    push_cell(&mut w, 14, 3);
    push_cell(&mut w, 14, 4);
    push_cell(&mut w, 14, 5);
    push_cell(&mut w, 14, 6);
    push_cell(&mut w, 14, 8);
    push_cell(&mut w, 14, 9);
    push_cell(&mut w, 14, 10);
    push_cell(&mut w, 14, 11);
    push_cell(&mut w, 14, 12);
    push_cell(&mut w, 14, 13);
    push_cell(&mut w, 1, 14);
    push_cell(&mut w, 2, 14);
    push_cell(&mut w, 3, 14);
    push_cell(&mut w, 4, 14);
    push_cell(&mut w, 5, 14);
    push_cell(&mut w, 6, 14);
    push_cell(&mut w, 8, 14);
    push_cell(&mut w, 9, 14);
    push_cell(&mut w, 10, 14);
    push_cell(&mut w, 11, 14);
    push_cell(&mut w, 12, 14);
    push_cell(&mut w, 13, 14);
    push_cell(&mut w, 0, 1);
    push_cell(&mut w, 0, 2);
    push_cell(&mut w, 0, 3);
    push_cell(&mut w, 0, 4);
    push_cell(&mut w, 0, 5);
    push_cell(&mut w, 0, 6);
    push_cell(&mut w, 0, 8);
    push_cell(&mut w, 0, 9);
    push_cell(&mut w, 0, 10);
    push_cell(&mut w, 0, 11);
    push_cell(&mut w, 0, 12);
    push_cell(&mut w, 0, 13);
    push_cell(&mut w, 7, 7);
    let mut iw: Vec<Point> = Vec::new();
    push_cell(&mut iw, 0, 0);
    push_cell(&mut iw, 7, 0);
    push_cell(&mut iw, 14, 0);
    push_cell(&mut iw, 14, 7);
    push_cell(&mut iw, 14, 14);
    push_cell(&mut iw, 7, 14);
    push_cell(&mut iw, 0, 14);
    push_cell(&mut iw, 0, 7);
    proof {
        assert(w@ =~= level1_walls());
        assert(iw@ =~= level1_iwalls());
    }
    let l = Level { snakes: start_snakes(), walls: w, invisible_walls: iw };
    proof {
        lemma_start_level_wf(l);
    }
    l
}

/// Builds the second catalog layout.
#[verifier::rlimit(60)]
pub fn level2() -> (l: Level)
    ensures
        is_level2(l),
        level_wf(l),
{
    let mut w: Vec<Point> = Vec::new();
    push_cell(&mut w, 1, 1);
    push_cell(&mut w, 3, 3);
    push_cell(&mut w, 4, 4);
    push_cell(&mut w, 5, 5);
    push_cell(&mut w, 7, 7);
    push_cell(&mut w, 9, 9);
    push_cell(&mut w, 10, 10);
    push_cell(&mut w, 11, 11);
    push_cell(&mut w, 12, 12);
    push_cell(&mut w, 12, 2);
    push_cell(&mut w, 11, 3);
    push_cell(&mut w, 10, 4);
    push_cell(&mut w, 9, 5);
    push_cell(&mut w, 7, 7);
    push_cell(&mut w, 5, 9);
    push_cell(&mut w, 4, 10);
    push_cell(&mut w, 3, 11);
    push_cell(&mut w, 2, 12);
    push_cell(&mut w, 0, 7);
    push_cell(&mut w, 7, 0);
    push_cell(&mut w, 14, 7);
    push_cell(&mut w, 7, 14);
    let iw: Vec<Point> = Vec::new();
    proof {
        assert(w@ =~= level2_walls());
    }
    let l = Level { snakes: start_snakes(), walls: w, invisible_walls: iw };
    proof {
        lemma_start_level_wf(l);
    }
    l
}

/// Builds the catalog entry that a draw picks: the first layout for 0, the
/// second for anything else.
pub fn catalog(which: u32) -> (l: Level)
    ensures
        level_wf(l),
        which == 0 ==> is_level1(l),
        which != 0 ==> is_level2(l),
{
    if which == 0 {
        level1()
    } else {
        level2()
    }
}

/// Selects uniformly at random between the catalog layouts and builds the
/// chosen one. The result is always one of the catalog entries, well
/// formed. Pure construction apart from the random draw.
pub fn generate() -> (l: Level)
    ensures
        level_wf(l),
        is_level1(l) || is_level2(l),
{
    let which = rand_below(2);
    catalog(which)
}

} // verus!
