//! The game session: the two snakes, walls, food, score, timing, and the
//! top-level state machine, driven one fixed-timestep tick at a time.

use vstd::prelude::*;
use crate::geom::{Point, in_bounds, spec_advance, advance, contains_point};
use crate::snake::{Snake, Key, snake_wf, spec_next_dir, spec_keys_after, spec_dir_of_key};
use crate::food::{
    Food,
    FoodType,
    food_tick_rel,
    food_exclusive,
    food_in_bounds,
    food_tick,
    find_food_at,
    first_food_at,
    lemma_first_food_at_some,
    lemma_first_food_at_none,
    lemma_swap_remove_exclusive,
    lemma_swap_remove_in_bounds,
};
use crate::level::{
    generate,
    is_start_snakes,
    level1_walls,
    level1_iwalls,
    level2_walls,
};

verus! {

/// Base tick interval in milliseconds: the session advances one simulation
/// step each time this much game time has accumulated.
pub const TICK_MILLIS: u32 = 150;

/// How many milliseconds the tick interval shrinks per food eaten, speeding
/// the game up as a reward.
pub const SPEEDUP_MILLIS: u32 = 2;

/// The top-level session state.
#[derive(PartialEq, Eq, Structural, Copy, Clone, Debug)]
pub enum State {
    Playing,
    Paused,
    GameOver,
}

/// What a candidate head cell means for the snake moving into it.
#[derive(PartialEq, Eq, Structural, Copy, Clone, Debug)]
pub enum Vitality {
    Alive,
    Dead,
}

/// What a tile to draw stands for.
#[derive(PartialEq, Eq, Structural, Copy, Clone, Debug)]
pub enum TileKind {
    Wall,
    SnakeBody,
    Food(FoodType),
}

/// One colored tile for the renderer: where it sits, what it stands for,
/// and whether it is currently visible (food blinks near expiry).
#[derive(PartialEq, Eq, Structural, Copy, Clone, Debug)]
pub struct Tile {
    pub pos: Point,
    pub kind: TileKind,
    pub visible: bool,
}

/// `a + b`, saturating at the largest value.
pub open spec fn sat_add32(a: u32, b: u32) -> u32 {
    if a + b > u32::MAX {
        u32::MAX
    } else {
        (a + b) as u32
    }
}

/// The tick interval after one speed-up, stopping at zero.
pub open spec fn dec_interval(t: u32) -> u32 {
    if t >= SPEEDUP_MILLIS {
        (t - SPEEDUP_MILLIS) as u32
    } else {
        0
    }
}

/// The candidate next head cell of a snake: one step from its head in the
/// direction it will take.
pub open spec fn spec_cand(s: Snake) -> Point {
    spec_advance(s.body@[0], spec_next_dir(s))
}

/// Whether the snake's next step is lethal: its candidate head cell lies on
/// a wall or on its own pre-move body. Contact with the other snake's body
/// is deliberately not lethal in this two-player variant.
pub open spec fn spec_lethal(s: Snake, walls: Seq<Point>) -> bool {
    walls.contains(spec_cand(s)) || s.body@.contains(spec_cand(s))
}

/// The snake's body after its step: unchanged if the step is lethal;
/// otherwise the candidate cell becomes the head, and the tail cell is kept
/// exactly when food sat on the candidate cell (net growth of one).
pub open spec fn spec_body_after_step(s: Snake, walls: Seq<Point>, food: Seq<Food>) -> Seq<Point> {
    if spec_lethal(s, walls) {
        s.body@
    } else if first_food_at(food, spec_cand(s)) >= 0 {
        seq![spec_cand(s)] + s.body@
    } else {
        seq![spec_cand(s)] + s.body@.drop_last()
    }
}

/// The food list after the snake's step: the first item on the candidate
/// cell is eaten — removed by swapping the last item into its place — and
/// nothing else changes.
pub open spec fn spec_food_after_step(s: Snake, walls: Seq<Point>, food: Seq<Food>) -> Seq<Food> {
    if spec_lethal(s, walls) {
        food
    } else {
        let i = first_food_at(food, spec_cand(s));
        if i >= 0 {
            food.update(i, food.last()).drop_last()
        } else {
            food
        }
    }
}

/// The score after the snake's step: raised by the eaten item's value.
pub open spec fn spec_score_after_step(
    s: Snake,
    walls: Seq<Point>,
    food: Seq<Food>,
    score: u32,
) -> u32 {
    if spec_lethal(s, walls) {
        score
    } else {
        let i = first_food_at(food, spec_cand(s));
        if i >= 0 {
            sat_add32(score, food[i].score)
        } else {
            score
        }
    }
}

/// The tick interval after the snake's step: one speed-up per eaten item.
pub open spec fn spec_interval_after_step(
    s: Snake,
    walls: Seq<Point>,
    food: Seq<Food>,
    t: u32,
) -> u32 {
    if spec_lethal(s, walls) {
        t
    } else {
        let i = first_food_at(food, spec_cand(s));
        if i >= 0 {
            dec_interval(t)
        } else {
            t
        }
    }
}

/// Classifies a candidate head cell: `Dead` exactly when it matches a wall
/// tile or a cell of the snake's own pre-move body, `Alive` otherwise.
pub fn classify(candidate: Point, walls: &Vec<Point>, snake: &Snake) -> (r: Vitality)
    ensures
        (r == Vitality::Dead) <==> (walls@.contains(candidate) || snake.body@.contains(candidate)),
{
    if contains_point(walls, candidate) || snake.occupies(candidate) {
        Vitality::Dead
    } else {
        Vitality::Alive
    }
}

/// Advances one snake by one tick: dequeue its direction, compute the
/// candidate head with wraparound, classify it; a dead snake does not move
/// at all this step, a living one eats any food on the candidate cell
/// (growing by one, scoring, and speeding the game up) and then moves.
pub fn step_snake(
    snake: &mut Snake,
    walls: &Vec<Point>,
    food: &mut Vec<Food>,
    score: &mut u32,
    update_time: &mut u32,
) -> (dead: bool)
    requires
        snake_wf(*old(snake)),
    ensures
        dead == spec_lethal(*old(snake), walls@),
        snake_wf(*final(snake)),
        final(snake).last_dir == spec_next_dir(*old(snake)),
        final(snake).keys@ == spec_keys_after(*old(snake)),
        final(snake).body@ == spec_body_after_step(*old(snake), walls@, old(food)@),
        final(food)@ == spec_food_after_step(*old(snake), walls@, old(food)@),
        *final(score) == spec_score_after_step(*old(snake), walls@, old(food)@, *old(score)),
        *final(update_time) == spec_interval_after_step(
            *old(snake),
            walls@,
            old(food)@,
            *old(update_time),
        ),
        final(food)@ == old(food)@ || exists|i: int|
            0 <= i < old(food)@.len() && final(food)@ == #[trigger] old(food)@.update(
                i,
                old(food)@.last(),
            ).drop_last(),
        *final(score) >= *old(score),
        *final(update_time) <= *old(update_time),
{
    let d = snake.next_direction();
    let head = snake.body[0];
    let cand = advance(head, d);
    match classify(cand, walls, snake) {
        Vitality::Dead => true,
        Vitality::Alive => {
            match find_food_at(food, cand) {
                Some(i) => {
                    proof {
                        lemma_first_food_at_some(food@, cand, i as int);
                    }
                    let f = food.swap_remove(i);
                    *score = (*score).saturating_add(f.score);
                    let tail_dup = snake.body[snake.body.len() - 1];
                    snake.body.push(tail_dup);
                    if *update_time >= SPEEDUP_MILLIS {
                        *update_time = *update_time - SPEEDUP_MILLIS;
                    } else {
                        *update_time = 0;
                    }
                    proof {
                        assert(snake.body@.drop_last() =~= old(snake).body@);
                    }
                },
                None => {
                    proof {
                        lemma_first_food_at_none(food@, cand);
                    }
                },
            }
            snake.body.pop();
            snake.body.insert(0, cand);
            proof {
                assert(snake.body@ =~= seq![cand] + snake.body@.subrange(
                    1,
                    snake.body@.len() as int,
                ));
            }
            false
        },
    }
}

/// The whole session: snakes, walls, active food, score, accumulated time,
/// the current tick interval, and the state machine.
pub struct Game {
    pub snakes: Vec<Snake>,
    pub time: u32,
    pub update_time: u32,
    pub state: State,
    pub walls: Vec<Point>,
    pub invisible_walls: Vec<Point>,
    pub food: Vec<Food>,
    pub score: u32,
}

/// A freshly started or restarted session: playing, unscored, at the base
/// tick interval, with no food yet and the starting snakes of one of the
/// catalog layouts.
pub open spec fn fresh_session(g: Game) -> bool {
    &&& g.state == State::Playing
    &&& g.score == 0
    &&& g.time == TICK_MILLIS
    &&& g.update_time == TICK_MILLIS
    &&& g.food@ == Seq::<Food>::empty()
    &&& is_start_snakes(g.snakes@)
    &&& {
        ||| (g.walls@ == level1_walls() && g.invisible_walls@ == level1_iwalls())
        ||| (g.walls@ == level2_walls() && g.invisible_walls@ == Seq::<Point>::empty())
    }
}

impl Game {
    /// The session invariant: exactly two well-formed snakes, at most one
    /// apple and one candy, and every food, wall, and invisible wall on the
    /// board.
    pub open spec fn wf(self) -> bool {
        &&& self.snakes@.len() == 2
        &&& snake_wf(self.snakes@[0])
        &&& snake_wf(self.snakes@[1])
        &&& food_exclusive(self.food@)
        &&& food_in_bounds(self.food@)
        &&& forall|i: int| 0 <= i < self.walls@.len() ==> in_bounds(#[trigger] self.walls@[i])
        &&& forall|i: int|
            0 <= i < self.invisible_walls@.len() ==> in_bounds(
                #[trigger] self.invisible_walls@[i],
            )
    }

    /// Starts a new session on a randomly chosen catalog level.
    pub fn new() -> (g: Game)
        ensures
            g.wf(),
            fresh_session(g),
    {
        let l = generate();
        Game {
            snakes: l.snakes,
            time: TICK_MILLIS,
            update_time: TICK_MILLIS,
            state: State::Playing,
            walls: l.walls,
            invisible_walls: l.invisible_walls,
            food: Vec::new(),
            score: 0,
        }
    }

    /// Runs exactly one discrete simulation step: each snake in fixed order
    /// dequeues a direction, moves or is counted dead this step, and eats;
    /// then the food manager spawns, ages, and expires food. If every snake
    /// died this step the session becomes `GameOver`.
    #[verifier::rlimit(100)]
    pub fn tick(&mut self)
        requires
            old(self).wf(),
            old(self).state == State::Playing,
        ensures
            final(self).wf(),
            final(self).time == old(self).time,
            final(self).walls@ == old(self).walls@,
            final(self).invisible_walls@ == old(self).invisible_walls@,
            final(self).state == (if spec_lethal(old(self).snakes@[0], old(self).walls@)
                && spec_lethal(old(self).snakes@[1], old(self).walls@) {
                State::GameOver
            } else {
                State::Playing
            }),
            final(self).score >= old(self).score,
            final(self).update_time <= old(self).update_time,
            final(self).snakes@.len() == 2,
            final(self).snakes@[0].keys@ == spec_keys_after(old(self).snakes@[0]),
            final(self).snakes@[1].keys@ == spec_keys_after(old(self).snakes@[1]),
            final(self).snakes@[0].last_dir == spec_next_dir(old(self).snakes@[0]),
            final(self).snakes@[1].last_dir == spec_next_dir(old(self).snakes@[1]),
            ({
                let w = old(self).walls@;
                let f0 = old(self).food@;
                let sa = old(self).snakes@[0];
                let sb = old(self).snakes@[1];
                let f1 = spec_food_after_step(sa, w, f0);
                let f2 = spec_food_after_step(sb, w, f1);
                &&& final(self).snakes@[0].body@ == spec_body_after_step(sa, w, f0)
                &&& final(self).snakes@[1].body@ == spec_body_after_step(sb, w, f1)
                &&& final(self).score == spec_score_after_step(
                    sb,
                    w,
                    f1,
                    spec_score_after_step(sa, w, f0, old(self).score),
                )
                &&& final(self).update_time == spec_interval_after_step(
                    sb,
                    w,
                    f1,
                    spec_interval_after_step(sa, w, f0, old(self).update_time),
                )
                &&& food_tick_rel(
                    f2,
                    final(self).food@,
                    final(self).snakes@,
                    w,
                    old(self).invisible_walls@,
                )
            }),
    {
        let ghost snakes0 = old(self).snakes@;
        let mut s0 = self.snakes.remove(0);
        proof {
            assert(s0 == snakes0[0]);
            assert(self.snakes@ =~= snakes0.subrange(1, 2));
        }
        let dead0 = step_snake(
            &mut s0,
            &self.walls,
            &mut self.food,
            &mut self.score,
            &mut self.update_time,
        );
        let ghost food_a = self.food@;
        let mut s1 = self.snakes.remove(0);
        proof {
            assert(s1 == snakes0[1]);
        }
        let dead1 = step_snake(
            &mut s1,
            &self.walls,
            &mut self.food,
            &mut self.score,
            &mut self.update_time,
        );
        let ghost food_b = self.food@;
        self.snakes.push(s0);
        self.snakes.push(s1);
        proof {
            assert(self.snakes@.len() == 2);
            assert(self.snakes@[0] == s0);
            assert(self.snakes@[1] == s1);
        }
        if dead0 && dead1 {
            self.state = State::GameOver;
        }
        proof {
            if food_a != old(self).food@ {
                let i = choose|i: int|
                    0 <= i < old(self).food@.len() && food_a == #[trigger] old(self).food@.update(
                        i,
                        old(self).food@.last(),
                    ).drop_last();
                lemma_swap_remove_exclusive(old(self).food@, i);
                lemma_swap_remove_in_bounds(old(self).food@, i);
            }
            if food_b != food_a {
                let i = choose|i: int|
                    0 <= i < food_a.len() && food_b == #[trigger] food_a.update(
                        i,
                        food_a.last(),
                    ).drop_last();
                lemma_swap_remove_exclusive(food_a, i);
                lemma_swap_remove_in_bounds(food_a, i);
            }
        }
        food_tick(&mut self.food, &self.snakes, &self.walls, &self.invisible_walls);
    }

    /// Accumulates `dt_ms` milliseconds of elapsed time and, once the
    /// accumulated time exceeds the tick interval, subtracts one interval
    /// (keeping the fractional overshoot) and runs exactly one simulation
    /// step. A no-op while paused or after game over.
    pub fn update(&mut self, dt_ms: u32)
        requires
            old(self).wf(),
        ensures
            final(self).wf(),
            old(self).state == State::Paused ==> *final(self) == *old(self),
            old(self).state == State::GameOver ==> *final(self) == *old(self),
            old(self).state == State::Playing && sat_add32(old(self).time, dt_ms)
                <= old(self).update_time ==> *final(self) == (Game {
                time: sat_add32(old(self).time, dt_ms),
                ..*old(self)
            }),
            old(self).state == State::Playing && sat_add32(old(self).time, dt_ms)
                > old(self).update_time ==> final(self).time == sat_add32(old(self).time, dt_ms)
                - old(self).update_time,
            old(self).state == State::Playing && sat_add32(old(self).time, dt_ms)
                > old(self).update_time ==> final(self).state == (if spec_lethal(
                old(self).snakes@[0],
                old(self).walls@,
            ) && spec_lethal(old(self).snakes@[1], old(self).walls@) {
                State::GameOver
            } else {
                State::Playing
            }),
            old(self).state == State::Playing && sat_add32(old(self).time, dt_ms)
                > old(self).update_time ==> ({
                let w = old(self).walls@;
                let f0 = old(self).food@;
                let sa = old(self).snakes@[0];
                let sb = old(self).snakes@[1];
                let f1 = spec_food_after_step(sa, w, f0);
                let f2 = spec_food_after_step(sb, w, f1);
                &&& final(self).snakes@.len() == 2
                &&& final(self).snakes@[0].keys@ == spec_keys_after(sa)
                &&& final(self).snakes@[1].keys@ == spec_keys_after(sb)
                &&& final(self).snakes@[0].last_dir == spec_next_dir(sa)
                &&& final(self).snakes@[1].last_dir == spec_next_dir(sb)
                &&& final(self).snakes@[0].body@ == spec_body_after_step(sa, w, f0)
                &&& final(self).snakes@[1].body@ == spec_body_after_step(sb, w, f1)
                &&& final(self).score == spec_score_after_step(
                    sb,
                    w,
                    f1,
                    spec_score_after_step(sa, w, f0, old(self).score),
                )
                &&& final(self).update_time == spec_interval_after_step(
                    sb,
                    w,
                    f1,
                    spec_interval_after_step(sa, w, f0, old(self).update_time),
                )
                &&& food_tick_rel(
                    f2,
                    final(self).food@,
                    final(self).snakes@,
                    w,
                    old(self).invisible_walls@,
                )
            }),
            old(self).state == State::Playing ==> (final(self).state == State::Playing
                || final(self).state == State::GameOver),
            final(self).walls@ == old(self).walls@,
            final(self).invisible_walls@ == old(self).invisible_walls@,
            final(self).update_time <= old(self).update_time,
            final(self).score >= old(self).score,
    {
        match self.state {
            State::Paused => {
                return ;
            },
            State::GameOver => {
                return ;
            },
            State::Playing => {},
        }
        self.time = self.time.saturating_add(dt_ms);
        if self.time > self.update_time {
            self.time = self.time - self.update_time;
            self.tick();
        }
    }

    /// Handles one abstract key press: restart rebuilds the whole session
    /// from a freshly generated level; pause toggles between playing and
    /// paused; a directional key is forwarded to every snake's input queue
    /// (harmless after game over, where gameplay is frozen).
    pub fn key_press(&mut self, k: Key)
        requires
            old(self).wf(),
        ensures
            final(self).wf(),
            k == Key::Restart ==> fresh_session(*final(self)),
            k == Key::Pause ==> *final(self) == (match old(self).state {
                State::Playing => Game { state: State::Paused, ..*old(self) },
                State::Paused => Game { state: State::Playing, ..*old(self) },
                State::GameOver => *old(self),
            }),
            spec_dir_of_key(k) is Some ==> {
                let d = spec_dir_of_key(k)->Some_0;
                &&& final(self).snakes@.len() == 2
                &&& final(self).snakes@[0].keys@ == old(self).snakes@[0].keys@.push(d)
                &&& final(self).snakes@[1].keys@ == old(self).snakes@[1].keys@.push(d)
                &&& final(self).snakes@[0].body@ == old(self).snakes@[0].body@
                &&& final(self).snakes@[1].body@ == old(self).snakes@[1].body@
                &&& final(self).snakes@[0].last_dir == old(self).snakes@[0].last_dir
                &&& final(self).snakes@[1].last_dir == old(self).snakes@[1].last_dir
                &&& final(self).state == old(self).state
                &&& final(self).score == old(self).score
                &&& final(self).time == old(self).time
                &&& final(self).update_time == old(self).update_time
                &&& final(self).walls@ == old(self).walls@
                &&& final(self).invisible_walls@ == old(self).invisible_walls@
                &&& final(self).food@ == old(self).food@
            },
    {
        match k {
            Key::Restart => {
                let l = generate();
                self.snakes = l.snakes;
                self.state = State::Playing;
                self.time = TICK_MILLIS;
                self.update_time = TICK_MILLIS;
                self.walls = l.walls;
                self.invisible_walls = l.invisible_walls;
                self.food = Vec::new();
                self.score = 0;
            },
            Key::Pause => {
                match self.state {
                    State::Playing => {
                        self.state = State::Paused;
                    },
                    State::Paused => {
                        self.state = State::Playing;
                    },
                    State::GameOver => {},
                }
            },
            Key::Right | Key::Down | Key::Left | Key::Up => {
                let mut s0 = self.snakes.remove(0);
                s0.enqueue_direction(k);
                let mut s1 = self.snakes.remove(0);
                s1.enqueue_direction(k);
                self.snakes.push(s0);
                self.snakes.push(s1);
            },
        }
    }
}

/// The tile drawn for an active food item.
pub open spec fn food_tile(f: Food) -> Tile {
    Tile { pos: f.xy, kind: TileKind::Food(f.kind), visible: f.spec_visible() }
}

/// The tile drawn for one snake body cell.
pub open spec fn snake_tile(p: Point) -> Tile {
    Tile { pos: p, kind: TileKind::SnakeBody, visible: true }
}

/// The tile drawn for one wall cell.
pub open spec fn wall_tile(p: Point) -> Tile {
    Tile { pos: p, kind: TileKind::Wall, visible: true }
}

/// The tiles for the active food items, in list order.
pub open spec fn food_tiles(s: Seq<Food>) -> Seq<Tile> {
    Seq::new(s.len(), |i: int| food_tile(s[i]))
}

/// The tiles for one snake's body cells, head first.
pub open spec fn snake_tiles(s: Snake) -> Seq<Tile> {
    Seq::new(s.body@.len(), |i: int| snake_tile(s.body@[i]))
}

/// The tiles for the wall cells, in layout order.
pub open spec fn wall_tiles(s: Seq<Point>) -> Seq<Tile> {
    Seq::new(s.len(), |i: int| wall_tile(s[i]))
}

/// Everything the renderer draws for a session, in draw order: food, then
/// the two snakes, then walls. After game over the board is blank.
pub open spec fn spec_tiles(g: Game) -> Seq<Tile> {
    if g.state == State::GameOver {
        Seq::<Tile>::empty()
    } else {
        food_tiles(g.food@) + snake_tiles(g.snakes@[0]) + snake_tiles(g.snakes@[1]) + wall_tiles(
            g.walls@,
        )
    }
}

impl Game {
    /// The list of colored tiles to draw this frame, read-only: active food
    /// (with its blink flag), both snakes' bodies, and the walls. Invisible
    /// walls are never drawn; after game over nothing is.
    pub fn tiles_to_draw(&self) -> (r: Vec<Tile>)
        requires
            self.wf(),
        ensures
            r@ == spec_tiles(*self),
    {
        let mut r: Vec<Tile> = Vec::new();
        match self.state {
            State::GameOver => {
                return r;
            },
            _ => {},
        }
        let ghost target = spec_tiles(*self);
        let ghost nf = self.food@.len() as int;
        let ghost nb0 = self.snakes@[0].body@.len() as int;
        let ghost nb1 = self.snakes@[1].body@.len() as int;
        let ghost nw = self.walls@.len() as int;
        proof {
            assert(target.len() == nf + nb0 + nb1 + nw);
        }
        let mut i: usize = 0;
        while i < self.food.len()
            invariant
                i <= self.food@.len(),
                nf == self.food@.len() as int,
                target == spec_tiles(*self),
                self.state != State::GameOver,
                r@.len() == i,
                forall|j: int| 0 <= j < i ==> r@[j] == #[trigger] target[j],
            decreases self.food@.len() - i,
        {
            let f = self.food[i];
            let v = f.is_visible();
            proof {
                assert(target[i as int] == food_tile(self.food@[i as int]));
            }
            r.push(Tile { pos: f.xy, kind: TileKind::Food(f.kind), visible: v });
            i = i + 1;
        }
        let s0 = &self.snakes[0];
        let mut i: usize = 0;
        while i < s0.body.len()
            invariant
                i <= s0.body@.len(),
                *s0 == self.snakes@[0],
                nf == self.food@.len() as int,
                target == spec_tiles(*self),
                self.state != State::GameOver,
                r@.len() == nf + i,
                forall|j: int| 0 <= j < r@.len() ==> r@[j] == #[trigger] target[j],
            decreases s0.body@.len() - i,
        {
            proof {
                assert(target[nf + i] == snake_tile(self.snakes@[0].body@[i as int]));
            }
            r.push(Tile { pos: s0.body[i], kind: TileKind::SnakeBody, visible: true });
            i = i + 1;
        }
        let s1 = &self.snakes[1];
        let mut i: usize = 0;
        while i < s1.body.len()
            invariant
                i <= s1.body@.len(),
                *s1 == self.snakes@[1],
                nf == self.food@.len() as int,
                nb0 == self.snakes@[0].body@.len() as int,
                target == spec_tiles(*self),
                self.state != State::GameOver,
                r@.len() == nf + nb0 + i,
                forall|j: int| 0 <= j < r@.len() ==> r@[j] == #[trigger] target[j],
            decreases s1.body@.len() - i,
        {
            proof {
                assert(target[nf + nb0 + i] == snake_tile(self.snakes@[1].body@[i as int]));
            }
            r.push(Tile { pos: s1.body[i], kind: TileKind::SnakeBody, visible: true });
            i = i + 1;
        }
        let mut i: usize = 0;
        while i < self.walls.len()
            invariant
                i <= self.walls@.len(),
                nf == self.food@.len() as int,
                nb0 == self.snakes@[0].body@.len() as int,
                nb1 == self.snakes@[1].body@.len() as int,
                target == spec_tiles(*self),
                self.state != State::GameOver,
                r@.len() == nf + nb0 + nb1 + i,
                forall|j: int| 0 <= j < r@.len() ==> r@[j] == #[trigger] target[j],
            decreases self.walls@.len() - i,
        {
            proof {
                assert(target[nf + nb0 + nb1 + i] == wall_tile(self.walls@[i as int]));
            }
            r.push(Tile { pos: self.walls[i], kind: TileKind::Wall, visible: true });
            i = i + 1;
        }
        proof {
            assert(r@ =~= target);
        }
        r
    }
}

} // verus!
