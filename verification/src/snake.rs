//! A snake: its body cells, its queue of buffered directions, and the last
//! direction it actually applied.

use vstd::prelude::*;
use crate::geom::{Point, Dir, in_bounds, contains_point};

verus! {

/// An abstract key identifier, as delivered by the input layer. The four
/// directional keys steer the snakes; `Pause` toggles pause and `Restart`
/// resets the session. Quitting is the driver's business, not the engine's.
#[derive(PartialEq, Eq, Structural, Copy, Clone, Debug)]
pub enum Key {
    Right,
    Down,
    Left,
    Up,
    Pause,
    Restart,
}

/// The direction a key stands for, if it is one of the four cardinal keys.
pub open spec fn spec_dir_of_key(k: Key) -> Option<Dir> {
    match k {
        Key::Right => Some(Dir::Right),
        Key::Down => Some(Dir::Down),
        Key::Left => Some(Dir::Left),
        Key::Up => Some(Dir::Up),
        Key::Pause => None,
        Key::Restart => None,
    }
}

/// One player's snake. The body holds the occupied cells in order, head at
/// index 0, tail at the end; `keys` is a FIFO queue of buffered directions,
/// front at index 0; `last_dir` is the direction most recently applied,
/// used to keep the snake moving when the queue runs dry.
#[derive(Debug)]
pub struct Snake {
    pub body: Vec<Point>,
    pub keys: Vec<Dir>,
    pub last_dir: Dir,
}

/// A living snake's well-formedness: the body is non-empty, every cell
/// lies on the board, and no cell appears twice.
pub open spec fn snake_wf(s: Snake) -> bool {
    &&& s.body@.len() > 0
    &&& forall|i: int| 0 <= i < s.body@.len() ==> in_bounds(#[trigger] s.body@[i])
    &&& forall|i: int, j: int|
        0 <= i < j < s.body@.len() ==> (#[trigger] s.body@[i]) != (#[trigger] s.body@[j])
}

/// The direction the snake will take on its next step: the front of the
/// queue, or the last applied direction when the queue is empty.
pub open spec fn spec_next_dir(s: Snake) -> Dir {
    if s.keys@.len() == 0 {
        s.last_dir
    } else {
        s.keys@[0]
    }
}

/// The queue left over after the next step dequeues one direction.
pub open spec fn spec_keys_after(s: Snake) -> Seq<Dir> {
    if s.keys@.len() == 0 {
        s.keys@
    } else {
        s.keys@.subrange(1, s.keys@.len() as int)
    }
}

impl Snake {
    /// A fresh snake with the given body, an empty input queue, and `d` as
    /// the direction it is already moving in.
    pub fn new(body: Vec<Point>, d: Dir) -> (s: Snake)
        ensures
            s.body@ == body@,
            s.keys@ == Seq::<Dir>::empty(),
            s.last_dir == d,
    {
        Snake { body, keys: Vec::new(), last_dir: d }
    }

    /// Appends the direction `k` stands for to the pending-direction queue
    /// if and only if `k` is one of the four cardinal keys; any other key is
    /// silently ignored. Players may queue several turns ahead of the tick.
    pub fn enqueue_direction(&mut self, k: Key)
        ensures
            match spec_dir_of_key(k) {
                Some(d) => final(self).keys@ == old(self).keys@.push(d),
                None => final(self).keys@ == old(self).keys@,
            },
            final(self).body@ == old(self).body@,
            final(self).last_dir == old(self).last_dir,
    {
        match k {
            Key::Right => self.keys.push(Dir::Right),
            Key::Down => self.keys.push(Dir::Down),
            Key::Left => self.keys.push(Dir::Left),
            Key::Up => self.keys.push(Dir::Up),
            Key::Pause => (),
            Key::Restart => (),
        }
    }

    /// Dequeues the direction for the coming step: the front of the queue,
    /// or the last applied direction when the queue is empty (momentum).
    /// The returned direction becomes the last applied one.
    pub fn next_direction(&mut self) -> (d: Dir)
        ensures
            d == spec_next_dir(*old(self)),
            final(self).keys@ == spec_keys_after(*old(self)),
            final(self).last_dir == d,
            final(self).body@ == old(self).body@,
    {
        if self.keys.len() == 0 {
            self.last_dir
        } else {
            let d = self.keys.remove(0);
            self.last_dir = d;
            d
        }
    }

    /// Whether `p` is one of the cells of this snake's body: the
    /// self-collision oracle.
    pub fn occupies(&self, p: Point) -> (r: bool)
        ensures
            r == self.body@.contains(p),
    {
        contains_point(&self.body, p)
    }
}

} // verus!
