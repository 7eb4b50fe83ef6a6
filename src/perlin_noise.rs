use rand::Rng;
use vstd::prelude::*;
use vstd::arithmetic::div_mod::{lemma_fundamental_div_mod, lemma_mod_multiples_vanish};

verus! {

/// Mathematical model of a gradient grid: its dimensions and the angle, in
/// degrees, stored for each cell in row-major order.
pub struct GridModel {
    pub width: int,
    pub height: int,
    pub angles: Seq<i32>,
}

impl GridModel {
    /// The grid's invariant: one angle per cell, and the cell count fits in
    /// an `i32`. Angles are degrees taken modulo 360: rotation may leave them
    /// outside `[0, 360)`.
    pub open spec fn wf(self) -> bool {
        &&& 0 <= self.width
        &&& 0 <= self.height
        &&& self.width * self.height <= i32::MAX
        &&& self.angles.len() == self.width * self.height
    }

    /// Row-major position of the cell at column `x`, row `y`.
    pub open spec fn cell_index(self, x: int, y: int) -> int {
        y * self.width + x
    }

    /// Whether the row-major position of `(x, y)` falls inside the stored grid.
    pub open spec fn has_cell(self, x: int, y: int) -> bool {
        0 <= self.cell_index(x, y) < self.angles.len()
    }

    /// The angle stored for the cell at `(x, y)`.
    pub open spec fn angle_at(self, x: int, y: int) -> i32 {
        self.angles[self.cell_index(x, y)]
    }

    /// The angles of the four corners `(x0, y0)`, `(x0 + 1, y0)`, `(x0, y0 + 1)`
    /// and `(x0 + 1, y0 + 1)` of the cell whose top-left corner is `(x0, y0)`,
    /// or `None` when one of them falls outside the stored grid.
    pub open spec fn corners(self, x0: int, y0: int) -> Option<(i32, i32, i32, i32)> {
        if self.has_cell(x0, y0) && self.has_cell(x0 + 1, y0) && self.has_cell(x0, y0 + 1)
            && self.has_cell(x0 + 1, y0 + 1) {
            Some(
                (
                    self.angle_at(x0, y0),
                    self.angle_at(x0 + 1, y0),
                    self.angle_at(x0, y0 + 1),
                    self.angle_at(x0 + 1, y0 + 1),
                ),
            )
        } else {
            None
        }
    }

    /// Whether every angle plus `delta` is still an `i32`.
    pub open spec fn can_turn(self, delta: int) -> bool {
        forall|i: int|
            0 <= i < self.angles.len() ==> i32::MIN <= #[trigger] self.angles[i] + delta <= i32::MAX
    }

    /// The grid after `delta` degrees have been added to every angle.
    pub open spec fn rotated(self, delta: int) -> GridModel {
        GridModel {
            width: self.width,
            height: self.height,
            angles: Seq::new(self.angles.len(), |i: int| (self.angles[i] + delta) as i32),
        }
    }
}

/// Relies on `rand::thread_rng` and `Rng::gen_range`: a value drawn from the
/// half-open range `0..360`, which is not empty, so the call does not panic.
#[verifier::external_body]
fn random_angle() -> (r: i32)
    ensures
        0 <= r < 360,
{
    rand::thread_rng().gen_range(0..360)
}

/// A grid of gradient directions, one angle in degrees per cell.
#[derive(Debug)]
pub struct PerlinMap {
    vec_map: Vec<i32>,
    width: i32,
    height: i32,
}

impl View for PerlinMap {
    type V = GridModel;

    closed spec fn view(&self) -> GridModel {
        GridModel { width: self.width as int, height: self.height as int, angles: self.vec_map@ }
    }
}

impl PerlinMap {
    /// The default 2x2 grid with angles 60, 45, 150 and 240 degrees.
    pub fn new() -> (r: Self)
        ensures
            r@.wf(),
            r@.width == 2,
            r@.height == 2,
            r@.angles == seq![60i32, 45, 150, 240],
    {
        let r = PerlinMap { vec_map: vec![60, 45, 150, 240], width: 2, height: 2 };
        assert(r.vec_map@ == seq![60i32, 45, 150, 240]);
        r
    }

    /// Replaces the grid by a `width` by `height` grid of angles drawn at
    /// random from `[0, 360)`.
    pub fn generate_vec_map(&mut self, width: i32, height: i32)
        requires
            0 <= width,
            0 <= height,
            width * height <= i32::MAX,
        ensures
            final(self)@.wf(),
            final(self)@.width == width,
            final(self)@.height == height,
            forall|i: int|
                0 <= i < final(self)@.angles.len() ==> 0 <= #[trigger] final(self)@.angles[i] < 360,
    {
        let count: i32 = width * height;
        let mut map: Vec<i32> = Vec::new();
        let mut n: i32 = 0;
        while n < count
            invariant
                0 <= n <= count,
                map@.len() == n,
                forall|i: int| 0 <= i < map@.len() ==> 0 <= #[trigger] map@[i] < 360,
            decreases count - n,
        {
            map.push(random_angle());
            n = n + 1;
        }
        self.width = width;
        self.height = height;
        self.vec_map = map;
    }

    /// Turns every gradient by `angle` degrees: `angle` is added to each
    /// stored angle, which is not reduced back into `[0, 360)`.
    pub fn rotate_vec_map(&mut self, angle: i32)
        requires
            old(self)@.can_turn(angle as int),
        ensures
            final(self)@ == old(self)@.rotated(angle as int),
            old(self)@.wf() ==> final(self)@.wf(),
    {
        let len = self.vec_map.len();
        let mut i: usize = 0;
        while i < len
            invariant
                0 <= i <= len,
                len == old(self).vec_map@.len(),
                self.vec_map@.len() == len,
                self.width == old(self).width,
                self.height == old(self).height,
                old(self)@.can_turn(angle as int),
                forall|j: int|
                    0 <= j < i ==> #[trigger] self.vec_map@[j] == old(self).vec_map@[j] + angle,
                forall|j: int| i <= j < len ==> #[trigger] self.vec_map@[j] == old(self).vec_map@[j],
            decreases len - i,
        {
            assert(old(self)@.angles[i as int] == self.vec_map@[i as int]);
            self.vec_map[i] = self.vec_map[i] + angle;
            i = i + 1;
        }
        assert(self@.angles =~= old(self)@.rotated(angle as int).angles);
    }

    /// The angle stored for the cell at column `x`, row `y`, found at
    /// row-major position `y * width + x`.
    pub fn gradient_angle(&self, x: i32, y: i32) -> (r: i32)
        requires
            self@.has_cell(x as int, y as int),
        ensures
            r == self@.angle_at(x as int, y as int),
    {
        let index: i64 = self.cell_position(x as i64, y as i64);
        let len: usize = self.vec_map.len();
        assert(index < len);
        self.vec_map[index as usize]
    }

    /// The storage position of row-major position `pos`, when the grid holds it.
    fn stored_index(&self, pos: i64) -> (r: Option<usize>)
        ensures
            r matches Some(i) ==> i == pos,
            r is Some <==> 0 <= pos < self@.angles.len(),
    {
        if pos >= 0 && (pos as u64) < (self.vec_map.len() as u64) {
            Some(pos as usize)
        } else {
            None
        }
    }

    /// Row-major position `y * width + x`, for coordinates that are within
    /// one cell of an `i32`.
    fn cell_position(&self, x: i64, y: i64) -> (r: i64)
        requires
            i32::MIN <= x <= i32::MAX + 1,
            i32::MIN <= y <= i32::MAX + 1,
        ensures
            r == self@.cell_index(x as int, y as int),
    {
        assert(-0x4000_0000_8000_0000 <= y * self.width <= 0x4000_0000_8000_0000) by (nonlinear_arith)
            requires
                i32::MIN <= y <= i32::MAX + 1,
                i32::MIN <= self.width <= i32::MAX,
        ;
        y * (self.width as i64) + x
    }

    /// The angles at the four corners of the cell whose top-left corner is
    /// `(x0, y0)`, in the order `(x0, y0)`, `(x0 + 1, y0)`, `(x0, y0 + 1)`,
    /// `(x0 + 1, y0 + 1)`; `None` when a corner lies outside the grid.
    pub fn corner_angles(&self, x0: i32, y0: i32) -> (r: Option<(i32, i32, i32, i32)>)
        ensures
            r == self@.corners(x0 as int, y0 as int),
    {
        let x1: i64 = x0 as i64 + 1;
        let y1: i64 = y0 as i64 + 1;
        let top_left = self.stored_index(self.cell_position(x0 as i64, y0 as i64));
        let top_right = self.stored_index(self.cell_position(x1, y0 as i64));
        let bottom_left = self.stored_index(self.cell_position(x0 as i64, y1));
        let bottom_right = self.stored_index(self.cell_position(x1, y1));
        match (top_left, top_right, bottom_left, bottom_right) {
            (Some(a), Some(b), Some(c), Some(d)) => Some(
                (self.vec_map[a], self.vec_map[b], self.vec_map[c], self.vec_map[d]),
            ),
            _ => None,
        }
    }

    /// Number of grid columns.
    pub fn width(&self) -> (r: i32)
        ensures
            r == self@.width,
    {
        self.width
    }

    /// Number of grid rows.
    pub fn height(&self) -> (r: i32)
        ensures
            r == self@.height,
    {
        self.height
    }
}

/// A rotation by a whole number of turns keeps every gradient direction:
/// each stored angle changes by that many turns, and its value modulo 360,
/// which fixes its cosine and sine, stays as it was.
pub proof fn lemma_full_turn_keeps_gradients(m: PerlinMap, delta: i32)
    requires
        m@.can_turn(delta as int),
        delta % 360 == 0,
    ensures
        m@.rotated(delta as int).angles.len() == m@.angles.len(),
        forall|i: int|
            0 <= i < m@.angles.len() ==> #[trigger] m@.rotated(delta as int).angles[i]
                == m@.angles[i] + delta,
        forall|i: int|
            0 <= i < m@.angles.len() ==> #[trigger] m@.rotated(delta as int).angles[i] % 360
                == m@.angles[i] % 360,
{
    let after = m@.rotated(delta as int);
    lemma_fundamental_div_mod(delta as int, 360);
    assert forall|i: int| 0 <= i < m@.angles.len() implies #[trigger] after.angles[i]
        == m@.angles[i] + delta && after.angles[i] % 360 == m@.angles[i] % 360 by {
        lemma_mod_multiples_vanish(delta / 360, m@.angles[i] as int, 360);
    }
}

/// Horizontally and vertically adjacent cells read the same gradients at the
/// corners they share, so both cells see the same contributions on their
/// common edge.
pub proof fn lemma_adjacent_cells_share_corners(m: PerlinMap, x0: int, y0: int)
    ensures
        m@.corners(x0, y0) is Some && m@.corners(x0 + 1, y0) is Some ==> {
            let (here, right) = (m@.corners(x0, y0)->0, m@.corners(x0 + 1, y0)->0);
            here.1 == right.0 && here.3 == right.2
        },
        m@.corners(x0, y0) is Some && m@.corners(x0, y0 + 1) is Some ==> {
            let (here, below) = (m@.corners(x0, y0)->0, m@.corners(x0, y0 + 1)->0);
            here.2 == below.0 && here.3 == below.1
        },
{
}

} // verus!
