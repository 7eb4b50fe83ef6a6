use vstd::prelude::*;
use vstd::arithmetic::div_mod::lemma_fundamental_div_mod_converse;

verus! {

/// Column and row of lattice point `i` in a lattice `w` points wide, the
/// points being numbered row by row.
pub open spec fn lattice_point(w: int, i: int) -> (i32, i32) {
    ((i % w) as i32, (i / w) as i32)
}

/// Number of triangles in a lattice of `h` rows and `w` columns of points:
/// two for each cell that is not in the last row or column of points.
pub open spec fn triangle_count_of(h: int, w: int) -> int {
    2 * (h - 1) * (w - 1)
}

/// Top-left lattice point of interior cell `k`, the `(h - 1) * (w - 1)`
/// interior cells being numbered row by row.
pub open spec fn cell_origin(w: int, k: int) -> int {
    (k / (w - 1)) * w + k % (w - 1)
}

/// Entry `j` of the index buffer. Each interior cell contributes six entries:
/// the triangles (top left, bottom left, bottom right) and
/// (top left, bottom right, top right).
pub open spec fn mesh_index(w: int, j: int) -> int {
    let top_left = cell_origin(w, j / 6);
    let slot = j % 6;
    if slot == 0 || slot == 3 {
        top_left
    } else if slot == 1 {
        top_left + w
    } else if slot == 2 || slot == 4 {
        top_left + w + 1
    } else {
        top_left + 1
    }
}

/// The lattice points of a `plain_h` by `plain_w` patch, as (column, row)
/// pairs in row-major order.
pub fn lattice_points(plain_h: i32, plain_w: i32) -> (r: Vec<(i32, i32)>)
    requires
        0 <= plain_h,
        0 <= plain_w,
        plain_h * plain_w <= i32::MAX,
    ensures
        r@.len() == plain_h * plain_w,
        forall|i: int| 0 <= i < r@.len() ==> #[trigger] r@[i] == lattice_point(plain_w as int, i),
{
    let mut points: Vec<(i32, i32)> = Vec::new();
    let mut row: i32 = 0;
    while row < plain_h
        invariant
            0 <= row <= plain_h,
            0 <= plain_w,
            plain_h * plain_w <= i32::MAX,
            points@.len() == row * plain_w,
            forall|i: int|
                0 <= i < points@.len() ==> #[trigger] points@[i] == lattice_point(plain_w as int, i),
        decreases plain_h - row,
    {
        let mut col: i32 = 0;
        while col < plain_w
            invariant
                0 <= row < plain_h,
                0 <= col <= plain_w,
                plain_h * plain_w <= i32::MAX,
                points@.len() == row * plain_w + col,
                forall|i: int|
                    0 <= i < points@.len() ==> #[trigger] points@[i] == lattice_point(
                        plain_w as int,
                        i,
                    ),
            decreases plain_w - col,
        {
            proof {
                lemma_fundamental_div_mod_converse(
                    row * plain_w + col,
                    plain_w as int,
                    row as int,
                    col as int,
                );
            }
            points.push((col, row));
            col = col + 1;
        }
        proof {
            assert((row + 1) * plain_w == row * plain_w + plain_w) by (nonlinear_arith);
        }
        row = row + 1;
    }
    points
}

/// Entries `6 * k .. 6 * k + 6` of the index buffer belong to interior cell `k`.
proof fn lemma_cell_slots(w: int, k: int, top_left: int)
    requires
        2 <= w,
        0 <= k,
        top_left == cell_origin(w, k),
    ensures
        mesh_index(w, 6 * k) == top_left,
        mesh_index(w, 6 * k + 1) == top_left + w,
        mesh_index(w, 6 * k + 2) == top_left + w + 1,
        mesh_index(w, 6 * k + 3) == top_left,
        mesh_index(w, 6 * k + 4) == top_left + w + 1,
        mesh_index(w, 6 * k + 5) == top_left + 1,
{
    lemma_fundamental_div_mod_converse(6 * k, 6, k, 0);
    lemma_fundamental_div_mod_converse(6 * k + 1, 6, k, 1);
    lemma_fundamental_div_mod_converse(6 * k + 2, 6, k, 2);
    lemma_fundamental_div_mod_converse(6 * k + 3, 6, k, 3);
    lemma_fundamental_div_mod_converse(6 * k + 4, 6, k, 4);
    lemma_fundamental_div_mod_converse(6 * k + 5, 6, k, 5);
}

/// The index buffer of a `plain_h` by `plain_w` lattice and its triangle
/// count: two counter-clockwise triangles per interior cell, cells in
/// row-major order, each entry the row-major number of a lattice point.
pub fn triangle_indices(plain_h: i32, plain_w: i32) -> (r: (Vec<i32>, i32))
    requires
        1 <= plain_h,
        1 <= plain_w,
        plain_h * plain_w <= i32::MAX,
        triangle_count_of(plain_h as int, plain_w as int) <= i32::MAX,
    ensures
        r.1 == triangle_count_of(plain_h as int, plain_w as int),
        r.0@.len() == 3 * r.1,
        forall|j: int| 0 <= j < r.0@.len() ==> #[trigger] r.0@[j] == mesh_index(plain_w as int, j),
        forall|j: int| 0 <= j < r.0@.len() ==> 0 <= #[trigger] r.0@[j] < plain_h * plain_w,
{
    let mut indices: Vec<i32> = Vec::new();
    let mut triangle_count: i32 = 0;
    let mut row: i32 = 0;
    while row < plain_h - 1
        invariant
            0 <= row <= plain_h - 1,
            1 <= plain_w,
            plain_h * plain_w <= i32::MAX,
            triangle_count_of(plain_h as int, plain_w as int) <= i32::MAX,
            triangle_count == 2 * (row * (plain_w - 1)),
            indices@.len() == 3 * triangle_count,
            forall|j: int|
                0 <= j < indices@.len() ==> #[trigger] indices@[j] == mesh_index(plain_w as int, j),
            forall|j: int|
                0 <= j < indices@.len() ==> 0 <= #[trigger] indices@[j] < plain_h * plain_w,
        decreases plain_h - 1 - row,
    {
        let mut col: i32 = 0;
        while col < plain_w - 1
            invariant
                0 <= row < plain_h - 1,
                0 <= col <= plain_w - 1,
                plain_h * plain_w <= i32::MAX,
                triangle_count_of(plain_h as int, plain_w as int) <= i32::MAX,
                triangle_count == 2 * (row * (plain_w - 1) + col),
                indices@.len() == 3 * triangle_count,
                forall|j: int|
                    0 <= j < indices@.len() ==> #[trigger] indices@[j] == mesh_index(
                        plain_w as int,
                        j,
                    ),
                forall|j: int|
                    0 <= j < indices@.len() ==> 0 <= #[trigger] indices@[j] < plain_h * plain_w,
            decreases plain_w - 1 - col,
        {
            let ghost k: int = row * (plain_w - 1) + col;
            proof {
                assert(row * plain_w + col + plain_w + 1 < plain_h * plain_w) by (nonlinear_arith)
                    requires
                        0 <= row < plain_h - 1,
                        0 <= col < plain_w - 1,
                ;
                assert(k < (plain_h - 1) * (plain_w - 1)) by (nonlinear_arith)
                    requires
                        k == row * (plain_w - 1) + col,
                        0 <= row < plain_h - 1,
                        0 <= col < plain_w - 1,
                ;
                assert(0 <= k) by (nonlinear_arith)
                    requires
                        k == row * (plain_w - 1) + col,
                        0 <= row,
                        0 <= col,
                        1 <= plain_w,
                ;
                assert(2 * (k + 1) <= triangle_count_of(plain_h as int, plain_w as int))
                    by (nonlinear_arith)
                    requires
                        k < (plain_h - 1) * (plain_w - 1),
                ;
                lemma_fundamental_div_mod_converse(k, plain_w - 1, row as int, col as int);
                lemma_cell_slots(plain_w as int, k, row * plain_w + col);
            }
            let top_left: i32 = row * plain_w + col;
            let top_right: i32 = top_left + 1;
            let bottom_left: i32 = top_left + plain_w;
            let bottom_right: i32 = bottom_left + 1;

            indices.push(top_left);
            indices.push(bottom_left);
            indices.push(bottom_right);
            triangle_count = triangle_count + 1;

            indices.push(top_left);
            indices.push(bottom_right);
            indices.push(top_right);
            triangle_count = triangle_count + 1;
            col = col + 1;
        }
        proof {
            assert(row * (plain_w - 1) + (plain_w - 1) == (row + 1) * (plain_w - 1))
                by (nonlinear_arith);
        }
        row = row + 1;
    }
    assert(2 * ((plain_h - 1) * (plain_w - 1)) == triangle_count_of(plain_h as int, plain_w as int))
        by (nonlinear_arith);
    (indices, triangle_count)
}

} // verus!
