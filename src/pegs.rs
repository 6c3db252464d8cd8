use vstd::prelude::*;

verus! {

/// Number of rows of the standard peg field.
pub const ROWS: usize = 10;

/// Horizontal distance between neighbouring pegs of one row.
pub const PEG_SPACING_X: i32 = 50;

/// Vertical distance between two rows.
pub const PEG_SPACING_Y: i32 = 40;

/// Vertical position of the top row.
pub const PEG_TOP: i32 = 40;

/// Centre of a peg, in whole pixels.
#[derive(Clone, Copy, Debug, PartialEq, Eq, Structural)]
pub struct Peg {
    pub x: i64,
    pub y: i64,
}

/// Number of pegs in the first `r` rows: row `i` holds `i + 1` pegs.
pub open spec fn tri(r: int) -> int {
    r * (r + 1) / 2
}

/// Position of peg `c` of row `r` in the sequence of a field: rows follow
/// one another, and the pegs of a row go from left to right.
pub open spec fn peg_index(r: int, c: int) -> int {
    tri(r) + c
}

/// Centre of peg `c` of row `r`: the row is centred under `cx`, its pegs
/// `sx` apart, and it lies `sy * r` below `top`.
pub open spec fn peg_at(sx: int, sy: int, cx: int, top: int, r: int, c: int) -> Peg {
    Peg { x: (cx + (2 * c - r) * (sx / 2)) as i64, y: (top + sy * r) as i64 }
}

/// Inputs for which the field can be laid out in whole pixels: a row count
/// that an `i32` holds, and an even spacing, so that the rows of odd length
/// are centred on a whole pixel too.
pub open spec fn field_params_ok(rows: usize, sx: i32) -> bool {
    &&& rows <= i32::MAX
    &&& sx % 2 == 0
}

/// Each row takes up one more slot than the one above it, so row `r` holds
/// the `r + 1` slots from `tri(r)` up to `tri(r + 1)`.
pub proof fn lemma_rows_tile(r: int)
    requires
        0 <= r,
    ensures
        tri(r + 1) == tri(r) + r + 1,
        0 <= tri(r),
{
    assert((r + 1) * (r + 2) == r * (r + 1) + 2 * (r + 1)) by (nonlinear_arith);
    assert(r * (r + 1) >= 0) by (nonlinear_arith)
        requires
            0 <= r,
    ;
}

/// Every row of a field is symmetric about the centre: peg `c` and peg
/// `r - c` of row `r` lie at the same distance from `cx`, on opposite sides,
/// and at the same height.
pub proof fn lemma_row_symmetric(sx: int, sy: int, cx: int, top: int, r: int, c: int)
    requires
        0 <= c <= r,
        -0x8000_0000 <= sx < 0x8000_0000,
        -0x8000_0000 <= sy < 0x8000_0000,
        -0x8000_0000 <= cx < 0x8000_0000,
        -0x8000_0000 <= top < 0x8000_0000,
        r < 0x8000_0000,
    ensures
        peg_at(sx, sy, cx, top, r, c).x - cx == cx - peg_at(sx, sy, cx, top, r, r - c).x,
        peg_at(sx, sy, cx, top, r, c).y == peg_at(sx, sy, cx, top, r, r - c).y,
{
    let h = sx / 2;
    lemma_offset_bound(2 * c - r, r, h);
    lemma_offset_bound(2 * (r - c) - r, r, h);
    assert((2 * (r - c) - r) * h == -((2 * c - r) * h)) by (nonlinear_arith);
    lemma_height_bound(sy, r);
}

proof fn lemma_offset_bound(k: int, r: int, h: int)
    requires
        -r <= k <= r,
        r < 0x8000_0000,
        -0x4000_0000 <= h <= 0x4000_0000,
    ensures
        -0x2000_0000_0000_0000 <= k * h <= 0x2000_0000_0000_0000,
{
    assert(-0x2000_0000_0000_0000 <= k * h <= 0x2000_0000_0000_0000) by (nonlinear_arith)
        requires
            -r <= k <= r,
            r < 0x8000_0000,
            -0x4000_0000 <= h <= 0x4000_0000,
    ;
}

proof fn lemma_height_bound(sy: int, r: int)
    requires
        0 <= r < 0x8000_0000,
        -0x8000_0000 <= sy < 0x8000_0000,
    ensures
        -0x4000_0000_0000_0000 <= sy * r <= 0x4000_0000_0000_0000,
{
    assert(-0x4000_0000_0000_0000 <= sy * r <= 0x4000_0000_0000_0000) by (nonlinear_arith)
        requires
            0 <= r < 0x8000_0000,
            -0x8000_0000 <= sy < 0x8000_0000,
    ;
}

/// Lays out a triangular field of `rows` rows: row `r` holds `r + 1` pegs,
/// `spacing_x` apart and centred under `center_x`, at height
/// `top + spacing_y * r`. The rows come in order, each from left to right.
pub fn triangle_pegs(rows: usize, spacing_x: i32, spacing_y: i32, center_x: i32, top: i32) -> (pegs:
    Vec<Peg>)
    requires
        field_params_ok(rows, spacing_x),
    ensures
        pegs@.len() == tri(rows as int),
        forall|r: int, c: int|
            0 <= r < rows && 0 <= c <= r ==> #[trigger] pegs@[peg_index(r, c)] == peg_at(
                spacing_x as int,
                spacing_y as int,
                center_x as int,
                top as int,
                r,
                c,
            ),
        forall|r: int, c: int|
            0 <= r < rows && 0 <= c <= r ==> #[trigger] pegs@[peg_index(r, c)].x - center_x
                == center_x - pegs@[peg_index(r, r - c)].x,
{
    let mut pegs: Vec<Peg> = Vec::new();
    let half: i64 = spacing_x as i64 / 2;
    let mut row: usize = 0;
    while row < rows
        invariant
            row <= rows,
            rows <= i32::MAX,
            half == spacing_x as int / 2,
            pegs@.len() == tri(row as int),
            forall|r: int, c: int|
                0 <= r < row && 0 <= c <= r ==> #[trigger] pegs@[peg_index(r, c)] == peg_at(
                    spacing_x as int,
                    spacing_y as int,
                    center_x as int,
                    top as int,
                    r,
                    c,
                ),
        decreases rows - row,
    {
        proof {
            lemma_height_bound(spacing_y as int, row as int);
            lemma_rows_tile(row as int);
        }
        let y: i64 = top as i64 + spacing_y as i64 * row as i64;
        let mut col: usize = 0;
        while col <= row
            invariant
                col <= row + 1,
                row < rows,
                rows <= i32::MAX,
                half == spacing_x as int / 2,
                y == top + spacing_y * row,
                pegs@.len() == tri(row as int) + col,
                forall|r: int, c: int|
                    0 <= r < row && 0 <= c <= r ==> #[trigger] pegs@[peg_index(r, c)] == peg_at(
                        spacing_x as int,
                        spacing_y as int,
                        center_x as int,
                        top as int,
                        r,
                        c,
                    ),
                forall|c: int|
                    0 <= c < col ==> #[trigger] pegs@[peg_index(row as int, c)] == peg_at(
                        spacing_x as int,
                        spacing_y as int,
                        center_x as int,
                        top as int,
                        row as int,
                        c,
                    ),
            decreases row + 1 - col,
        {
            proof {
                lemma_offset_bound(2 * col - row, row as int, half as int);
            }
            let x: i64 = center_x as i64 + (2 * col as i64 - row as i64) * half;
            let ghost before = pegs@;
            pegs.push(Peg { x, y });
            proof {
                assert forall|r: int, c: int|
                    0 <= r < row && 0 <= c <= r implies #[trigger] pegs@[peg_index(r, c)]
                    == before[peg_index(r, c)] by {
                    lemma_rows_tile(r);
                    lemma_rows_mono(r + 1, row as int);
                }
            }
            col += 1;
        }
        row += 1;
    }
    proof {
        assert forall|r: int, c: int| 0 <= r < rows && 0 <= c <= r implies #[trigger] pegs@[peg_index(r, c)].x
            - center_x == center_x - pegs@[peg_index(r, r - c)].x by {
            lemma_row_symmetric(spacing_x as int, spacing_y as int, center_x as int, top as int, r, c);
            assert(pegs@[peg_index(r, r - c)] == peg_at(spacing_x as int, spacing_y as int, center_x as int, top as int, r, r - c));
        }
    }
    pegs
}

proof fn lemma_rows_mono(a: int, b: int)
    requires
        0 <= a <= b,
    ensures
        tri(a) <= tri(b),
    decreases b - a,
{
    if a < b {
        lemma_rows_mono(a, b - 1);
        lemma_rows_tile(b - 1);
    }
}

} // verus!

verus! {

/// The standard field: `ROWS` rows centred on the playfield, pegs
/// `PEG_SPACING_X` apart, rows `PEG_SPACING_Y` apart, the first at `PEG_TOP`.
pub fn create_triangle_pegs() -> (pegs: Vec<Peg>)
    ensures
        pegs@.len() == tri(ROWS as int),
        forall|r: int, c: int|
            0 <= r < ROWS && 0 <= c <= r ==> #[trigger] pegs@[peg_index(r, c)] == peg_at(
                PEG_SPACING_X as int,
                PEG_SPACING_Y as int,
                crate::SCREEN_WIDTH / 2,
                PEG_TOP as int,
                r,
                c,
            ),
{
    triangle_pegs(ROWS, PEG_SPACING_X, PEG_SPACING_Y, crate::SCREEN_WIDTH / 2, PEG_TOP)
}

} // verus!
