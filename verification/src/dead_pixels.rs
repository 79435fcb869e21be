use rand_distr::Distribution;
use vstd::arithmetic::div_mod::{lemma_fundamental_div_mod, lemma_fundamental_div_mod_converse};
use vstd::prelude::*;

verus! {

/// A dead rectangle of a synthetic dead-pixel map: `y_size` rows starting at
/// row `corner_y`, `x_size` columns starting at column `corner_x`.
#[derive(Clone, Copy, PartialEq, Eq, Structural, Debug)]
pub struct DeadRectangle {
    pub corner_x: usize,
    pub corner_y: usize,
    pub x_size: usize,
    pub y_size: usize,
}

/// The defects of a synthetic dead-pixel map of a square detector plane.
/// Pixels are numbered row by row: pixel `row * size + column`.
pub struct DeadPixelLayout {
    /// Single dead pixels, by their number.
    pub scattered: Vec<usize>,
    /// Dead rows.
    pub rows: Vec<usize>,
    /// Dead columns.
    pub columns: Vec<usize>,
    /// Dead rectangles.
    pub rectangles: Vec<DeadRectangle>,
}

/// Whether `rect` covers the pixel at (`row`, `column`).
pub open spec fn rectangle_covers(rect: DeadRectangle, row: int, column: int) -> bool {
    &&& rect.corner_y <= row < rect.corner_y + rect.y_size
    &&& rect.corner_x <= column < rect.corner_x + rect.x_size
}

/// Whether pixel `i` of a plane with `size` pixels per row is killed by one of
/// the first `n_scattered` single pixels, `n_rows` rows, `n_columns` columns or
/// `n_rectangles` rectangles of `layout`.
pub open spec fn killed_by(
    layout: DeadPixelLayout,
    size: int,
    n_scattered: int,
    n_rows: int,
    n_columns: int,
    n_rectangles: int,
    i: int,
) -> bool {
    ||| exists|k: int| 0 <= k < n_scattered && layout.scattered@[k] == i
    ||| exists|k: int| 0 <= k < n_rows && layout.rows@[k] == i / size
    ||| exists|k: int| 0 <= k < n_columns && layout.columns@[k] == i % size
    ||| exists|k: int|
        0 <= k < n_rectangles && rectangle_covers(#[trigger] layout.rectangles@[k], i / size, i % size)
}

/// Whether pixel `i` is dead: some defect of `layout` covers it.
pub open spec fn pixel_is_dead(layout: DeadPixelLayout, size: int, i: int) -> bool {
    killed_by(
        layout,
        size,
        layout.scattered@.len() as int,
        layout.rows@.len() as int,
        layout.columns@.len() as int,
        layout.rectangles@.len() as int,
        i,
    )
}

/// Every defect of `layout` lies inside a plane of `size` by `size` pixels.
pub open spec fn layout_fits(layout: DeadPixelLayout, size: int) -> bool {
    &&& forall|k: int| 0 <= k < layout.scattered@.len() ==> #[trigger] layout.scattered@[k] < size * size
    &&& forall|k: int| 0 <= k < layout.rows@.len() ==> #[trigger] layout.rows@[k] < size
    &&& forall|k: int| 0 <= k < layout.columns@.len() ==> #[trigger] layout.columns@[k] < size
    &&& forall|k: int|
        0 <= k < layout.rectangles@.len() ==> {
            let r = #[trigger] layout.rectangles@[k];
            &&& r.corner_x + r.x_size <= size
            &&& r.corner_y + r.y_size <= size
        }
}

/// The live/dead map of `layout`: entry `i` is true (live) exactly when no
/// defect covers pixel `i`.
pub open spec fn is_mask_of(mask: Seq<bool>, layout: DeadPixelLayout, size: int) -> bool {
    &&& mask.len() == size * size
    &&& forall|i: int| 0 <= i < size * size ==> #[trigger] mask[i] == !pixel_is_dead(layout, size, i)
}

proof fn lemma_split_index(size: int, row: int, column: int)
    requires
        0 < size,
        0 <= column < size,
    ensures
        (row * size + column) / size == row,
        (row * size + column) % size == column,
{
    lemma_fundamental_div_mod_converse(row * size + column, size, row, column);
}

proof fn lemma_join_index(size: int, i: int)
    requires
        0 < size,
        0 <= i,
    ensures
        i == (i / size) * size + i % size,
        0 <= i % size < size,
        0 <= i / size,
{
    lemma_fundamental_div_mod(i, size);
    assert(size * (i / size) == (i / size) * size) by (nonlinear_arith);
    assert(0 <= i / size) by (nonlinear_arith)
        requires
            0 < size,
            0 <= i,
    ;
    assert(0 <= i % size < size) by (nonlinear_arith)
        requires
            0 < size,
    ;
}

proof fn lemma_row_bound(size: int, i: int)
    requires
        0 < size,
        0 <= i < size * size,
    ensures
        i / size < size,
{
    lemma_join_index(size, i);
    let q = i / size;
    let r = i % size;
    assert(q < size) by (nonlinear_arith)
        requires
            0 < size,
            i < size * size,
            i == q * size + r,
            0 <= r,
    ;
}

proof fn lemma_index_bound(size: int, row: int, column: int)
    requires
        0 <= row < size,
        0 <= column < size,
    ensures
        0 <= row * size + column < size * size,
{
    assert(0 <= row * size + column < size * size) by (nonlinear_arith)
        requires
            0 <= row < size,
            0 <= column < size,
    ;
}

/// Kills the single pixels of `layout`.
fn kill_scattered(mask: &mut Vec<bool>, layout: &DeadPixelLayout, size: usize)
    requires
        0 < size,
        old(mask)@.len() == size * size,
        layout_fits(*layout, size as int),
        forall|i: int| 0 <= i < size * size ==> #[trigger] old(mask)@[i],
    ensures
        final(mask)@.len() == size * size,
        forall|i: int|
            0 <= i < size * size ==> #[trigger] final(mask)@[i] == !killed_by(
                *layout,
                size as int,
                layout.scattered@.len() as int,
                0,
                0,
                0,
                i,
            ),
{
    let n_scattered = layout.scattered.len();
    for k in 0..n_scattered
        invariant
            n_scattered == layout.scattered@.len(),
            0 < size,
            layout_fits(*layout, size as int),
            mask@.len() == size * size,
            forall|i: int|
                0 <= i < size * size ==> #[trigger] mask@[i] == !killed_by(
                    *layout,
                    size as int,
                    k as int,
                    0,
                    0,
                    0,
                    i,
                ),
    {
        let index = layout.scattered[k];
        mask.set(index, false);
        assert forall|i: int| 0 <= i < size * size implies #[trigger] mask@[i] == !killed_by(
            *layout,
            size as int,
            k + 1,
            0,
            0,
            0,
            i,
        ) by {
            if i == index {
                assert(layout.scattered@[k as int] == i);
            }
        }
    }
}

/// Kills the rows of `layout`, given the pixels killed so far.
fn kill_rows(mask: &mut Vec<bool>, layout: &DeadPixelLayout, size: usize)
    requires
        0 < size,
        size * size <= usize::MAX,
        old(mask)@.len() == size * size,
        layout_fits(*layout, size as int),
        forall|i: int|
            0 <= i < size * size ==> #[trigger] old(mask)@[i] == !killed_by(
                *layout,
                size as int,
                layout.scattered@.len() as int,
                0,
                0,
                0,
                i,
            ),
    ensures
        final(mask)@.len() == size * size,
        forall|i: int|
            0 <= i < size * size ==> #[trigger] final(mask)@[i] == !killed_by(
                *layout,
                size as int,
                layout.scattered@.len() as int,
                layout.rows@.len() as int,
                0,
                0,
                i,
            ),
{
    let ghost n_s = layout.scattered@.len() as int;
    let n_rows = layout.rows.len();
    for k in 0..n_rows
        invariant
            n_rows == layout.rows@.len(),
            n_s == layout.scattered@.len(),
            0 < size,
            size * size <= usize::MAX,
            layout_fits(*layout, size as int),
            mask@.len() == size * size,
            forall|i: int|
                0 <= i < size * size ==> #[trigger] mask@[i] == !killed_by(
                    *layout,
                    size as int,
                    n_s,
                    k as int,
                    0,
                    0,
                    i,
                ),
    {
        let row = layout.rows[k];
        for column in 0..size
            invariant
                n_rows == layout.rows@.len(),
                n_s == layout.scattered@.len(),
                0 < size,
                size * size <= usize::MAX,
                layout_fits(*layout, size as int),
                k < n_rows,
                row == layout.rows@[k as int],
                row < size,
                mask@.len() == size * size,
                forall|i: int|
                    0 <= i < size * size ==> #[trigger] mask@[i] == !(killed_by(
                        *layout,
                        size as int,
                        n_s,
                        k as int,
                        0,
                        0,
                        i,
                    ) || (i / (size as int) == row && i % (size as int) < column)),
        {
            proof {
                lemma_index_bound(size as int, row as int, column as int);
            }
            let index = row * size + column;
            mask.set(index, false);
            assert forall|i: int| 0 <= i < size * size implies #[trigger] mask@[i] == !(killed_by(
                *layout,
                size as int,
                n_s,
                k as int,
                0,
                0,
                i,
            ) || (i / (size as int) == row && i % (size as int) < column + 1)) by {
                lemma_join_index(size as int, i);
                lemma_split_index(size as int, row as int, column as int);
            }
        }
        assert forall|i: int| 0 <= i < size * size implies #[trigger] mask@[i] == !killed_by(
            *layout,
            size as int,
            n_s,
            k + 1,
            0,
            0,
            i,
        ) by {
            lemma_join_index(size as int, i);
            if i / (size as int) == row {
                assert(layout.rows@[k as int] == i / (size as int));
            }
        }
    }
}

/// Kills the columns of `layout`, given the pixels killed so far.
fn kill_columns(mask: &mut Vec<bool>, layout: &DeadPixelLayout, size: usize)
    requires
        0 < size,
        size * size <= usize::MAX,
        old(mask)@.len() == size * size,
        layout_fits(*layout, size as int),
        forall|i: int|
            0 <= i < size * size ==> #[trigger] old(mask)@[i] == !killed_by(
                *layout,
                size as int,
                layout.scattered@.len() as int,
                layout.rows@.len() as int,
                0,
                0,
                i,
            ),
    ensures
        final(mask)@.len() == size * size,
        forall|i: int|
            0 <= i < size * size ==> #[trigger] final(mask)@[i] == !killed_by(
                *layout,
                size as int,
                layout.scattered@.len() as int,
                layout.rows@.len() as int,
                layout.columns@.len() as int,
                0,
                i,
            ),
{
    let ghost n_s = layout.scattered@.len() as int;
    let ghost n_r = layout.rows@.len() as int;
    let n_columns = layout.columns.len();
    for k in 0..n_columns
        invariant
            n_columns == layout.columns@.len(),
            n_s == layout.scattered@.len(),
            n_r == layout.rows@.len(),
            0 < size,
            size * size <= usize::MAX,
            layout_fits(*layout, size as int),
            mask@.len() == size * size,
            forall|i: int|
                0 <= i < size * size ==> #[trigger] mask@[i] == !killed_by(
                    *layout,
                    size as int,
                    n_s,
                    n_r,
                    k as int,
                    0,
                    i,
                ),
    {
        let column = layout.columns[k];
        for row in 0..size
            invariant
                n_columns == layout.columns@.len(),
                n_s == layout.scattered@.len(),
                n_r == layout.rows@.len(),
                0 < size,
                size * size <= usize::MAX,
                layout_fits(*layout, size as int),
                k < n_columns,
                column == layout.columns@[k as int],
                column < size,
                mask@.len() == size * size,
                forall|i: int|
                    0 <= i < size * size ==> #[trigger] mask@[i] == !(killed_by(
                        *layout,
                        size as int,
                        n_s,
                        n_r,
                        k as int,
                        0,
                        i,
                    ) || (i % (size as int) == column && i / (size as int) < row)),
        {
            proof {
                lemma_index_bound(size as int, row as int, column as int);
            }
            let index = row * size + column;
            mask.set(index, false);
            assert forall|i: int| 0 <= i < size * size implies #[trigger] mask@[i] == !(killed_by(
                *layout,
                size as int,
                n_s,
                n_r,
                k as int,
                0,
                i,
            ) || (i % (size as int) == column && i / (size as int) < row + 1)) by {
                lemma_join_index(size as int, i);
                lemma_split_index(size as int, row as int, column as int);
            }
        }
        assert forall|i: int| 0 <= i < size * size implies #[trigger] mask@[i] == !killed_by(
            *layout,
            size as int,
            n_s,
            n_r,
            k + 1,
            0,
            i,
        ) by {
            lemma_join_index(size as int, i);
            lemma_row_bound(size as int, i);
            if i % (size as int) == column {
                assert(layout.columns@[k as int] == i % (size as int));
            }
        }
    }
}

/// Kills the rectangles of `layout`, given the pixels killed so far.
fn kill_rectangles(mask: &mut Vec<bool>, layout: &DeadPixelLayout, size: usize)
    requires
        0 < size,
        size * size <= usize::MAX,
        old(mask)@.len() == size * size,
        layout_fits(*layout, size as int),
        forall|i: int|
            0 <= i < size * size ==> #[trigger] old(mask)@[i] == !killed_by(
                *layout,
                size as int,
                layout.scattered@.len() as int,
                layout.rows@.len() as int,
                layout.columns@.len() as int,
                0,
                i,
            ),
    ensures
        final(mask)@.len() == size * size,
        forall|i: int|
            0 <= i < size * size ==> #[trigger] final(mask)@[i] == !pixel_is_dead(
                *layout,
                size as int,
                i,
            ),
{
    let ghost n_s = layout.scattered@.len() as int;
    let ghost n_r = layout.rows@.len() as int;
    let ghost n_c = layout.columns@.len() as int;
    let n_rectangles = layout.rectangles.len();
    for k in 0..n_rectangles
        invariant
            n_rectangles == layout.rectangles@.len(),
            n_s == layout.scattered@.len(),
            n_r == layout.rows@.len(),
            n_c == layout.columns@.len(),
            0 < size,
            size * size <= usize::MAX,
            layout_fits(*layout, size as int),
            mask@.len() == size * size,
            forall|i: int|
                0 <= i < size * size ==> #[trigger] mask@[i] == !killed_by(
                    *layout,
                    size as int,
                    n_s,
                    n_r,
                    n_c,
                    k as int,
                    i,
                ),
    {
        let rect = layout.rectangles[k];
        for dy in 0..rect.y_size
            invariant
                n_rectangles == layout.rectangles@.len(),
                n_s == layout.scattered@.len(),
                n_r == layout.rows@.len(),
                n_c == layout.columns@.len(),
                0 < size,
                size * size <= usize::MAX,
                layout_fits(*layout, size as int),
                k < n_rectangles,
                rect == layout.rectangles@[k as int],
                rect.corner_x + rect.x_size <= size,
                rect.corner_y + rect.y_size <= size,
                mask@.len() == size * size,
                forall|i: int|
                    0 <= i < size * size ==> #[trigger] mask@[i] == !(killed_by(
                        *layout,
                        size as int,
                        n_s,
                        n_r,
                        n_c,
                        k as int,
                        i,
                    ) || (rect.corner_y <= i / (size as int) < rect.corner_y + dy
                        && rect.corner_x <= i % (size as int) < rect.corner_x + rect.x_size)),
        {
            let row = rect.corner_y + dy;
            for dx in 0..rect.x_size
                invariant
                    n_rectangles == layout.rectangles@.len(),
                    n_s == layout.scattered@.len(),
                    n_r == layout.rows@.len(),
                    n_c == layout.columns@.len(),
                    0 < size,
                    size * size <= usize::MAX,
                    layout_fits(*layout, size as int),
                    k < n_rectangles,
                    rect == layout.rectangles@[k as int],
                    rect.corner_x + rect.x_size <= size,
                    rect.corner_y + rect.y_size <= size,
                    dy < rect.y_size,
                    row == rect.corner_y + dy,
                    mask@.len() == size * size,
                    forall|i: int|
                        0 <= i < size * size ==> #[trigger] mask@[i] == !(killed_by(
                            *layout,
                            size as int,
                            n_s,
                            n_r,
                            n_c,
                            k as int,
                            i,
                        ) || (rect.corner_y <= i / (size as int) < rect.corner_y + dy
                            && rect.corner_x <= i % (size as int) < rect.corner_x + rect.x_size)
                            || (i / (size as int) == row && rect.corner_x <= i % (size as int)
                            < rect.corner_x + dx)),
            {
                let column = rect.corner_x + dx;
                proof {
                    lemma_index_bound(size as int, row as int, column as int);
                }
                let index = row * size + column;
                mask.set(index, false);
                assert forall|i: int| 0 <= i < size * size implies #[trigger] mask@[i] == !(killed_by(
                    *layout,
                    size as int,
                    n_s,
                    n_r,
                    n_c,
                    k as int,
                    i,
                ) || (rect.corner_y <= i / (size as int) < rect.corner_y + dy
                    && rect.corner_x <= i % (size as int) < rect.corner_x + rect.x_size)
                    || (i / (size as int) == row && rect.corner_x <= i % (size as int)
                    < rect.corner_x + dx + 1)) by {
                    lemma_join_index(size as int, i);
                    lemma_split_index(size as int, row as int, column as int);
                }
            }
        }
        assert forall|i: int| 0 <= i < size * size implies #[trigger] mask@[i] == !killed_by(
            *layout,
            size as int,
            n_s,
            n_r,
            n_c,
            k + 1,
            i,
        ) by {
            lemma_join_index(size as int, i);
            if rectangle_covers(rect, i / (size as int), i % (size as int)) {
                assert(rectangle_covers(layout.rectangles@[k as int], i / (size as int), i % (size as int)));
            }
        }
    }
}

/// The live/dead map of a square plane of `size` by `size` pixels with the
/// defects of `layout`, row by row: `true` for a live pixel, `false` for a
/// dead one.
pub fn dead_pixel_mask(size: usize, layout: &DeadPixelLayout) -> (mask: Vec<bool>)
    requires
        size * size <= usize::MAX,
        layout_fits(*layout, size as int),
    ensures
        is_mask_of(mask@, *layout, size as int),
{
    let n = size * size;
    let mut mask: Vec<bool> = Vec::new();
    while mask.len() < n
        invariant
            n == size * size,
            mask@.len() <= n,
            forall|i: int| 0 <= i < mask@.len() ==> #[trigger] mask@[i],
        decreases n - mask@.len(),
    {
        mask.push(true);
    }
    if size == 0 {
        return mask;
    }
    kill_scattered(&mut mask, layout, size);
    kill_rows(&mut mask, layout, size);
    kill_columns(&mut mask, layout, size);
    kill_rectangles(&mut mask, layout, size);
    mask
}

/// One draw of `rand_distr::Uniform::new(low, high)` (rand's `Uniform`,
/// re-exported by rand_distr) sampled with the thread-local generator
/// `rand::rng()`. The contract claims only what the source of rand's
/// `UniformUsize` shows: `new` succeeds when `low < high`, and a sample lies in
/// `[low, high)`. Which value comes out is left open: it depends on chance.
#[verifier::external_body]
fn draw_uniform(low: usize, high: usize) -> (value: usize)
    requires
        low < high,
    ensures
        low <= value < high,
{
    rand_distr::Uniform::new(low, high).unwrap().sample(&mut rand::rng())
}

/// Smallest side of a dead rectangle.
pub const RECTANGLE_MIN_SIDE: usize = 100;

/// One past the largest side of a dead rectangle.
pub const RECTANGLE_SIDE_BOUND: usize = 199;

/// Margin kept free to the right of and below the corner range of a dead rectangle.
pub const RECTANGLE_CORNER_MARGIN: usize = 200;

/// Number of random draws of a dead-pixel layout with the given numbers of
/// defects: one per scattered pixel, row and column, four per rectangle.
pub open spec fn draw_count(
    num_scattered_pixels: int,
    num_rows: int,
    num_columns: int,
    num_rectangles: int,
) -> int {
    num_scattered_pixels + num_rows + num_columns + 4 * num_rectangles
}

/// The range `[low, high)` of draw `k` of a dead-pixel layout of a plane of
/// `size` pixels per row: `[0, size * size)` for each scattered pixel, then
/// `[0, size)` for each row and each column, then for each rectangle
/// `[0, size - 200)` for its corner column, `[0, size - 200)` for its corner
/// row, `[100, 199)` for its width and `[100, 199)` for its height.
pub open spec fn draw_range_at(
    size: int,
    num_scattered_pixels: int,
    num_rows: int,
    num_columns: int,
    k: int,
) -> (usize, usize) {
    if k < num_scattered_pixels {
        (0usize, (size * size) as usize)
    } else if k < num_scattered_pixels + num_rows + num_columns {
        (0usize, size as usize)
    } else if (k - (num_scattered_pixels + num_rows + num_columns)) % 4 < 2 {
        (0usize, (size - RECTANGLE_CORNER_MARGIN) as usize)
    } else {
        (RECTANGLE_MIN_SIDE, RECTANGLE_SIDE_BOUND)
    }
}

/// The ranges of all draws of a dead-pixel layout, in drawing order.
pub open spec fn draw_plan_spec(
    size: int,
    num_scattered_pixels: int,
    num_rows: int,
    num_columns: int,
    num_rectangles: int,
) -> Seq<(usize, usize)> {
    Seq::new(
        draw_count(num_scattered_pixels, num_rows, num_columns, num_rectangles) as nat,
        |k: int| draw_range_at(size, num_scattered_pixels, num_rows, num_columns, k),
    )
}

/// Each of `values` lies in the range that `plan` gives it.
pub open spec fn draws_follow(plan: Seq<(usize, usize)>, values: Seq<usize>) -> bool {
    &&& values.len() == plan.len()
    &&& forall|k: int| 0 <= k < plan.len() ==> plan[k].0 <= #[trigger] values[k] < plan[k].1
}

/// `layout` is made of `values`, taken in order: the scattered pixels, the
/// rows, the columns, then per rectangle its corner column, corner row, width
/// and height.
pub open spec fn is_layout_of_draws(
    layout: DeadPixelLayout,
    values: Seq<usize>,
    num_scattered_pixels: int,
    num_rows: int,
    num_columns: int,
    num_rectangles: int,
) -> bool {
    let b = num_scattered_pixels + num_rows + num_columns;
    &&& values.len() == draw_count(num_scattered_pixels, num_rows, num_columns, num_rectangles)
    &&& layout.scattered@ == values.subrange(0, num_scattered_pixels)
    &&& layout.rows@ == values.subrange(num_scattered_pixels, num_scattered_pixels + num_rows)
    &&& layout.columns@ == values.subrange(num_scattered_pixels + num_rows, b)
    &&& layout.rectangles@.len() == num_rectangles
    &&& forall|j: int|
        0 <= j < num_rectangles ==> #[trigger] layout.rectangles@[j] == (DeadRectangle {
            corner_x: values[b + 4 * j],
            corner_y: values[b + 4 * j + 1],
            x_size: values[b + 4 * j + 2],
            y_size: values[b + 4 * j + 3],
        })
}

proof fn lemma_rectangle_draw_ranges(
    size: int,
    num_scattered_pixels: int,
    num_rows: int,
    num_columns: int,
    j: int,
)
    requires
        0 <= num_scattered_pixels,
        0 <= num_rows,
        0 <= num_columns,
        0 <= j,
    ensures
        ({
            let b = num_scattered_pixels + num_rows + num_columns;
            let corner = (0usize, (size - RECTANGLE_CORNER_MARGIN) as usize);
            let side = (RECTANGLE_MIN_SIDE, RECTANGLE_SIDE_BOUND);
            &&& draw_range_at(size, num_scattered_pixels, num_rows, num_columns, b + 4 * j) == corner
            &&& draw_range_at(size, num_scattered_pixels, num_rows, num_columns, b + 4 * j + 1) == corner
            &&& draw_range_at(size, num_scattered_pixels, num_rows, num_columns, b + 4 * j + 2) == side
            &&& draw_range_at(size, num_scattered_pixels, num_rows, num_columns, b + 4 * j + 3) == side
        }),
{
    lemma_fundamental_div_mod_converse(4 * j, 4, j, 0);
    lemma_fundamental_div_mod_converse(4 * j + 1, 4, j, 1);
    lemma_fundamental_div_mod_converse(4 * j + 2, 4, j, 2);
    lemma_fundamental_div_mod_converse(4 * j + 3, 4, j, 3);
}

/// The ranges of the draws of a dead-pixel layout of a plane of `size` pixels
/// per row, in drawing order (see `draw_range_at`).
pub fn dead_pixel_draw_plan(
    size: usize,
    num_scattered_pixels: usize,
    num_rows: usize,
    num_columns: usize,
    num_rectangles: usize,
) -> (plan: Vec<(usize, usize)>)
    requires
        RECTANGLE_CORNER_MARGIN < size,
        size * size <= usize::MAX,
        draw_count(
            num_scattered_pixels as int,
            num_rows as int,
            num_columns as int,
            num_rectangles as int,
        ) <= usize::MAX,
    ensures
        plan@ == draw_plan_spec(
            size as int,
            num_scattered_pixels as int,
            num_rows as int,
            num_columns as int,
            num_rectangles as int,
        ),
{
    let ghost ns = num_scattered_pixels as int;
    let ghost nr = num_rows as int;
    let ghost nc = num_columns as int;
    let ghost sz = size as int;
    let mut plan: Vec<(usize, usize)> = Vec::new();
    let area = size * size;
    for k in 0..num_scattered_pixels
        invariant
            area == size * size,
            sz == size,
            ns == num_scattered_pixels,
            plan@.len() == k,
            forall|i: int| 0 <= i < k ==> #[trigger] plan@[i] == draw_range_at(sz, ns, nr, nc, i),
    {
        plan.push((0, area));
    }
    let lines = num_rows + num_columns;
    for k in 0..lines
        invariant
            lines == num_rows + num_columns,
            size == sz,
            ns == num_scattered_pixels,
            nr == num_rows,
            nc == num_columns,
            plan@.len() == ns + k,
            forall|i: int| 0 <= i < ns + k ==> #[trigger] plan@[i] == draw_range_at(sz, ns, nr, nc, i),
    {
        plan.push((0, size));
    }
    let corner_bound = size - RECTANGLE_CORNER_MARGIN;
    for q in 0..num_rectangles
        invariant
            corner_bound == sz - RECTANGLE_CORNER_MARGIN,
            0 <= ns && 0 <= nr && 0 <= nc,
            ns == num_scattered_pixels,
            nr == num_rows,
            nc == num_columns,
            ns + nr + nc + 4 * num_rectangles <= usize::MAX,
            plan@.len() == ns + nr + nc + 4 * q,
            forall|i: int|
                0 <= i < ns + nr + nc + 4 * q ==> #[trigger] plan@[i] == draw_range_at(sz, ns, nr, nc, i),
    {
        proof {
            lemma_rectangle_draw_ranges(sz, ns, nr, nc, q as int);
        }
        plan.push((0, corner_bound));
        plan.push((0, corner_bound));
        plan.push((RECTANGLE_MIN_SIDE, RECTANGLE_SIDE_BOUND));
        plan.push((RECTANGLE_MIN_SIDE, RECTANGLE_SIDE_BOUND));
    }
    assert(plan@ =~= draw_plan_spec(sz, ns, nr, nc, num_rectangles as int));
    plan
}

/// Draws one value for each range of `plan`, uniformly from it, in order.
fn draw_by_plan(plan: &Vec<(usize, usize)>) -> (values: Vec<usize>)
    requires
        forall|k: int| 0 <= k < plan@.len() ==> (#[trigger] plan@[k]).0 < plan@[k].1,
    ensures
        draws_follow(plan@, values@),
{
    let mut values: Vec<usize> = Vec::new();
    for k in 0..plan.len()
        invariant
            forall|i: int| 0 <= i < plan@.len() ==> (#[trigger] plan@[i]).0 < plan@[i].1,
            values@.len() == k,
            forall|i: int| 0 <= i < k ==> plan@[i].0 <= #[trigger] values@[i] < plan@[i].1,
    {
        let (low, high) = plan[k];
        let value = draw_uniform(low, high);
        values.push(value);
    }
    values
}

/// The dead-pixel layout made of `values`, taken in order: the scattered
/// pixels, the rows, the columns, then per rectangle its corner column, corner
/// row, width and height.
pub fn layout_from_draws(
    values: &Vec<usize>,
    num_scattered_pixels: usize,
    num_rows: usize,
    num_columns: usize,
    num_rectangles: usize,
) -> (layout: DeadPixelLayout)
    requires
        values@.len() == draw_count(
            num_scattered_pixels as int,
            num_rows as int,
            num_columns as int,
            num_rectangles as int,
        ),
    ensures
        is_layout_of_draws(
            layout,
            values@,
            num_scattered_pixels as int,
            num_rows as int,
            num_columns as int,
            num_rectangles as int,
        ),
        layout.scattered@.len() == num_scattered_pixels,
        layout.rows@.len() == num_rows,
        layout.columns@.len() == num_columns,
        layout.rectangles@.len() == num_rectangles,
        forall|k: int| 0 <= k < num_scattered_pixels ==> #[trigger] layout.scattered@[k] == values@[k],
        forall|k: int| 0 <= k < num_rows ==> #[trigger] layout.rows@[k] == values@[num_scattered_pixels + k],
        forall|k: int| 0 <= k < num_columns ==> #[trigger] layout.columns@[k] == values@[num_scattered_pixels + num_rows + k],
        forall|j: int|
            0 <= j < num_rectangles ==> {
                let r = #[trigger] layout.rectangles@[j];
                let at = num_scattered_pixels + num_rows + num_columns + 4 * j;
                &&& r.corner_x == values@[at]
                &&& r.corner_y == values@[at + 1]
                &&& r.x_size == values@[at + 2]
                &&& r.y_size == values@[at + 3]
            },
{
    let ghost ns = num_scattered_pixels as int;
    let ghost nr = num_rows as int;
    let ghost nc = num_columns as int;
    let count = values.len();
    assert(count == draw_count(ns, nr, nc, num_rectangles as int));
    let mut scattered: Vec<usize> = Vec::new();
    for k in 0..num_scattered_pixels
        invariant
            values@.len() == draw_count(ns, nr, nc, num_rectangles as int),
            draw_count(ns, nr, nc, num_rectangles as int) <= usize::MAX,
            ns == num_scattered_pixels,
            nr == num_rows,
            nc == num_columns,
            scattered@ == values@.subrange(0, k as int),
    {
        scattered.push(values[k]);
        assert(scattered@ =~= values@.subrange(0, k + 1));
    }
    let mut rows: Vec<usize> = Vec::new();
    for k in 0..num_rows
        invariant
            values@.len() == draw_count(ns, nr, nc, num_rectangles as int),
            draw_count(ns, nr, nc, num_rectangles as int) <= usize::MAX,
            ns == num_scattered_pixels,
            nr == num_rows,
            nc == num_columns,
            rows@ == values@.subrange(ns, ns + k),
    {
        rows.push(values[num_scattered_pixels + k]);
        assert(rows@ =~= values@.subrange(ns, ns + k + 1));
    }
    let mut columns: Vec<usize> = Vec::new();
    let line_end = num_scattered_pixels + num_rows;
    for k in 0..num_columns
        invariant
            values@.len() == draw_count(ns, nr, nc, num_rectangles as int),
            draw_count(ns, nr, nc, num_rectangles as int) <= usize::MAX,
            line_end == ns + nr,
            ns == num_scattered_pixels,
            nr == num_rows,
            nc == num_columns,
            columns@ == values@.subrange(ns + nr, ns + nr + k),
    {
        columns.push(values[line_end + k]);
        assert(columns@ =~= values@.subrange(ns + nr, ns + nr + k + 1));
    }
    let base = line_end + num_columns;
    let mut rectangles: Vec<DeadRectangle> = Vec::new();
    for j in 0..num_rectangles
        invariant
            values@.len() == draw_count(ns, nr, nc, num_rectangles as int),
            draw_count(ns, nr, nc, num_rectangles as int) <= usize::MAX,
            base == ns + nr + nc,
            ns == num_scattered_pixels,
            nr == num_rows,
            nc == num_columns,
            rectangles@.len() == j,
            forall|i: int|
                0 <= i < j ==> #[trigger] rectangles@[i] == (DeadRectangle {
                    corner_x: values@[base + 4 * i],
                    corner_y: values@[base + 4 * i + 1],
                    x_size: values@[base + 4 * i + 2],
                    y_size: values@[base + 4 * i + 3],
                }),
    {
        let at = base + 4 * j;
        rectangles.push(
            DeadRectangle {
                corner_x: values[at],
                corner_y: values[at + 1],
                x_size: values[at + 2],
                y_size: values[at + 3],
            },
        );
    }
    let layout = DeadPixelLayout { scattered, rows, columns, rectangles };
    proof {
        lemma_layout_takes_each_draw(layout, values@, ns, nr, nc, num_rectangles as int);
    }
    layout
}

/// A layout made of draws that follow the draw plan of a plane of `size`
/// pixels per row lies inside that plane.
pub proof fn lemma_drawn_layout_fits(
    layout: DeadPixelLayout,
    values: Seq<usize>,
    size: int,
    num_scattered_pixels: int,
    num_rows: int,
    num_columns: int,
    num_rectangles: int,
)
    requires
        RECTANGLE_CORNER_MARGIN < size,
        size * size <= usize::MAX,
        0 <= num_scattered_pixels,
        0 <= num_rows,
        0 <= num_columns,
        0 <= num_rectangles,
        draws_follow(
            draw_plan_spec(size, num_scattered_pixels, num_rows, num_columns, num_rectangles),
            values,
        ),
        is_layout_of_draws(layout, values, num_scattered_pixels, num_rows, num_columns, num_rectangles),
    ensures
        layout_fits(layout, size),
{
    let ns = num_scattered_pixels;
    let nr = num_rows;
    let nc = num_columns;
    let plan = draw_plan_spec(size, ns, nr, nc, num_rectangles);
    assert forall|k: int| 0 <= k < layout.scattered@.len() implies #[trigger] layout.scattered@[k]
        < size * size by {
        assert(layout.scattered@[k] == values[k]);
        assert(plan[k] == draw_range_at(size, ns, nr, nc, k));
    }
    assert forall|k: int| 0 <= k < layout.rows@.len() implies #[trigger] layout.rows@[k] < size by {
        assert(layout.rows@[k] == values[ns + k]);
        assert(plan[ns + k] == draw_range_at(size, ns, nr, nc, ns + k));
    }
    assert forall|k: int| 0 <= k < layout.columns@.len() implies #[trigger] layout.columns@[k]
        < size by {
        assert(layout.columns@[k] == values[ns + nr + k]);
        assert(plan[ns + nr + k] == draw_range_at(size, ns, nr, nc, ns + nr + k));
    }
    assert forall|j: int| 0 <= j < layout.rectangles@.len() implies {
        let r = #[trigger] layout.rectangles@[j];
        &&& r.corner_x + r.x_size <= size
        &&& r.corner_y + r.y_size <= size
    } by {
        let b = ns + nr + nc;
        lemma_rectangle_draw_ranges(size, ns, nr, nc, j);
        assert(plan[b + 4 * j] == draw_range_at(size, ns, nr, nc, b + 4 * j));
        assert(plan[b + 4 * j + 1] == draw_range_at(size, ns, nr, nc, b + 4 * j + 1));
        assert(plan[b + 4 * j + 2] == draw_range_at(size, ns, nr, nc, b + 4 * j + 2));
        assert(plan[b + 4 * j + 3] == draw_range_at(size, ns, nr, nc, b + 4 * j + 3));
        assert(values[b + 4 * j] < size - RECTANGLE_CORNER_MARGIN);
        assert(values[b + 4 * j + 1] < size - RECTANGLE_CORNER_MARGIN);
        assert(values[b + 4 * j + 2] < RECTANGLE_SIDE_BOUND);
        assert(values[b + 4 * j + 3] < RECTANGLE_SIDE_BOUND);
    }
}

/// Draws a random dead-pixel layout for a square plane of `size` by `size`
/// pixels: `num_scattered_pixels` single pixels, `num_rows` rows,
/// `num_columns` columns and `num_rectangles` rectangles. Draw `k` is made
/// uniformly from range `k` of the draw plan (see `draw_range_at`), and the
/// layout is made of the draws (see `layout_from_draws`). Returns the draws
/// and the layout.
pub fn draw_dead_pixel_layout(
    size: usize,
    num_scattered_pixels: usize,
    num_rows: usize,
    num_columns: usize,
    num_rectangles: usize,
) -> (result: (Vec<usize>, DeadPixelLayout))
    requires
        RECTANGLE_CORNER_MARGIN < size,
        size * size <= usize::MAX,
        draw_count(
            num_scattered_pixels as int,
            num_rows as int,
            num_columns as int,
            num_rectangles as int,
        ) <= usize::MAX,
    ensures
        draws_follow(
            draw_plan_spec(
                size as int,
                num_scattered_pixels as int,
                num_rows as int,
                num_columns as int,
                num_rectangles as int,
            ),
            result.0@,
        ),
        is_layout_of_draws(
            result.1,
            result.0@,
            num_scattered_pixels as int,
            num_rows as int,
            num_columns as int,
            num_rectangles as int,
        ),
        layout_fits(result.1, size as int),
        result.0@.len() == num_scattered_pixels as int + num_rows as int + num_columns as int + 4 * num_rectangles as int,
        forall|k: int| 0 <= k < num_scattered_pixels as int ==> #[trigger] result.0@[k] < size as int * size as int,
        forall|k: int| num_scattered_pixels as int <= k < num_scattered_pixels as int + num_rows as int + num_columns as int ==> #[trigger] result.0@[k] < size as int,
        forall|j: int, d: int|
            0 <= j < num_rectangles as int && 0 <= d < 2 ==> #[trigger] result.0@[num_scattered_pixels as int + num_rows as int + num_columns as int + 4 * j + d] < size as int - 200,
        forall|j: int, d: int|
            0 <= j < num_rectangles as int && 2 <= d < 4 ==> 100 <= #[trigger] result.0@[num_scattered_pixels as int + num_rows as int + num_columns as int + 4 * j + d] < 199,
        forall|k: int| 0 <= k < num_rows ==> #[trigger] result.1.rows@[k] == result.0@[num_scattered_pixels + k],
        forall|k: int| 0 <= k < num_columns ==> #[trigger] result.1.columns@[k] == result.0@[num_scattered_pixels + num_rows + k],
        forall|k: int| 0 <= k < num_scattered_pixels ==> #[trigger] result.1.scattered@[k] == result.0@[k],
{
    let plan = dead_pixel_draw_plan(size, num_scattered_pixels, num_rows, num_columns, num_rectangles);
    assert(0 < size * size) by (nonlinear_arith)
        requires
            0 < size,
    ;
    assert forall|k: int| 0 <= k < plan@.len() implies (#[trigger] plan@[k]).0 < plan@[k].1 by {
        let b = num_scattered_pixels + num_rows + num_columns;
        if k >= b {
            lemma_join_index(4, k - b);
        }
    }
    let values = draw_by_plan(&plan);
    let layout = layout_from_draws(&values, num_scattered_pixels, num_rows, num_columns, num_rectangles);
    proof {
        lemma_drawn_layout_fits(
            layout,
            values@,
            size as int,
            num_scattered_pixels as int,
            num_rows as int,
            num_columns as int,
            num_rectangles as int,
        );
        lemma_draws_in_range(
            values@,
            size as int,
            num_scattered_pixels as int,
            num_rows as int,
            num_columns as int,
            num_rectangles as int,
        );
    }
    (values, layout)
}

/// Draws a random dead-pixel layout (see `draw_dead_pixel_layout`) and
/// renders its live/dead map, row by row, `true` for a live pixel. Returns the
/// draws, the layout and the map.
pub fn hallucinate_dead_pixel_mask(
    size: usize,
    num_scattered_pixels: usize,
    num_rows: usize,
    num_columns: usize,
    num_rectangles: usize,
) -> (result: (Vec<usize>, DeadPixelLayout, Vec<bool>))
    requires
        RECTANGLE_CORNER_MARGIN < size,
        size * size <= usize::MAX,
        draw_count(
            num_scattered_pixels as int,
            num_rows as int,
            num_columns as int,
            num_rectangles as int,
        ) <= usize::MAX,
    ensures
        draws_follow(
            draw_plan_spec(
                size as int,
                num_scattered_pixels as int,
                num_rows as int,
                num_columns as int,
                num_rectangles as int,
            ),
            result.0@,
        ),
        is_layout_of_draws(
            result.1,
            result.0@,
            num_scattered_pixels as int,
            num_rows as int,
            num_columns as int,
            num_rectangles as int,
        ),
        is_mask_of(result.2@, result.1, size as int),
        result.0@.len() == num_scattered_pixels as int + num_rows as int + num_columns as int + 4 * num_rectangles as int,
        forall|k: int| 0 <= k < num_scattered_pixels as int ==> #[trigger] result.0@[k] < size as int * size as int,
        forall|k: int| num_scattered_pixels as int <= k < num_scattered_pixels as int + num_rows as int + num_columns as int ==> #[trigger] result.0@[k] < size as int,
        forall|j: int, d: int|
            0 <= j < num_rectangles as int && 0 <= d < 2 ==> #[trigger] result.0@[num_scattered_pixels as int + num_rows as int + num_columns as int + 4 * j + d] < size as int - 200,
        forall|j: int, d: int|
            0 <= j < num_rectangles as int && 2 <= d < 4 ==> 100 <= #[trigger] result.0@[num_scattered_pixels as int + num_rows as int + num_columns as int + 4 * j + d] < 199,
        forall|k: int| 0 <= k < num_rows ==> #[trigger] result.1.rows@[k] == result.0@[num_scattered_pixels + k],
        forall|k: int| 0 <= k < num_columns ==> #[trigger] result.1.columns@[k] == result.0@[num_scattered_pixels + num_rows + k],
        forall|k: int| 0 <= k < num_scattered_pixels ==> #[trigger] result.1.scattered@[k] == result.0@[k],
{
    let (values, layout) = draw_dead_pixel_layout(
        size,
        num_scattered_pixels,
        num_rows,
        num_columns,
        num_rectangles,
    );
    let mask = dead_pixel_mask(size, &layout);
    (values, layout, mask)
}

/// Each defect of a layout made of draws is its own draw, in drawing order:
/// scattered pixel `k` is draw `k`, dead row `k` is draw
/// `num_scattered_pixels + k`, dead column `k` is draw
/// `num_scattered_pixels + num_rows + k`, and rectangle `j` takes the four
/// draws from `num_scattered_pixels + num_rows + num_columns + 4 * j` as its
/// corner column, corner row, width and height.
pub proof fn lemma_layout_takes_each_draw(
    layout: DeadPixelLayout,
    values: Seq<usize>,
    num_scattered_pixels: int,
    num_rows: int,
    num_columns: int,
    num_rectangles: int,
)
    requires
        0 <= num_scattered_pixels,
        0 <= num_rows,
        0 <= num_columns,
        0 <= num_rectangles,
        is_layout_of_draws(layout, values, num_scattered_pixels, num_rows, num_columns, num_rectangles),
    ensures
        layout.scattered@.len() == num_scattered_pixels,
        layout.rows@.len() == num_rows,
        layout.columns@.len() == num_columns,
        layout.rectangles@.len() == num_rectangles,
        forall|k: int| 0 <= k < num_scattered_pixels ==> #[trigger] layout.scattered@[k] == values[k],
        forall|k: int| 0 <= k < num_rows ==> #[trigger] layout.rows@[k] == values[num_scattered_pixels + k],
        forall|k: int| 0 <= k < num_columns ==> #[trigger] layout.columns@[k] == values[num_scattered_pixels + num_rows + k],
        forall|j: int|
            0 <= j < num_rectangles ==> {
                let r = #[trigger] layout.rectangles@[j];
                let at = num_scattered_pixels + num_rows + num_columns + 4 * j;
                &&& r.corner_x == values[at]
                &&& r.corner_y == values[at + 1]
                &&& r.x_size == values[at + 2]
                &&& r.y_size == values[at + 3]
            },
{
    assert forall|k: int| 0 <= k < num_rows implies #[trigger] layout.rows@[k] == values[num_scattered_pixels + k] by {
        assert(layout.rows@[k] == values.subrange(num_scattered_pixels, num_scattered_pixels + num_rows)[k]);
    }
    assert forall|k: int| 0 <= k < num_columns implies #[trigger] layout.columns@[k] == values[num_scattered_pixels + num_rows + k] by {
        assert(layout.columns@[k] == values.subrange(num_scattered_pixels + num_rows, num_scattered_pixels + num_rows + num_columns)[k]);
    }
    assert forall|k: int| 0 <= k < num_scattered_pixels implies #[trigger] layout.scattered@[k] == values[k] by {
        assert(layout.scattered@[k] == values.subrange(0, num_scattered_pixels)[k]);
    }
}

/// The ranges of the draws of a dead-pixel layout of a plane of `size` pixels
/// per row: `[0, size * size)` for each scattered pixel, `[0, size)` for each
/// dead row and each dead column, and for each rectangle `[0, size - 200)` for
/// its corner column and corner row and `[100, 199)` for its width and height.
pub proof fn lemma_draw_plan_ranges(
    plan: Seq<(usize, usize)>,
    size: int,
    num_scattered_pixels: int,
    num_rows: int,
    num_columns: int,
    num_rectangles: int,
)
    requires
        0 <= num_scattered_pixels,
        0 <= num_rows,
        0 <= num_columns,
        0 <= num_rectangles,
        plan == draw_plan_spec(size, num_scattered_pixels, num_rows, num_columns, num_rectangles),
    ensures
        plan.len() == num_scattered_pixels + num_rows + num_columns + 4 * num_rectangles,
        forall|i: int| 0 <= i < num_scattered_pixels ==> #[trigger] plan[i] == (0usize, (size * size) as usize),
        forall|i: int|
            num_scattered_pixels <= i < num_scattered_pixels + num_rows ==> #[trigger] plan[i] == (
            0usize,
            size as usize,
        ),
        forall|i: int|
            num_scattered_pixels + num_rows <= i < num_scattered_pixels + num_rows + num_columns
                ==> #[trigger] plan[i] == (0usize, size as usize),
        forall|j: int, d: int|
            0 <= j < num_rectangles && 0 <= d < 2 ==> #[trigger] plan[num_scattered_pixels + num_rows
                + num_columns + 4 * j + d] == (0usize, (size - 200) as usize),
        forall|j: int, d: int|
            0 <= j < num_rectangles && 2 <= d < 4 ==> #[trigger] plan[num_scattered_pixels + num_rows
                + num_columns + 4 * j + d] == (100usize, 199usize),
{
    let b = num_scattered_pixels + num_rows + num_columns;
    assert forall|j: int, d: int| 0 <= j < num_rectangles && 0 <= d < 4 implies ({
        let e = #[trigger] plan[b + 4 * j + d];
        &&& d < 2 ==> e == (0usize, (size - 200) as usize)
        &&& 2 <= d ==> e == (100usize, 199usize)
    }) by {
        lemma_fundamental_div_mod_converse(4 * j + d, 4, j, d);
        assert(b + 4 * j + d - b == 4 * j + d);
    }
}

/// Every defect of a live/dead map kills what it covers, and nothing else is
/// dead: a pixel `i` (row `i / size`, column `i % size`) is dead when it is a
/// scattered pixel, lies on a dead row or a dead column, or lies in a dead
/// rectangle, and a pixel that is none of these is live.
pub proof fn lemma_mask_kills_exactly_the_defects(mask: Seq<bool>, layout: DeadPixelLayout, size: int)
    requires
        0 < size,
        is_mask_of(mask, layout, size),
    ensures
        mask.len() == size * size,
        forall|k: int, i: int|
            0 <= k < layout.scattered@.len() && 0 <= i < size * size && #[trigger] layout.scattered@[k] == i
                ==> !#[trigger] mask[i],
        forall|k: int, i: int|
            0 <= k < layout.rows@.len() && 0 <= i < size * size && #[trigger] layout.rows@[k] == i / size
                ==> !#[trigger] mask[i],
        forall|k: int, i: int|
            0 <= k < layout.columns@.len() && 0 <= i < size * size && #[trigger] layout.columns@[k] == i
                % size ==> !#[trigger] mask[i],
        forall|k: int, i: int|
            0 <= k < layout.rectangles@.len() && 0 <= i < size * size && ({
                let r = #[trigger] layout.rectangles@[k];
                &&& r.corner_y <= i / size < r.corner_y + r.y_size
                &&& r.corner_x <= i % size < r.corner_x + r.x_size
            }) ==> !#[trigger] mask[i],
        forall|i: int|
            0 <= i < size * size && (forall|k: int| 0 <= k < layout.scattered@.len() ==> layout.scattered@[k] != i)
                && (forall|k: int| 0 <= k < layout.rows@.len() ==> layout.rows@[k] != i / size) && (forall|k: int|
                0 <= k < layout.columns@.len() ==> layout.columns@[k] != i % size) && (forall|k: int|
                0 <= k < layout.rectangles@.len() ==> !({
                    let r = #[trigger] layout.rectangles@[k];
                    &&& r.corner_y <= i / size < r.corner_y + r.y_size
                    &&& r.corner_x <= i % size < r.corner_x + r.x_size
                })) ==> #[trigger] mask[i],
{
    assert forall|k: int, i: int|
        0 <= k < layout.rectangles@.len() && 0 <= i < size * size && ({
            let r = #[trigger] layout.rectangles@[k];
            &&& r.corner_y <= i / size < r.corner_y + r.y_size
            &&& r.corner_x <= i % size < r.corner_x + r.x_size
        }) implies !#[trigger] mask[i] by {
        assert(rectangle_covers(layout.rectangles@[k], i / size, i % size));
    }
}

/// Where each draw of a dead-pixel layout falls: a scattered pixel in
/// `[0, size * size)`, a dead row or column in `[0, size)`, a rectangle corner
/// in `[0, size - 200)` and a rectangle side in `[100, 199)`.
pub proof fn lemma_draws_in_range(
    values: Seq<usize>,
    size: int,
    num_scattered_pixels: int,
    num_rows: int,
    num_columns: int,
    num_rectangles: int,
)
    requires
        RECTANGLE_CORNER_MARGIN < size,
        size * size <= usize::MAX,
        0 <= num_scattered_pixels,
        0 <= num_rows,
        0 <= num_columns,
        0 <= num_rectangles,
        draws_follow(
            draw_plan_spec(size, num_scattered_pixels, num_rows, num_columns, num_rectangles),
            values,
        ),
    ensures
        values.len() == num_scattered_pixels + num_rows + num_columns + 4 * num_rectangles,
        forall|k: int| 0 <= k < num_scattered_pixels ==> #[trigger] values[k] < size * size,
        forall|k: int| num_scattered_pixels <= k < num_scattered_pixels + num_rows + num_columns ==> #[trigger] values[k] < size,
        forall|j: int, d: int|
            0 <= j < num_rectangles && 0 <= d < 2 ==> #[trigger] values[num_scattered_pixels + num_rows + num_columns + 4 * j + d] < size - 200,
        forall|j: int, d: int|
            0 <= j < num_rectangles && 2 <= d < 4 ==> 100 <= #[trigger] values[num_scattered_pixels + num_rows + num_columns + 4 * j + d] < 199,
{
    let plan = draw_plan_spec(size, num_scattered_pixels, num_rows, num_columns, num_rectangles);
    lemma_draw_plan_ranges(plan, size, num_scattered_pixels, num_rows, num_columns, num_rectangles);
    assert forall|k: int| 0 <= k < num_scattered_pixels implies #[trigger] values[k] < size * size by {
        assert(plan[k] == (0usize, (size * size) as usize));
    }
    assert forall|k: int| num_scattered_pixels <= k < num_scattered_pixels + num_rows + num_columns implies #[trigger] values[k] < size by {
        assert(plan[k] == (0usize, size as usize));
    }
    let b = num_scattered_pixels + num_rows + num_columns;
    assert forall|j: int, d: int| 0 <= j < num_rectangles && 0 <= d < 2 implies #[trigger] values[b + 4 * j + d] < size - 200 by {
        assert(plan[b + 4 * j + d] == (0usize, (size - 200) as usize));
    }
    assert forall|j: int, d: int| 0 <= j < num_rectangles && 2 <= d < 4 implies 100 <= #[trigger] values[b + 4 * j + d] < 199 by {
        assert(plan[b + 4 * j + d] == (100usize, 199usize));
    }
}

} // verus!
