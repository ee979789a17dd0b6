//! Demosaicing of raw Bayer frames laid out as `B G / G R` in every 2x2 block.

use vstd::prelude::*;
use vstd::arithmetic::div_mod::lemma_fundamental_div_mod_converse;

verus! {

/// Sample at `(row, col)` of a row-major frame of the given width.
pub open spec fn at(data: Seq<u8>, width: int, row: int, col: int) -> u8 {
    data[row * width + col]
}

/// Truncating mean of two samples.
pub open spec fn mean2(a: u8, b: u8) -> u8 {
    ((a as int + b as int) / 2) as u8
}

/// Channel `c` (0 = red, 1 = green, 2 = blue) of the output pixel that the
/// fast path makes from the 2x2 block whose top-left sample is at
/// `(2 * by, 2 * bx)`.
pub open spec fn superpixel_channel(data: Seq<u8>, width: int, by: int, bx: int, c: int) -> u8 {
    if c == 0 {
        at(data, width, 2 * by + 1, 2 * bx + 1)
    } else if c == 1 {
        mean2(at(data, width, 2 * by, 2 * bx + 1), at(data, width, 2 * by + 1, 2 * bx))
    } else {
        at(data, width, 2 * by, 2 * bx)
    }
}

/// Byte `q` of the fast path's output, whose rows are `out_w` pixels wide.
pub open spec fn superpixel_byte(data: Seq<u8>, width: int, out_w: int, q: int) -> u8 {
    superpixel_channel(data, width, (q / 3) / out_w, (q / 3) % out_w, q % 3)
}

/// `(row * width + col)` splits back into `row` and `col`.
pub proof fn lemma_row_col(width: int, row: int, col: int)
    requires
        0 <= col < width,
    ensures
        (row * width + col) / width == row,
        (row * width + col) % width == col,
{
    lemma_fundamental_div_mod_converse(row * width + col, width, row, col);
}

/// A position inside a `width` x `height` frame has an index below its size.
pub proof fn lemma_index_bound(width: int, height: int, row: int, col: int)
    requires
        0 <= row < height,
        0 <= col < width,
    ensures
        0 <= row * width,
        0 <= row * width + col < width * height,
{
    assert(0 <= row * width) by (nonlinear_arith)
        requires
            0 <= row,
            0 <= col < width,
    ;
    assert(row * width + width <= width * height) by (nonlinear_arith)
        requires
            0 <= row < height,
            0 <= col < width,
    ;
}

/// Fast preview demosaic: every 2x2 block `B G / G R` becomes one RGB pixel,
/// with red from the bottom-right sample, green the truncating mean of the
/// top-right and bottom-left samples and blue from the top-left sample. The
/// output is `width / 2` by `height / 2` pixels of three bytes each.
pub fn debayer_superpixel(data: &[u8], width: u32, height: u32) -> (out: Vec<u8>)
    requires
        data@.len() == width as int * height as int,
    ensures
        out@.len() == (width as int / 2) * (height as int / 2) * 3,
        forall|by: int, bx: int, c: int|
            0 <= by < height as int / 2 && 0 <= bx < width as int / 2 && 0 <= c < 3
                ==> #[trigger] out@[3 * (by * (width as int / 2) + bx) + c]
                == superpixel_channel(data@, width as int, by, bx, c),
{
    let w = width as usize;
    let h = height as usize;
    let out_w = w / 2;
    let out_h = h / 2;
    let n = data.len();
    let mut out: Vec<u8> = Vec::new();
    let mut by: usize = 0;
    while by < out_h
        invariant
            w == width,
            h == height,
            out_w == w / 2,
            out_h == h / 2,
            data@.len() == w * h,
            n == data@.len(),
            by <= out_h,
            out@.len() == 3 * (by * out_w),
            forall|q: int|
                0 <= q < out@.len() ==> #[trigger] out@[q] == superpixel_byte(
                    data@,
                    w as int,
                    out_w as int,
                    q,
                ),
        decreases out_h - by,
    {
        let mut bx: usize = 0;
        while bx < out_w
            invariant
                w == width,
                h == height,
                out_w == w / 2,
                out_h == h / 2,
                data@.len() == w * h,
                n == data@.len(),
                by < out_h,
                bx <= out_w,
                out@.len() == 3 * (by * out_w + bx),
                forall|q: int|
                    0 <= q < out@.len() ==> #[trigger] out@[q] == superpixel_byte(
                        data@,
                        w as int,
                        out_w as int,
                        q,
                    ),
            decreases out_w - bx,
        {
            proof {
                lemma_index_bound(w as int, h as int, 2 * by + 1, 2 * bx + 1);
                lemma_index_bound(w as int, h as int, 2 * by, 2 * bx + 1);
                lemma_index_bound(w as int, h as int, 2 * by + 1, 2 * bx);
                lemma_index_bound(w as int, h as int, 2 * by, 2 * bx);
                lemma_index_bound(out_w as int, out_h as int, by as int, bx as int);
            }
            let row0 = 2 * by;
            let top = row0 * w + 2 * bx;
            proof {
                assert(top + w == (2 * by + 1) * w + 2 * bx) by (nonlinear_arith)
                    requires
                        top == (2 * by) * w + 2 * bx,
                ;
            }
            let bottom = top + w;
            let red = data[bottom + 1];
            let green = ((data[top + 1] as u16 + data[bottom] as u16) / 2) as u8;
            let blue = data[top];
            let ghost p = by * out_w + bx;
            let ghost start = out@.len();
            proof {
                lemma_row_col(out_w as int, by as int, bx as int);
                lemma_fundamental_div_mod_converse(3 * p, 3, p, 0);
                lemma_fundamental_div_mod_converse(3 * p + 1, 3, p, 1);
                lemma_fundamental_div_mod_converse(3 * p + 2, 3, p, 2);
            }
            out.push(red);
            out.push(green);
            out.push(blue);
            bx = bx + 1;
            proof {
                assert(out@.len() == 3 * (by * out_w + bx)) by (nonlinear_arith)
                    requires out@.len() == 3 * p + 3, p == by * out_w + bx - 1;
            }
        }
        by = by + 1;
        proof {
            assert(out@.len() == 3 * (by * out_w)) by (nonlinear_arith)
                requires out@.len() == 3 * ((by - 1) * out_w + out_w);
        }
    }
    proof {
        assert forall|yy: int, xx: int, c: int|
            0 <= yy < out_h && 0 <= xx < out_w && 0 <= c < 3 implies #[trigger] out@[3 * (yy * out_w + xx) + c]
            == superpixel_channel(data@, w as int, yy, xx, c) by {
            let q = 3 * (yy * out_w + xx) + c;
            lemma_index_bound(out_w as int, out_h as int, yy, xx);
            lemma_fundamental_div_mod_converse(q, 3, yy * out_w + xx, c);
            lemma_row_col(out_w as int, yy, xx);
            assert(q < out@.len()) by (nonlinear_arith)
                requires q == 3 * (yy * out_w + xx) + c, c < 3, yy * out_w + xx < out_h * out_w,
                    out@.len() == 3 * (out_h * out_w);
        }
    }
    out
}

/// Sites of the Bayer grid that hold a red sample.
pub open spec fn is_red_site(row: int, col: int) -> bool {
    row % 2 == 1 && col % 2 == 1
}

/// Sites of the Bayer grid that hold a blue sample.
pub open spec fn is_blue_site(row: int, col: int) -> bool {
    row % 2 == 0 && col % 2 == 0
}

/// Sites of the Bayer grid that hold a green sample.
pub open spec fn is_green_site(row: int, col: int) -> bool {
    row % 2 != col % 2
}

/// Value at flat index `i` of a sparse plane: the raw sample where `keep`
/// holds, zero elsewhere.
pub open spec fn sparse_at(data: Seq<u8>, i: int, keep: bool) -> u8 {
    if keep {
        data[i]
    } else {
        0
    }
}

/// A well-formed frame for the full path: complete 2x2 blocks, and room for
/// three bytes per pixel.
pub open spec fn full_frame(len: int, width: int, height: int) -> bool {
    &&& len == width * height
    &&& width % 2 == 0
    &&& height % 2 == 0
    &&& 3 * len <= usize::MAX
}

/// Splits a raw frame into three full-size planes `(red, green, blue)`. Each
/// plane keeps the samples of its own Bayer sites and is zero elsewhere.
pub fn separate_colors(data: &[u8], width: usize, height: usize) -> (planes: (Vec<u8>, Vec<u8>, Vec<u8>))
    requires
        data@.len() == width * height,
    ensures
        planes.0@.len() == data@.len(),
        planes.1@.len() == data@.len(),
        planes.2@.len() == data@.len(),
        forall|i: int|
            0 <= i < data@.len() ==> {
                let row = (i / width as int);
                let col = (i % width as int);
                &&& #[trigger] planes.0@[i] == sparse_at(data@, i, is_red_site(row, col))
                &&& planes.1@[i] == sparse_at(data@, i, is_green_site(row, col))
                &&& planes.2@[i] == sparse_at(data@, i, is_blue_site(row, col))
            },
{
    let n = data.len();
    let mut r: Vec<u8> = Vec::new();
    let mut g: Vec<u8> = Vec::new();
    let mut b: Vec<u8> = Vec::new();
    let mut row: usize = 0;
    while row < height
        invariant
            n == data@.len(),
            n == width * height,
            row <= height,
            r@.len() == row * width,
            g@.len() == r@.len(),
            b@.len() == r@.len(),
            forall|i: int|
                0 <= i < r@.len() ==> {
                    let rr = (i / width as int);
                    let cc = (i % width as int);
                    &&& #[trigger] r@[i] == sparse_at(data@, i, is_red_site(rr, cc))
                    &&& g@[i] == sparse_at(data@, i, is_green_site(rr, cc))
                    &&& b@[i] == sparse_at(data@, i, is_blue_site(rr, cc))
                },
        decreases height - row,
    {
        let mut col: usize = 0;
        while col < width
            invariant
                n == data@.len(),
                n == width * height,
                row < height,
                col <= width,
                r@.len() == row * width + col,
                g@.len() == r@.len(),
                b@.len() == r@.len(),
                forall|i: int|
                    0 <= i < r@.len() ==> {
                        let rr = (i / width as int);
                        let cc = (i % width as int);
                        &&& #[trigger] r@[i] == sparse_at(data@, i, is_red_site(rr, cc))
                        &&& g@[i] == sparse_at(data@, i, is_green_site(rr, cc))
                        &&& b@[i] == sparse_at(data@, i, is_blue_site(rr, cc))
                    },
            decreases width - col,
        {
            proof {
                lemma_index_bound(width as int, height as int, row as int, col as int);
                lemma_row_col(width as int, row as int, col as int);
            }
            let pos = row * width + col;
            let v = data[pos];
            let (rv, gv, bv) = if row % 2 == 0 {
                if col % 2 == 0 {
                    (0, 0, v)
                } else {
                    (0, v, 0)
                }
            } else {
                if col % 2 == 0 {
                    (0, v, 0)
                } else {
                    (v, 0, 0)
                }
            };
            let ghost (r0, g0, b0) = (r@, g@, b@);
            r.push(rv);
            g.push(gv);
            b.push(bv);
            proof {
                assert forall|i: int| 0 <= i < r@.len() implies {
                    let rr = (i / width as int);
                    let cc = (i % width as int);
                    &&& #[trigger] r@[i] == sparse_at(data@, i, is_red_site(rr, cc))
                    &&& g@[i] == sparse_at(data@, i, is_green_site(rr, cc))
                    &&& b@[i] == sparse_at(data@, i, is_blue_site(rr, cc))
                } by {
                    if i < pos {
                        assert(r@[i] == r0[i] && g@[i] == g0[i] && b@[i] == b0[i]);
                    }
                }
            }
            col = col + 1;
        }
        proof {
            assert(row * width + width == (row + 1) * width) by (nonlinear_arith);
        }
        row = row + 1;
    }
    proof {
        assert(height * width == width * height) by (nonlinear_arith);
    }
    (r, g, b)
}

/// Number of orthogonal neighbours (up, right, down, left) that a pixel has
/// inside a `width` x `height` frame.
pub open spec fn neighbour_count(width: int, height: int, row: int, col: int) -> int {
    (if row > 0 { 1int } else { 0 }) + (if col < width - 1 { 1int } else { 0 }) + (if row < height
        - 1 {
        1int
    } else {
        0
    }) + (if col > 0 { 1int } else { 0 })
}

/// Sum of the orthogonal neighbours of a pixel that lie inside the frame.
pub open spec fn neighbour_sum(data: Seq<u8>, width: int, height: int, row: int, col: int) -> int {
    (if row > 0 { at(data, width, row - 1, col) as int } else { 0 }) + (if col < width - 1 {
        at(data, width, row, col + 1) as int
    } else {
        0
    }) + (if row < height - 1 { at(data, width, row + 1, col) as int } else { 0 }) + (if col > 0 {
        at(data, width, row, col - 1) as int
    } else {
        0
    })
}

/// The green plane after reconstruction: known green samples stay, every
/// other site takes the truncating mean of its orthogonal neighbours.
pub open spec fn green_smudged(data: Seq<u8>, width: int, height: int, row: int, col: int) -> u8 {
    if is_green_site(row, col) {
        at(data, width, row, col)
    } else {
        (neighbour_sum(data, width, height, row, col) / neighbour_count(width, height, row, col)) as u8
    }
}

/// Every pixel of a frame at least two pixels wide and high has between two
/// and four orthogonal neighbours: exactly two at a corner, exactly four away
/// from the border.
pub proof fn lemma_neighbour_count(width: int, height: int, row: int, col: int)
    requires
        width >= 2,
        height >= 2,
        0 <= row < height,
        0 <= col < width,
    ensures
        2 <= neighbour_count(width, height, row, col) <= 4,
        (row == 0 || row == height - 1) && (col == 0 || col == width - 1) ==> neighbour_count(
            width,
            height,
            row,
            col,
        ) == 2,
        0 < row < height - 1 && 0 < col < width - 1 ==> neighbour_count(width, height, row, col)
            == 4,
{
}

/// Reconstructs the green plane: each site without a green sample takes the
/// truncating mean of its two to four orthogonal neighbours.
pub fn smudge_green(data: &[u8], width: usize, height: usize) -> (out: Vec<u8>)
    requires
        full_frame(data@.len() as int, width as int, height as int),
    ensures
        out@.len() == data@.len(),
        forall|i: int|
            0 <= i < data@.len() ==> #[trigger] out@[i] == green_smudged(
                data@,
                width as int,
                height as int,
                (i / width as int),
                (i % width as int),
            ),
{
    let n = data.len();
    let mut out: Vec<u8> = Vec::new();
    let mut row: usize = 0;
    while row < height
        invariant
            n == data@.len(),
            full_frame(n as int, width as int, height as int),
            row <= height,
            out@.len() == row * width,
            forall|i: int|
                0 <= i < out@.len() ==> #[trigger] out@[i] == green_smudged(
                    data@,
                    width as int,
                    height as int,
                    (i / width as int),
                    (i % width as int),
                ),
        decreases height - row,
    {
        let mut col: usize = 0;
        while col < width
            invariant
                n == data@.len(),
                full_frame(n as int, width as int, height as int),
                row < height,
                col <= width,
                out@.len() == row * width + col,
                forall|i: int|
                    0 <= i < out@.len() ==> #[trigger] out@[i] == green_smudged(
                        data@,
                        width as int,
                        height as int,
                        (i / width as int),
                        (i % width as int),
                    ),
            decreases width - col,
        {
            proof {
                lemma_index_bound(width as int, height as int, row as int, col as int);
                lemma_row_col(width as int, row as int, col as int);
                lemma_neighbour_count(width as int, height as int, row as int, col as int);
                if row + 1 < height {
                    lemma_index_bound(width as int, height as int, row + 1, col as int);
                    assert((row + 1) * width == row * width + width) by (nonlinear_arith);
                }
                if col + 1 < width {
                    lemma_index_bound(width as int, height as int, row as int, col + 1);
                }
                if row > 0 {
                    lemma_index_bound(width as int, height as int, row - 1, col as int);
                    assert((row - 1) * width == row * width - width) by (nonlinear_arith);
                }
            }
            let pos = row * width + col;
            if row % 2 == col % 2 {
                let mut count: usize = 0;
                let mut value: usize = 0;
                if row > 0 {
                    count = count + 1;
                    value = value + data[pos - width] as usize;
                }
                if col < width - 1 {
                    count = count + 1;
                    value = value + data[pos + 1] as usize;
                }
                if row < height - 1 {
                    count = count + 1;
                    value = value + data[pos + width] as usize;
                }
                if col > 0 {
                    count = count + 1;
                    value = value + data[pos - 1] as usize;
                }
                proof {
                    assert(value / count <= 255) by (nonlinear_arith)
                        requires
                            value <= 255 * count,
                            count > 0,
                    ;
                }
                out.push((value / count) as u8);
            } else {
                out.push(data[pos]);
            }
            col = col + 1;
        }
        proof {
            assert(row * width + width == (row + 1) * width) by (nonlinear_arith);
        }
        row = row + 1;
    }
    proof {
        assert(height * width == width * height) by (nonlinear_arith);
    }
    out
}

/// Red plane after the first pass, on an odd row: the missing samples take
/// the mean of their left and right neighbours (only the right one at the
/// left border).
pub open spec fn red_across(data: Seq<u8>, width: int, row: int, col: int) -> u8 {
    if col % 2 == 1 {
        at(data, width, row, col)
    } else if col > 0 {
        mean2(at(data, width, row, col + 1), at(data, width, row, col - 1))
    } else {
        at(data, width, row, col + 1)
    }
}

/// The red plane after reconstruction: odd rows are filled across, then each
/// even row takes the mean of the filled rows below and above it (only the
/// one below at the top border).
pub open spec fn red_smudged(data: Seq<u8>, width: int, height: int, row: int, col: int) -> u8 {
    if row % 2 == 1 {
        red_across(data, width, row, col)
    } else if row > 0 {
        mean2(red_across(data, width, row + 1, col), red_across(data, width, row - 1, col))
    } else {
        red_across(data, width, row + 1, col)
    }
}

/// Blue plane after the first pass, on an even row: the missing samples take
/// the mean of their left and right neighbours (only the left one at the
/// right border).
pub open spec fn blue_across(data: Seq<u8>, width: int, row: int, col: int) -> u8 {
    if col % 2 == 0 {
        at(data, width, row, col)
    } else if col < width - 1 {
        mean2(at(data, width, row, col - 1), at(data, width, row, col + 1))
    } else {
        at(data, width, row, col - 1)
    }
}

/// The blue plane after reconstruction: even rows are filled across, then
/// each odd row takes the mean of the filled rows above and below it (only
/// the one above at the bottom border).
pub open spec fn blue_smudged(data: Seq<u8>, width: int, height: int, row: int, col: int) -> u8 {
    if row % 2 == 0 {
        blue_across(data, width, row, col)
    } else if row < height - 1 {
        mean2(blue_across(data, width, row - 1, col), blue_across(data, width, row + 1, col))
    } else {
        blue_across(data, width, row - 1, col)
    }
}

/// A flat index inside a `width` x `height` frame names a row below
/// `height` and a column below `width`.
pub proof fn lemma_index_row_col(width: int, height: int, i: int)
    requires
        0 <= i < width * height,
        width > 0,
    ensures
        0 <= i / width < height,
        0 <= i % width < width,
{
    vstd::arithmetic::div_mod::lemma_fundamental_div_mod(i, width);
    vstd::arithmetic::div_mod::lemma_mod_bound(i, width);
    assert(0 <= i / width < height) by (nonlinear_arith)
        requires
            0 <= i < width * height,
            width > 0,
            i == width * (i / width) + i % width,
            0 <= i % width < width,
    ;
}

/// Only `row * width + col` has row `row` and column `col`.
pub proof fn lemma_same_site(width: int, i: int, row: int, col: int)
    requires
        width > 0,
    ensures
        i / width == row && i % width == col ==> i == row * width + col,
{
    vstd::arithmetic::div_mod::lemma_fundamental_div_mod(i, width);
    assert(width * (i / width) == (i / width) * width) by (nonlinear_arith);
}

/// Facts on the neighbours of `(row, col)` that the reconstruction passes
/// read: where they lie in the flat buffer and which row and column they have.
proof fn lemma_neighbours(width: int, height: int, row: int, col: int)
    requires
        0 <= row < height,
        0 <= col < width,
    ensures
        0 <= row * width + col < width * height,
        (row * width + col) / width == row,
        (row * width + col) % width == col,
        row + 1 < height ==> (row + 1) * width + col < width * height && (row + 1) * width + col
            == row * width + col + width && ((row + 1) * width + col) / width == row + 1 && ((row
            + 1) * width + col) % width == col,
        row > 0 ==> (row - 1) * width + col >= 0 && (row - 1) * width + col == row * width + col
            - width && ((row - 1) * width + col) / width == row - 1 && ((row - 1) * width + col)
            % width == col,
        col + 1 < width ==> row * width + col + 1 < width * height,
{
    lemma_index_bound(width, height, row, col);
    lemma_row_col(width, row, col);
    if row + 1 < height {
        lemma_index_bound(width, height, row + 1, col);
        lemma_row_col(width, row + 1, col);
        assert((row + 1) * width == row * width + width) by (nonlinear_arith);
    }
    if row > 0 {
        lemma_index_bound(width, height, row - 1, col);
        lemma_row_col(width, row - 1, col);
        assert((row - 1) * width == row * width - width) by (nonlinear_arith);
    }
    if col + 1 < width {
        lemma_index_bound(width, height, row, col + 1);
    }
}

/// Reconstructs the red plane (known samples on odd rows and odd columns):
/// first across each odd row, then down each even row from the filled rows.
pub fn smudge_red(data: &[u8], width: usize, height: usize) -> (out: Vec<u8>)
    requires
        full_frame(data@.len() as int, width as int, height as int),
    ensures
        out@.len() == data@.len(),
        forall|i: int|
            0 <= i < data@.len() ==> #[trigger] out@[i] == red_smudged(
                data@,
                width as int,
                height as int,
                (i / width as int),
                (i % width as int),
            ),
{
    let n = data.len();
    let mut out: Vec<u8> = vec![0; n];
    let mut row: usize = 1;
    while row < height
        invariant
            n == data@.len(),
            full_frame(n as int, width as int, height as int),
            row % 2 == 1,
            row <= height + 1,
            out@.len() == n,
            forall|i: int|
                0 <= i < n && (i / width as int) % 2 == 1 && (i / width as int) <= row - 2
                    ==> #[trigger] out@[i] == red_across(
                    data@,
                    width as int,
                    (i / width as int),
                    (i % width as int),
                ),
        decreases height + 1 - row,
    {
        let mut col: usize = 0;
        while col < width
            invariant
                n == data@.len(),
                full_frame(n as int, width as int, height as int),
                row % 2 == 1,
                row < height,
                col <= width,
                out@.len() == n,
                forall|i: int|
                    0 <= i < n && (i / width as int) % 2 == 1 && ((i / width as int) <= row - 2 || (
                    (i / width as int) == row && (i % width as int) < col))
                        ==> #[trigger] out@[i] == red_across(
                        data@,
                        width as int,
                        (i / width as int),
                        (i % width as int),
                    ),
            decreases width - col,
        {
            proof {
                lemma_neighbours(width as int, height as int, row as int, col as int);
            }
            let pos = row * width + col;
            let ghost prev = out@;
            if col % 2 == 1 {
                out[pos] = data[pos];
            } else {
                let mut count: usize = 1;
                let mut value: usize = data[pos + 1] as usize;
                if col > 0 {
                    count = count + 1;
                    value = value + data[pos - 1] as usize;
                }
                proof {
                    assert(value / count <= 255) by (nonlinear_arith)
                        requires
                            value <= 255 * count,
                            count > 0,
                    ;
                }
                proof {
                assert(value / count <= 255) by (nonlinear_arith)
                    requires
                        value <= 255 * count,
                        count > 0,
                ;
            }
            out[pos] = (value / count) as u8;
            }
            proof {
                assert forall|i: int|
                    0 <= i < n && (i / width as int) % 2 == 1 && ((i / width as int) <= row - 2 || (
                    (i / width as int) == row && (i % width as int) < col + 1)) implies #[trigger] out@[i]
                    == red_across(data@, width as int, (i / width as int), (i % width as int)) by {
                    lemma_same_site(width as int, i, row as int, col as int);
                    if i != pos {
                        assert(out@[i] == prev[i]);
                    }
                }
            }
            col = col + 1;
        }
        row = row + 2;
    }
    proof {
        assert forall|i: int| 0 <= i < n && (i / width as int) % 2 == 1 implies #[trigger] out@[i]
            == red_across(data@, width as int, (i / width as int), (i % width as int)) by {
            lemma_index_row_col(width as int, height as int, i);
        }
    }
    let mut row: usize = 0;
    while row < height
        invariant
            n == data@.len(),
            full_frame(n as int, width as int, height as int),
            row % 2 == 0,
            row <= height,
            out@.len() == n,
            forall|i: int|
                0 <= i < n && (i / width as int) % 2 == 1 ==> #[trigger] out@[i] == red_across(
                    data@,
                    width as int,
                    (i / width as int),
                    (i % width as int),
                ),
            forall|i: int|
                0 <= i < n && (i / width as int) % 2 == 0 && (i / width as int) < row
                    ==> #[trigger] out@[i] == red_smudged(
                    data@,
                    width as int,
                    height as int,
                    (i / width as int),
                    (i % width as int),
                ),
        decreases height - row,
    {
        let mut col: usize = 0;
        while col < width
            invariant
                n == data@.len(),
                full_frame(n as int, width as int, height as int),
                row % 2 == 0,
                row < height,
                col <= width,
                out@.len() == n,
                forall|i: int|
                    0 <= i < n && (i / width as int) % 2 == 1 ==> #[trigger] out@[i] == red_across(
                        data@,
                        width as int,
                        (i / width as int),
                        (i % width as int),
                    ),
                forall|i: int|
                    0 <= i < n && (i / width as int) % 2 == 0 && ((i / width as int) < row || ((i
                        / width as int) == row && (i % width as int) < col))
                        ==> #[trigger] out@[i] == red_smudged(
                        data@,
                        width as int,
                        height as int,
                        (i / width as int),
                        (i % width as int),
                    ),
            decreases width - col,
        {
            proof {
                lemma_neighbours(width as int, height as int, row as int, col as int);
            }
            let pos = row * width + col;
            let mut count: usize = 1;
            let ghost prev = out@;
            let mut value: usize = out[pos + width] as usize;
            if row > 0 {
                count = count + 1;
                value = value + out[pos - width] as usize;
            }
            proof {
                assert(value / count <= 255) by (nonlinear_arith)
                    requires
                        value <= 255 * count,
                        count > 0,
                ;
            }
            out[pos] = (value / count) as u8;
            proof {
                assert forall|i: int| 0 <= i < n && (i / width as int) % 2 == 1 implies #[trigger] out@[i]
                    == red_across(data@, width as int, (i / width as int), (i % width as int)) by {
                    assert(out@[i] == prev[i]);
                }
                assert forall|i: int|
                    0 <= i < n && (i / width as int) % 2 == 0 && ((i / width as int) < row || ((i
                        / width as int) == row && (i % width as int) < col + 1)) implies #[trigger] out@[i]
                    == red_smudged(data@, width as int, height as int, (i / width as int), (i % width as int)) by {
                    lemma_same_site(width as int, i, row as int, col as int);
                    if i != pos {
                        assert(out@[i] == prev[i]);
                    }
                }
            }
            col = col + 1;
        }
        row = row + 2;
    }
    proof {
        assert forall|i: int| 0 <= i < n implies #[trigger] out@[i] == red_smudged(
            data@,
            width as int,
            height as int,
            (i / width as int),
            (i % width as int),
        ) by {
            lemma_index_row_col(width as int, height as int, i);
        }
    }
    out
}

/// Reconstructs the blue plane (known samples on even rows and even
/// columns): first across each even row, then down each odd row from the
/// filled rows.
pub fn smudge_blue(data: &[u8], width: usize, height: usize) -> (out: Vec<u8>)
    requires
        full_frame(data@.len() as int, width as int, height as int),
    ensures
        out@.len() == data@.len(),
        forall|i: int|
            0 <= i < data@.len() ==> #[trigger] out@[i] == blue_smudged(
                data@,
                width as int,
                height as int,
                (i / width as int),
                (i % width as int),
            ),
{
    let n = data.len();
    let mut out: Vec<u8> = vec![0; n];
    let mut row: usize = 0;
    while row < height
        invariant
            n == data@.len(),
            full_frame(n as int, width as int, height as int),
            row % 2 == 0,
            row <= height + 1,
            out@.len() == n,
            forall|i: int|
                0 <= i < n && (i / width as int) % 2 == 0 && (i / width as int) <= row - 2
                    ==> #[trigger] out@[i] == blue_across(
                    data@,
                    width as int,
                    (i / width as int),
                    (i % width as int),
                ),
        decreases height + 1 - row,
    {
        let mut col: usize = 0;
        while col < width
            invariant
                n == data@.len(),
                full_frame(n as int, width as int, height as int),
                row % 2 == 0,
                row < height,
                col <= width,
                out@.len() == n,
                forall|i: int|
                    0 <= i < n && (i / width as int) % 2 == 0 && ((i / width as int) <= row - 2 || (
                    (i / width as int) == row && (i % width as int) < col))
                        ==> #[trigger] out@[i] == blue_across(
                        data@,
                        width as int,
                        (i / width as int),
                        (i % width as int),
                    ),
            decreases width - col,
        {
            proof {
                lemma_neighbours(width as int, height as int, row as int, col as int);
            }
            let pos = row * width + col;
            let ghost prev = out@;
            if col % 2 == 0 {
                out[pos] = data[pos];
            } else {
                let mut count: usize = 1;
                let mut value: usize = data[pos - 1] as usize;
                if col < width - 1 {
                    count = count + 1;
                    value = value + data[pos + 1] as usize;
                }
                proof {
                    assert(value / count <= 255) by (nonlinear_arith)
                        requires
                            value <= 255 * count,
                            count > 0,
                    ;
                }
                proof {
                assert(value / count <= 255) by (nonlinear_arith)
                    requires
                        value <= 255 * count,
                        count > 0,
                ;
            }
            out[pos] = (value / count) as u8;
            }
            proof {
                assert forall|i: int|
                    0 <= i < n && (i / width as int) % 2 == 0 && ((i / width as int) <= row - 2 || (
                    (i / width as int) == row && (i % width as int) < col + 1)) implies #[trigger] out@[i]
                    == blue_across(data@, width as int, (i / width as int), (i % width as int)) by {
                    lemma_same_site(width as int, i, row as int, col as int);
                    if i != pos {
                        assert(out@[i] == prev[i]);
                    }
                }
            }
            col = col + 1;
        }
        row = row + 2;
    }
    proof {
        assert forall|i: int| 0 <= i < n && (i / width as int) % 2 == 0 implies #[trigger] out@[i]
            == blue_across(data@, width as int, (i / width as int), (i % width as int)) by {
            lemma_index_row_col(width as int, height as int, i);
        }
    }
    let mut row: usize = 1;
    while row < height
        invariant
            n == data@.len(),
            full_frame(n as int, width as int, height as int),
            row % 2 == 1,
            row <= height + 1,
            out@.len() == n,
            forall|i: int|
                0 <= i < n && (i / width as int) % 2 == 0 ==> #[trigger] out@[i] == blue_across(
                    data@,
                    width as int,
                    (i / width as int),
                    (i % width as int),
                ),
            forall|i: int|
                0 <= i < n && (i / width as int) % 2 == 1 && (i / width as int) < row
                    ==> #[trigger] out@[i] == blue_smudged(
                    data@,
                    width as int,
                    height as int,
                    (i / width as int),
                    (i % width as int),
                ),
        decreases height + 1 - row,
    {
        let mut col: usize = 0;
        while col < width
            invariant
                n == data@.len(),
                full_frame(n as int, width as int, height as int),
                row % 2 == 1,
                row < height,
                col <= width,
                out@.len() == n,
                forall|i: int|
                    0 <= i < n && (i / width as int) % 2 == 0 ==> #[trigger] out@[i] == blue_across(
                        data@,
                        width as int,
                        (i / width as int),
                        (i % width as int),
                    ),
                forall|i: int|
                    0 <= i < n && (i / width as int) % 2 == 1 && ((i / width as int) < row || ((i
                        / width as int) == row && (i % width as int) < col))
                        ==> #[trigger] out@[i] == blue_smudged(
                        data@,
                        width as int,
                        height as int,
                        (i / width as int),
                        (i % width as int),
                    ),
            decreases width - col,
        {
            proof {
                lemma_neighbours(width as int, height as int, row as int, col as int);
            }
            let pos = row * width + col;
            let mut count: usize = 1;
            let ghost prev = out@;
            let mut value: usize = out[pos - width] as usize;
            if row < height - 1 {
                count = count + 1;
                value = value + out[pos + width] as usize;
            }
            proof {
                assert(value / count <= 255) by (nonlinear_arith)
                    requires
                        value <= 255 * count,
                        count > 0,
                ;
            }
            out[pos] = (value / count) as u8;
            proof {
                assert forall|i: int| 0 <= i < n && (i / width as int) % 2 == 0 implies #[trigger] out@[i]
                    == blue_across(data@, width as int, (i / width as int), (i % width as int)) by {
                    assert(out@[i] == prev[i]);
                }
                assert forall|i: int|
                    0 <= i < n && (i / width as int) % 2 == 1 && ((i / width as int) < row || ((i
                        / width as int) == row && (i % width as int) < col + 1)) implies #[trigger] out@[i]
                    == blue_smudged(data@, width as int, height as int, (i / width as int), (i % width as int)) by {
                    lemma_same_site(width as int, i, row as int, col as int);
                    if i != pos {
                        assert(out@[i] == prev[i]);
                    }
                }
            }
            col = col + 1;
        }
        row = row + 2;
    }
    proof {
        assert forall|i: int| 0 <= i < n implies #[trigger] out@[i] == blue_smudged(
            data@,
            width as int,
            height as int,
            (i / width as int),
            (i % width as int),
        ) by {
            lemma_index_row_col(width as int, height as int, i);
        }
    }
    out
}

/// Interleaves three planes of equal length into RGB triples in scan order.
pub fn combine_rgb(r: &[u8], g: &[u8], b: &[u8]) -> (out: Vec<u8>)
    requires
        r@.len() == g@.len(),
        g@.len() == b@.len(),
        3 * r@.len() <= usize::MAX,
    ensures
        out@.len() == 3 * r@.len(),
        forall|i: int|
            0 <= i < r@.len() ==> {
                &&& #[trigger] out@[3 * i] == r@[i]
                &&& out@[3 * i + 1] == g@[i]
                &&& out@[3 * i + 2] == b@[i]
            },
{
    let mut out: Vec<u8> = Vec::new();
    let mut i: usize = 0;
    while i < r.len()
        invariant
            r@.len() == g@.len(),
            g@.len() == b@.len(),
            3 * r@.len() <= usize::MAX,
            i <= r@.len(),
            out@.len() == 3 * i,
            forall|j: int|
                0 <= j < i ==> {
                    &&& #[trigger] out@[3 * j] == r@[j]
                    &&& out@[3 * j + 1] == g@[j]
                    &&& out@[3 * j + 2] == b@[j]
                },
        decreases r@.len() - i,
    {
        out.push(r[i]);
        out.push(g[i]);
        out.push(b[i]);
        i = i + 1;
    }
    out
}

/// The sparse red plane of a raw frame.
pub open spec fn red_plane(data: Seq<u8>, width: int) -> Seq<u8> {
    Seq::new(data.len(), |i: int| sparse_at(data, i, is_red_site(i / width, i % width)))
}

/// The sparse green plane of a raw frame.
pub open spec fn green_plane(data: Seq<u8>, width: int) -> Seq<u8> {
    Seq::new(data.len(), |i: int| sparse_at(data, i, is_green_site(i / width, i % width)))
}

/// The sparse blue plane of a raw frame.
pub open spec fn blue_plane(data: Seq<u8>, width: int) -> Seq<u8> {
    Seq::new(data.len(), |i: int| sparse_at(data, i, is_blue_site(i / width, i % width)))
}

/// Channel `c` (0 = red, 1 = green, 2 = blue) of pixel `(row, col)` after
/// the full demosaic of a raw frame.
pub open spec fn full_channel(data: Seq<u8>, width: int, height: int, row: int, col: int, c: int) -> u8 {
    if c == 0 {
        red_smudged(red_plane(data, width), width, height, row, col)
    } else if c == 1 {
        green_smudged(green_plane(data, width), width, height, row, col)
    } else {
        blue_smudged(blue_plane(data, width), width, height, row, col)
    }
}

/// Full-resolution demosaic: separates the raw frame into sparse planes,
/// reconstructs each plane and interleaves them into RGB triples. The output
/// has the input's width and height.
pub fn debayer_full(data: &[u8], width: usize, height: usize) -> (out: Vec<u8>)
    requires
        full_frame(data@.len() as int, width as int, height as int),
    ensures
        out@.len() == 3 * data@.len(),
        forall|i: int, c: int|
            0 <= i < data@.len() && 0 <= c < 3 ==> #[trigger] out@[3 * i + c] == full_channel(
                data@,
                width as int,
                height as int,
                (i / width as int),
                (i % width as int),
                c,
            ),
{
    let (r, g, b) = separate_colors(data, width, height);
    proof {
        assert forall|i: int| 0 <= i < data@.len() implies g@[i] == green_plane(data@, width as int)[i]
            && b@[i] == blue_plane(data@, width as int)[i] by {
            assert(r@[i] == red_plane(data@, width as int)[i]);
        }
        assert(r@ =~= red_plane(data@, width as int));
        assert(g@ =~= green_plane(data@, width as int));
        assert(b@ =~= blue_plane(data@, width as int));
    }
    let r = smudge_red(r.as_slice(), width, height);
    let g = smudge_green(g.as_slice(), width, height);
    let b = smudge_blue(b.as_slice(), width, height);
    let out = combine_rgb(r.as_slice(), g.as_slice(), b.as_slice());
    proof {
        assert forall|i: int, c: int| 0 <= i < data@.len() && 0 <= c < 3 implies #[trigger] out@[3 * i
            + c] == full_channel(
            data@,
            width as int,
            height as int,
            (i / width as int),
            (i % width as int),
            c,
        ) by {
            assert(out@[3 * i] == r@[i]);
        }
    }
    out
}

/// The full demosaic keeps every raw sample: at a red, green or blue site of
/// the Bayer grid, that channel of the output pixel is the sample itself.
pub proof fn lemma_full_path_keeps_samples(data: Seq<u8>, width: int, height: int, row: int, col: int)
    requires
        full_frame(data.len() as int, width, height),
        0 <= row < height,
        0 <= col < width,
    ensures
        is_red_site(row, col) ==> full_channel(data, width, height, row, col, 0) == at(
            data,
            width,
            row,
            col,
        ),
        is_green_site(row, col) ==> full_channel(data, width, height, row, col, 1) == at(
            data,
            width,
            row,
            col,
        ),
        is_blue_site(row, col) ==> full_channel(data, width, height, row, col, 2) == at(
            data,
            width,
            row,
            col,
        ),
{
    lemma_index_bound(width, height, row, col);
    lemma_row_col(width, row, col);
}

/// Every site of the grid is exactly one of red, green and blue, so the
/// three sparse planes hold each raw sample exactly once: at each index one
/// plane holds the sample and the other two hold zero.
pub proof fn lemma_planes_partition_frame(data: Seq<u8>, width: int, i: int)
    requires
        width > 0,
        0 <= i < data.len(),
    ensures
        red_plane(data, width)[i] as int + green_plane(data, width)[i] as int + blue_plane(
            data,
            width,
        )[i] as int == data[i] as int,
        is_red_site(i / width, i % width) ==> red_plane(data, width)[i] == data[i],
        is_green_site(i / width, i % width) ==> green_plane(data, width)[i] == data[i],
        is_blue_site(i / width, i % width) ==> blue_plane(data, width)[i] == data[i],
{
    let row = i / width;
    let col = i % width;
    assert(row % 2 == 0 || row % 2 == 1);
    assert(col % 2 == 0 || col % 2 == 1);
}

} // verus!
