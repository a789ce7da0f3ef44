use vstd::prelude::*;
use vstd::arithmetic::div_mod::lemma_fundamental_div_mod;
use vstd::arithmetic::div_mod::lemma_mod_division_less_than_divisor;
use crate::color::Rgb;

verus! {

/// One finished scanline, labelled with the index of the frame row it
/// belongs to.  Rows are rendered independently, possibly out of order; the
/// label, not the position in any list, says where the pixels go.
pub struct RenderedRow {
    pub y: usize,
    pub pixels: Vec<Rgb>,
}

/// `rows[i]` is a scanline labelled `y`.
pub open spec fn has_row(rows: Seq<RenderedRow>, i: int, y: int) -> bool {
    0 <= i < rows.len() && rows[i].y == y
}

/// Some scanline in the list is labelled `y`.
pub open spec fn covered(rows: Seq<RenderedRow>, y: int) -> bool {
    exists|i: int| has_row(rows, i, y)
}

/// The list of scanlines is a complete rendering of a `width` by `height`
/// frame: every scanline lies inside the frame and has the full width, no
/// row label appears twice, and every row of the frame appears.
pub open spec fn rows_complete(rows: Seq<RenderedRow>, width: int, height: int) -> bool {
    &&& forall|i: int| 0 <= i < rows.len()
            ==> (#[trigger] rows[i]).y < height && rows[i].pixels@.len() == width
    &&& forall|i: int, j: int| 0 <= i < rows.len() && 0 <= j < rows.len() && i != j
            ==> (#[trigger] rows[i]).y != (#[trigger] rows[j]).y
    &&& forall|y: int| 0 <= y < height ==> #[trigger] covered(rows, y)
}

/// The pixel that frame position (y, x) receives: pixel `x` of the
/// scanline labelled `y`.
pub open spec fn pixel_at(rows: Seq<RenderedRow>, y: int, x: int) -> Rgb {
    let i = choose|i: int| has_row(rows, i, y);
    rows[i].pixels@[x]
}

/// The row-major frame buffer that a complete list of scanlines assembles
/// to, top row first.  It is a function of the scanlines' labels and pixels
/// alone: the order of the list does not enter.
pub open spec fn assembled(rows: Seq<RenderedRow>, width: int, height: int) -> Seq<Rgb> {
    Seq::new((width * height) as nat, |k: int| pixel_at(rows, k / width, k % width))
}

/// The flat position of pixel (x, y) in the row-major buffer.
pub fn pixel_index(width: usize, height: usize, x: usize, y: usize) -> (k: usize)
    requires
        x < width,
        y < height,
        width * height <= usize::MAX,
    ensures
        k == y * width + x,
        k < width * height,
{
    proof {
        assert(y * width + x < width * height) by (nonlinear_arith)
            requires
                x < width,
                y < height,
        {
        }
    }
    y * width + x
}

/// A pixel of a row that lies inside the frame has its flat position inside
/// the buffer.
proof fn lemma_slot_in_frame(width: int, height: int, y: int, x: int)
    requires
        0 <= x < width,
        0 <= y < height,
    ensures
        0 <= y * width + x < width * height,
{
    assert(0 <= y * width + x < width * height) by (nonlinear_arith)
        requires
            0 <= x < width,
            0 <= y < height,
    {
    }
}

/// Flat positions of pixels on different rows never collide.
proof fn lemma_row_slots_disjoint(width: int, y1: int, x1: int, y2: int, x2: int)
    requires
        0 <= x1 < width,
        0 <= x2 < width,
        0 <= y1,
        0 <= y2,
        y1 != y2,
    ensures
        y1 * width + x1 != y2 * width + x2,
{
    assert(y1 * width + x1 != y2 * width + x2) by (nonlinear_arith)
        requires
            0 <= x1 < width,
            0 <= x2 < width,
            0 <= y1,
            0 <= y2,
            y1 != y2,
    {
    }
}

/// Assemble independently rendered scanlines into one row-major frame
/// buffer, top row first.  Succeeds exactly when the scanlines form a
/// complete rendering of the frame, and the buffer it returns is pinned
/// pixel by pixel to the scanlines' contents, so the order in which
/// parallel workers delivered the rows cannot show in the output.
#[verifier::loop_isolation(false)]
pub fn assemble_rows(width: usize, height: usize, rows: &Vec<RenderedRow>) -> (frame: Option<Vec<Rgb>>)
    requires
        width * height <= usize::MAX,
    ensures
        match frame {
            Some(buffer) => rows_complete(rows@, width as int, height as int)
                && buffer@ == assembled(rows@, width as int, height as int),
            None => !rows_complete(rows@, width as int, height as int),
        },
{
    let total = width * height;
    let mut buffer: Vec<Rgb> = Vec::new();
    while buffer.len() < total
        invariant
            buffer@.len() <= total,
        decreases total - buffer@.len(),
    {
        buffer.push(Rgb::new(0, 0, 0));
    }
    let mut seen: Vec<bool> = Vec::new();
    while seen.len() < height
        invariant
            seen@.len() <= height,
            forall|y: int| 0 <= y < seen@.len() ==> !(#[trigger] seen@[y]),
        decreases height - seen@.len(),
    {
        seen.push(false);
    }

    let mut r: usize = 0;
    while r < rows.len()
        invariant
            r <= rows@.len(),
            buffer@.len() == width * height,
            seen@.len() == height,
            forall|i: int| 0 <= i < r
                ==> (#[trigger] rows@[i]).y < height && rows@[i].pixels@.len() == width,
            forall|i: int, j: int| 0 <= i < r && 0 <= j < r && i != j
                ==> (#[trigger] rows@[i]).y != (#[trigger] rows@[j]).y,
            forall|y: int| 0 <= y < height
                ==> ((#[trigger] seen@[y]) <==> exists|i: int| 0 <= i < r && has_row(rows@, i, y)),
            forall|i: int, x: int| 0 <= i < r && 0 <= x < width
                ==> buffer@[rows@[i].y * (width as int) + x] == (#[trigger] rows@[i].pixels@[x]),
        decreases rows@.len() - r,
    {
        let row = &rows[r];
        let y = row.y;
        if y >= height {
            proof {
                assert(rows@[r as int].y >= height);
            }
            return None;
        }
        if row.pixels.len() != width {
            proof {
                assert(rows@[r as int].pixels@.len() != width);
            }
            return None;
        }
        if seen[y] {
            proof {
                let i0 = choose|i: int| 0 <= i < r && has_row(rows@, i, y as int);
                assert(has_row(rows@, i0, y as int));
                assert(rows@[i0].y == rows@[r as int].y);
                assert(!rows_complete(rows@, width as int, height as int));
            }
            return None;
        }
        proof {
            assert forall|i: int| 0 <= i < r implies (#[trigger] rows@[i]).y != y as int by {
                if rows@[i].y == y as int {
                    assert(has_row(rows@, i, y as int));
                }
            }
        }
        seen.set(y, true);
        let mut x: usize = 0;
        while x < width
            invariant
                x <= width,
                buffer@.len() == width * height,
                forall|xx: int| 0 <= xx < x
                    ==> buffer@[(y as int) * (width as int) + xx]
                        == (#[trigger] rows@[r as int].pixels@[xx]),
                forall|i: int, xx: int| 0 <= i < r && 0 <= xx < width
                    ==> buffer@[rows@[i].y * (width as int) + xx]
                        == (#[trigger] rows@[i].pixels@[xx]),
            decreases width - x,
        {
            let k = pixel_index(width, height, x, y);
            let ghost pre = buffer@;
            buffer.set(k, row.pixels[x]);
            proof {
                assert(buffer@ == pre.update(k as int, rows@[r as int].pixels@[x as int]));
                assert forall|i: int, xx: int| 0 <= i < r && 0 <= xx < width
                    implies buffer@[rows@[i].y * (width as int) + xx]
                        == (#[trigger] rows@[i].pixels@[xx]) by {
                    assert(rows@[i].y != y as int);
                    lemma_slot_in_frame(width as int, height as int, rows@[i].y as int, xx);
                    lemma_row_slots_disjoint(
                        width as int,
                        rows@[i].y as int,
                        xx,
                        y as int,
                        x as int,
                    );
                    assert(rows@[i].y * (width as int) + xx != k);
                    assert(pre[rows@[i].y * (width as int) + xx] == rows@[i].pixels@[xx]);
                }
            }
            x += 1;
        }
        proof {
            assert(has_row(rows@, r as int, y as int));
            assert forall|yy: int| 0 <= yy < height implies
                ((#[trigger] seen@[yy]) <==> exists|i: int| 0 <= i < r + 1 && has_row(rows@, i, yy)) by {
                if yy == y as int {
                    assert(0 <= (r as int) && (r as int) < r + 1 && has_row(rows@, r as int, yy));
                } else {
                    if exists|i: int| 0 <= i < r + 1 && has_row(rows@, i, yy) {
                        let iw = choose|i: int| 0 <= i < r + 1 && has_row(rows@, i, yy);
                        assert(iw != r as int);
                        assert(0 <= iw < r && has_row(rows@, iw, yy));
                    }
                }
            }
        }
        r += 1;
    }

    let mut yv: usize = 0;
    while yv < height
        invariant
            yv <= height,
            forall|yy: int| 0 <= yy < yv ==> #[trigger] seen@[yy],
        decreases height - yv,
    {
        if !seen[yv] {
            proof {
                assert(!covered(rows@, yv as int)) by {
                    if covered(rows@, yv as int) {
                        let iw = choose|i: int| has_row(rows@, i, yv as int);
                        assert(has_row(rows@, iw, yv as int));
                        assert(0 <= iw < r && has_row(rows@, iw, yv as int));
                    }
                }
            }
            return None;
        }
        yv += 1;
    }

    proof {
        assert forall|yy: int| 0 <= yy < height implies #[trigger] covered(rows@, yy) by {
            assert(seen@[yy]);
            let iw = choose|i: int| 0 <= i < r && has_row(rows@, i, yy);
            assert(has_row(rows@, iw, yy));
        }
        assert(rows_complete(rows@, width as int, height as int));
        let w = width as int;
        let h = height as int;
        assert forall|k: int| 0 <= k < w * h implies
            buffer@[k] == #[trigger] assembled(rows@, w, h)[k] by {
            assert(w > 0 && h > 0) by (nonlinear_arith)
                requires
                    0 <= w,
                    0 <= h,
                    0 < w * h,
            {
            }
            lemma_fundamental_div_mod(k, w);
            lemma_mod_division_less_than_divisor(k, w);
            let yq = k / w;
            let xr = k % w;
            assert(0 <= yq < h) by (nonlinear_arith)
                requires
                    k == w * yq + xr,
                    0 <= xr < w,
                    0 <= k,
                    k < w * h,
                    w > 0,
            {
            }
            assert(covered(rows@, yq));
            let iw = choose|i: int| has_row(rows@, i, yq);
            assert(has_row(rows@, iw, yq));
            assert(buffer@[rows@[iw].y * w + xr] == rows@[iw].pixels@[xr]);
            assert(rows@[iw].y == yq);
            assert(yq * w == w * yq) by (nonlinear_arith);
            assert(rows@[iw].y * w + xr == k);
            assert(assembled(rows@, w, h)[k] == pixel_at(rows@, yq, xr));
        }
        assert(buffer@ =~= assembled(rows@, width as int, height as int));
    }
    Some(buffer)
}

/// Row `i` of the first list appears, with the same label and the same
/// pixels, somewhere in the second list.
pub open spec fn matches_at(rows1: Seq<RenderedRow>, rows2: Seq<RenderedRow>, i: int, j: int) -> bool {
    0 <= j < rows2.len() && rows2[j].y == rows1[i].y && rows2[j].pixels@ == rows1[i].pixels@
}

/// Row `i` of the first list has a match in the second list.
pub open spec fn matched_in(rows1: Seq<RenderedRow>, rows2: Seq<RenderedRow>, i: int) -> bool {
    exists|j: int| matches_at(rows1, rows2, i, j)
}

/// Every scanline of the first list appears, with the same label and the
/// same pixels, in the second list.
pub open spec fn same_scanlines(rows1: Seq<RenderedRow>, rows2: Seq<RenderedRow>) -> bool {
    forall|i: int| 0 <= i < rows1.len() ==> #[trigger] matched_in(rows1, rows2, i)
}

/// Law: the assembled frame does not depend on the order in which the
/// scanlines were delivered.  Two complete lists that hold the same
/// scanlines — however they are arranged — assemble to the same row-major
/// buffer, so parallel scheduling cannot leak into the output.
pub proof fn lemma_assembly_order_independent(
    rows1: Seq<RenderedRow>,
    rows2: Seq<RenderedRow>,
    width: int,
    height: int,
)
    requires
        0 <= width,
        0 <= height,
        rows_complete(rows1, width, height),
        rows_complete(rows2, width, height),
        same_scanlines(rows1, rows2),
    ensures
        assembled(rows1, width, height) == assembled(rows2, width, height),
{
    assert forall|k: int| 0 <= k < width * height implies
        #[trigger] assembled(rows1, width, height)[k] == assembled(rows2, width, height)[k] by {
        assert(width > 0 && height > 0) by (nonlinear_arith)
            requires
                0 <= width,
                0 <= height,
                0 < width * height,
        {
        }
        lemma_fundamental_div_mod(k, width);
        lemma_mod_division_less_than_divisor(k, width);
        let yq = k / width;
        let xr = k % width;
        assert(0 <= yq < height) by (nonlinear_arith)
            requires
                k == width * yq + xr,
                0 <= xr < width,
                0 <= k,
                k < width * height,
                width > 0,
        {
        }
        assert(covered(rows1, yq));
        let i1 = choose|i: int| has_row(rows1, i, yq);
        assert(has_row(rows1, i1, yq));
        assert(matched_in(rows1, rows2, i1));
        let j = choose|j: int| matches_at(rows1, rows2, i1, j);
        assert(matches_at(rows1, rows2, i1, j));
        assert(covered(rows2, yq));
        let i2 = choose|i: int| has_row(rows2, i, yq);
        assert(has_row(rows2, i2, yq));
        assert(i2 == j);
        assert(pixel_at(rows1, yq, xr) == pixel_at(rows2, yq, xr));
    }
    assert(assembled(rows1, width, height) =~= assembled(rows2, width, height));
}

} // verus!
