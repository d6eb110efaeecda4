//! The CPU side of a frame capture: row-stride alignment and the crop,
//! de-pad and channel-reorder pass over the raw bytes read back from the
//! GPU.

use crate::viewport::Viewport;
use vstd::prelude::*;

verus! {

/// A captured image handed back to the caller: the viewport's dimensions
/// and its pixels in RGBA order, four bytes each, row-major.
pub struct CapturedImage {
    /// The width in pixels.
    pub width: u32,
    /// The height in pixels.
    pub height: u32,
    /// The pixel bytes, `width * height * 4` of them.
    pub data: Vec<u8>,
}

/// Rounds `num` up to the next multiple of `align` (a power of two): the
/// result is the unique multiple of `align` in `[num, num + align)`.
pub fn align_up(num: u32, align: u32) -> (r: u32)
    requires
        align >= 1,
        (align & (align - 1) as u32) == 0,
        num + align - 1 <= u32::MAX,
    ensures
        r % align == 0,
        num <= r < num + align,
{
    let r = (num + (align - 1)) & !(align - 1);
    proof {
        assert(((align & vstd::prelude::sub(align, 1)) == 0 && 1 <= align && num
            <= vstd::prelude::sub(0xffff_ffffu32, vstd::prelude::sub(align, 1))) ==> (((
        vstd::prelude::add(num, vstd::prelude::sub(align, 1)) & !vstd::prelude::sub(align, 1)))
            % align == 0 && num <= ((vstd::prelude::add(num, vstd::prelude::sub(align, 1))
            & !vstd::prelude::sub(align, 1))) && ((vstd::prelude::add(
            num,
            vstd::prelude::sub(align, 1),
        ) & !vstd::prelude::sub(align, 1))) <= vstd::prelude::add(
            num,
            vstd::prelude::sub(align, 1),
        ))) by (bit_vector);
    }
    r
}

/// Where a destination byte of the trimmed image comes from in the raw
/// read-back buffer: the row is offset by the viewport's top edge, the
/// column by its left edge, each raw row is `align_width` bytes long, and
/// the first and third channel of every pixel swap (the surface's native
/// order differs from the public RGBA order in those channels).
pub open spec fn spec_src_index(
    vp: Viewport,
    align_width: int,
    row: int,
    col: int,
    channel: int,
) -> int {
    (vp.y + row) * align_width + (vp.x + col) * 4 + (if channel == 0 {
        2
    } else if channel == 2 {
        0
    } else {
        channel
    })
}

/// The flat offset of a pixel's first byte in the trimmed image.
pub open spec fn spec_dst_index(vp: Viewport, row: int, col: int) -> int {
    (row * vp.width + col) * 4
}

/// Crops the raw read-back buffer to the viewport, trims each row's
/// stride padding, and reorders the channels of every pixel to RGBA:
/// output byte `spec_dst_index(vp, row, col) + channel` is input byte
/// `spec_src_index(vp, align_width, row, col, channel)`.
pub fn trim_image_buffer(viewport: &Viewport, align_width: usize, buffer: &[u8]) -> (r: Vec<u8>)
    requires
        (viewport.x + viewport.width) * 4 <= align_width,
        (viewport.y + viewport.height) * align_width <= buffer@.len(),
        viewport.y + viewport.height <= usize::MAX,
    ensures
        r@.len() == viewport.width * viewport.height * 4,
        forall|row: int, col: int|
            0 <= row < viewport.height && 0 <= col < viewport.width ==> {
                let dst = #[trigger] spec_dst_index(*viewport, row, col);
                &&& r@[dst] == buffer@[spec_src_index(*viewport, align_width as int, row, col, 0)]
                &&& r@[dst + 1] == buffer@[spec_src_index(
                    *viewport,
                    align_width as int,
                    row,
                    col,
                    1,
                )]
                &&& r@[dst + 2] == buffer@[spec_src_index(
                    *viewport,
                    align_width as int,
                    row,
                    col,
                    2,
                )]
                &&& r@[dst + 3] == buffer@[spec_src_index(
                    *viewport,
                    align_width as int,
                    row,
                    col,
                    3,
                )]
            },
{
    let w = viewport.width as usize;
    let h = viewport.height as usize;
    let x = viewport.x as usize;
    let y = viewport.y as usize;
    let blen = buffer.len();
    let mut out: Vec<u8> = Vec::new();
    let mut row: usize = 0;
    proof {
        lemma_trim_bounds(*viewport, align_width as int, buffer@.len() as int);
        assert(0 * viewport.width * 4 == 0) by (nonlinear_arith);
    }
    while row < h
        invariant
            row <= h,
            w == viewport.width,
            h == viewport.height,
            x == viewport.x,
            y == viewport.y,
            (viewport.x + viewport.width) * 4 <= align_width,
            (viewport.y + viewport.height) * align_width <= buffer@.len(),
            viewport.y + viewport.height <= usize::MAX,
            buffer@.len() <= usize::MAX,
            forall|rr: int, cc: int|
                0 <= rr < viewport.height && 0 <= cc < viewport.width ==> spec_trim_in_range(
                    *viewport,
                    align_width as int,
                    buffer@.len() as int,
                    rr,
                    cc,
                ),
            out@.len() == row * viewport.width * 4,
            forall|rr: int, cc: int|
                0 <= rr < row && 0 <= cc < viewport.width ==> trimmed_pixel_ok(
                    *viewport,
                    align_width as int,
                    buffer@,
                    out@,
                    rr,
                    cc,
                ),
        decreases h - row,
    {
        proof {
            assert((y as int + row) * align_width + align_width <= (y as int + viewport.height)
                * align_width) by (nonlinear_arith)
                requires
                    0 <= align_width,
                    0 <= y,
                    0 <= row < viewport.height,
            ;
        }
        let row_base: usize = (y + row) * align_width;
        let mut col: usize = 0;
        while col < w
            invariant
                row < h,
                col <= w,
                w == viewport.width,
                h == viewport.height,
                x == viewport.x,
                y == viewport.y,
                row_base == (y + row) * align_width,
                (viewport.x + viewport.width) * 4 <= align_width,
                (viewport.y + viewport.height) * align_width <= buffer@.len(),
                viewport.y + viewport.height <= usize::MAX,
                buffer@.len() <= usize::MAX,
                forall|rr: int, cc: int|
                    0 <= rr < viewport.height && 0 <= cc < viewport.width ==> spec_trim_in_range(
                        *viewport,
                        align_width as int,
                        buffer@.len() as int,
                        rr,
                        cc,
                    ),
                out@.len() == row * viewport.width * 4 + col * 4,
                forall|rr: int, cc: int|
                    0 <= rr < row && 0 <= cc < viewport.width ==> trimmed_pixel_ok(
                        *viewport,
                        align_width as int,
                        buffer@,
                        out@,
                        rr,
                        cc,
                    ),
                forall|cc: int|
                    0 <= cc < col ==> trimmed_pixel_ok(
                        *viewport,
                        align_width as int,
                        buffer@,
                        out@,
                        row as int,
                        cc,
                    ),
            decreases w - col,
        {
            proof {
                assert(spec_trim_in_range(
                    *viewport,
                    align_width as int,
                    buffer@.len() as int,
                    row as int,
                    col as int,
                ));
                assert(row * viewport.width * 4 + col * 4 + 4 <= viewport.height * viewport.width
                    * 4) by (nonlinear_arith)
                    requires
                        0 <= row < viewport.height,
                        0 <= col < viewport.width,
                ;
            }
            let p: usize = row_base + (x + col) * 4;
            let ghost pre = out@;
            out.push(buffer[p + 2]);
            out.push(buffer[p + 1]);
            out.push(buffer[p]);
            out.push(buffer[p + 3]);
            proof {
                assert(trimmed_pixel_ok(
                    *viewport,
                    align_width as int,
                    buffer@,
                    out@,
                    row as int,
                    col as int,
                )) by {
                    assert(spec_dst_index(*viewport, row as int, col as int) == pre.len() as int)
                        by (nonlinear_arith)
                        requires
                            pre.len() == row * viewport.width * 4 + col * 4,
                    ;
                }
                assert forall|rr: int, cc: int|
                    0 <= rr < row && 0 <= cc < viewport.width implies trimmed_pixel_ok(
                    *viewport,
                    align_width as int,
                    buffer@,
                    out@,
                    rr,
                    cc,
                ) by {
                    lemma_dst_stays(*viewport, align_width as int, buffer@, pre, out@, rr, cc);
                }
                assert forall|cc: int| 0 <= cc < col implies trimmed_pixel_ok(
                    *viewport,
                    align_width as int,
                    buffer@,
                    out@,
                    row as int,
                    cc,
                ) by {
                    lemma_dst_stays(
                        *viewport,
                        align_width as int,
                        buffer@,
                        pre,
                        out@,
                        row as int,
                        cc,
                    );
                }
            }
            col = col + 1;
        }
        row = row + 1;
        proof {
            assert(row * viewport.width * 4 == (row - 1) * viewport.width * 4 + viewport.width
                * 4) by (nonlinear_arith)
                requires
                    row >= 1,
            ;
        }
    }
    proof {
        assert(viewport.height * viewport.width * 4 == viewport.width * viewport.height * 4)
            by (nonlinear_arith);
        assert forall|rr: int, cc: int|
            0 <= rr < viewport.height && 0 <= cc < viewport.width implies {
            let dst = #[trigger] spec_dst_index(*viewport, rr, cc);
            &&& out@[dst] == buffer@[spec_src_index(*viewport, align_width as int, rr, cc, 0)]
            &&& out@[dst + 1] == buffer@[spec_src_index(*viewport, align_width as int, rr, cc, 1)]
            &&& out@[dst + 2] == buffer@[spec_src_index(*viewport, align_width as int, rr, cc, 2)]
            &&& out@[dst + 3] == buffer@[spec_src_index(*viewport, align_width as int, rr, cc, 3)]
        } by {
            assert(trimmed_pixel_ok(*viewport, align_width as int, buffer@, out@, rr, cc));
        }
    }
    out
}

/// One trimmed pixel's four bytes sit at their destination offsets and
/// hold the right source bytes, channels reordered.
pub open spec fn trimmed_pixel_ok(
    vp: Viewport,
    align_width: int,
    src: Seq<u8>,
    dst: Seq<u8>,
    row: int,
    col: int,
) -> bool {
    let d = spec_dst_index(vp, row, col);
    &&& 0 <= d && d + 4 <= dst.len()
    &&& dst[d] == src[spec_src_index(vp, align_width, row, col, 0)]
    &&& dst[d + 1] == src[spec_src_index(vp, align_width, row, col, 1)]
    &&& dst[d + 2] == src[spec_src_index(vp, align_width, row, col, 2)]
    &&& dst[d + 3] == src[spec_src_index(vp, align_width, row, col, 3)]
}

/// Every source index of the trim lies inside the raw buffer.
pub open spec fn spec_trim_in_range(
    vp: Viewport,
    align_width: int,
    len: int,
    row: int,
    col: int,
) -> bool {
    &&& 0 <= (vp.y + row) * align_width
    &&& (vp.y + row) * align_width + (vp.x + col) * 4 + 4 <= len
}

/// Under the trim's preconditions, every pixel the loop touches reads
/// inside the raw buffer.
proof fn lemma_trim_bounds(vp: Viewport, align_width: int, len: int)
    requires
        (vp.x + vp.width) * 4 <= align_width,
        (vp.y + vp.height) * align_width <= len,
    ensures
        forall|row: int, col: int|
            0 <= row < vp.height && 0 <= col < vp.width ==> spec_trim_in_range(
                vp,
                align_width,
                len,
                row,
                col,
            ),
{
    assert forall|row: int, col: int|
        0 <= row < vp.height && 0 <= col < vp.width implies spec_trim_in_range(
        vp,
        align_width,
        len,
        row,
        col,
    ) by {
        assert((vp.y + row) * align_width + (vp.x + col) * 4 + 4 <= len && 0 <= (vp.y + row)
            * align_width) by (nonlinear_arith)
            requires
                (vp.x + vp.width) * 4 <= align_width,
                (vp.y + vp.height) * align_width <= len,
                0 <= row < vp.height,
                0 <= col < vp.width,
                vp.x >= 0,
                vp.y >= 0,
        ;
    }
}

/// Bytes already written by the trim keep their values when more bytes
/// are appended.
proof fn lemma_dst_stays(
    vp: Viewport,
    align_width: int,
    src: Seq<u8>,
    pre: Seq<u8>,
    post: Seq<u8>,
    row: int,
    col: int,
)
    requires
        trimmed_pixel_ok(vp, align_width, src, pre, row, col),
        pre.len() <= post.len(),
        forall|i: int| 0 <= i < pre.len() ==> post[i] == pre[i],
    ensures
        trimmed_pixel_ok(vp, align_width, src, post, row, col),
{
}

} // verus!
