use crate::format::bytes_per_pixel;
use crate::format::channel_role;
use crate::format::pixel_width;
use crate::format::role_at;
use crate::format::role_offset;
use crate::format::source_offset;
use crate::format::PixelFormat;
use crate::frame::Frame;
use crate::frame::FrameView;
use vstd::arithmetic::div_mod::lemma_div_pos_is_pos;
use vstd::arithmetic::div_mod::lemma_fundamental_div_mod;
use vstd::arithmetic::div_mod::lemma_fundamental_div_mod_converse;
use vstd::arithmetic::div_mod::lemma_mod_pos_bound;
use vstd::prelude::*;

verus! {

/// Where one frame's pixels land: a single packed plane of `height` rows of
/// `stride` bytes each, of which only the leading `width * bytes-per-pixel`
/// bytes of a row carry pixels; the rest is alignment padding.
pub struct PlaneLayout {
    pub width: usize,
    pub height: usize,
    pub stride: usize,
}

impl PlaneLayout {
    /// A layout fits a destination format when every row has room for its
    /// pixels and the whole plane fits in one allocation.
    pub open spec fn wf(self, format: PixelFormat) -> bool {
        &&& 1 <= self.stride
        &&& self.width * bytes_per_pixel(format) <= self.stride
        &&& self.stride * self.height <= usize::MAX
    }

    /// Bytes in the whole plane.
    pub open spec fn byte_len(self) -> int {
        self.stride * self.height
    }
}

/// How many complete pixels the byte buffer of a source frame holds; a
/// trailing fragment of a pixel is never read.
pub open spec fn complete_pixels(frame: FrameView) -> int {
    frame.data.len() as int / bytes_per_pixel(frame.format)
}

/// The byte the packer writes for destination channel `k` of the pixel at
/// position `p`: the source's byte for the same channel role, or the fill
/// value when the source has no such channel.
pub open spec fn packed_subpixel(
    frame: FrameView,
    dst_format: PixelFormat,
    fill: u8,
    p: int,
    k: int,
) -> u8 {
    match role_offset(frame.format, role_at(dst_format, k)) {
        Some(j) => frame.data[p * bytes_per_pixel(frame.format) + j],
        None => fill,
    }
}

/// Byte `i` of the destination plane after packing `frame` over the prior
/// contents `base`: pixel bytes of the first `height` rows take reordered
/// source subpixels as far as the source's complete pixels reach; stride
/// padding, rows past `height`, bytes past the plane and bytes of pixels the
/// source could not fill keep their prior content.
pub open spec fn packed_byte(
    frame: FrameView,
    dst_format: PixelFormat,
    fill: u8,
    layout: PlaneLayout,
    base: Seq<u8>,
    i: int,
) -> u8 {
    let stride = layout.stride as int;
    let dbpp = bytes_per_pixel(dst_format);
    let row = i / stride;
    let off = i % stride;
    if row < layout.height && off < layout.width * dbpp {
        let col = off / dbpp;
        let k = off % dbpp;
        let p = row * layout.width + col;
        if p < complete_pixels(frame) {
            packed_subpixel(frame, dst_format, fill, p, k)
        } else {
            base[i]
        }
    } else {
        base[i]
    }
}

/// The whole destination plane after packing `frame` over `base`.
pub open spec fn packed_plane(
    frame: FrameView,
    dst_format: PixelFormat,
    fill: u8,
    layout: PlaneLayout,
    base: Seq<u8>,
) -> Seq<u8> {
    Seq::new(base.len(), |i: int| packed_byte(frame, dst_format, fill, layout, base, i))
}

/// Law: packing never touches padding.  Any byte whose offset within its
/// row lies at or past `width * bytes-per-pixel`, or that lies in a row at
/// or past `height`, keeps its prior value, whatever the source frame
/// holds.
pub proof fn lemma_padding_untouched(
    frame: FrameView,
    dst_format: PixelFormat,
    fill: u8,
    layout: PlaneLayout,
    base: Seq<u8>,
    i: int,
)
    requires
        0 <= i < base.len(),
        i % (layout.stride as int) >= layout.width * bytes_per_pixel(dst_format) || i / (
        layout.stride as int) >= layout.height,
    ensures
        packed_plane(frame, dst_format, fill, layout, base)[i] == base[i],
{
}

/// Law: packing puts every subpixel where it belongs.  Byte `k` of the
/// pixel in row `row`, column `col` of the plane holds the reordered
/// subpixel of source pixel `row * width + col`, whenever the source still
/// has that pixel.
pub proof fn lemma_pixel_placed(
    frame: FrameView,
    dst_format: PixelFormat,
    fill: u8,
    layout: PlaneLayout,
    base: Seq<u8>,
    row: int,
    col: int,
    k: int,
)
    requires
        layout.wf(dst_format),
        layout.byte_len() <= base.len(),
        0 <= row < layout.height,
        0 <= col < layout.width,
        0 <= k < bytes_per_pixel(dst_format),
        row * layout.width + col < complete_pixels(frame),
    ensures
        packed_plane(frame, dst_format, fill, layout, base)[row * (layout.stride as int) + col
            * bytes_per_pixel(dst_format) + k] == packed_subpixel(
            frame,
            dst_format,
            fill,
            row * layout.width + col,
            k,
        ),
{
    lemma_decompose(layout, bytes_per_pixel(dst_format), row, col, k);
}

/// Holds when byte `i` of the plane belongs to a pixel position strictly
/// before channel `chans` of the pixel in row `rows`, column `cols`, in the
/// packer's row-major, channel-minor order.
spec fn written_before(
    layout: PlaneLayout,
    dst_format: PixelFormat,
    i: int,
    rows: int,
    cols: int,
    chans: int,
) -> bool {
    let stride = layout.stride as int;
    let dbpp = bytes_per_pixel(dst_format);
    let row = i / stride;
    let off = i % stride;
    let col = off / dbpp;
    let k = off % dbpp;
    &&& row < layout.height
    &&& off < layout.width * dbpp
    &&& (row < rows || (row == rows && (col < cols || (col == cols && k < chans))))
}

/// The packer's loop invariant: every byte the traversal has passed holds
/// its packed value, every other byte its prior content.
spec fn partial_pack(
    frame: FrameView,
    dst_format: PixelFormat,
    fill: u8,
    layout: PlaneLayout,
    base: Seq<u8>,
    cur: Seq<u8>,
    rows: int,
    cols: int,
    chans: int,
) -> bool {
    &&& cur.len() == base.len()
    &&& forall|i: int|
        #![trigger cur[i]]
        0 <= i < cur.len() ==> cur[i] == (if written_before(layout, dst_format, i, rows, cols, chans) {
            packed_byte(frame, dst_format, fill, layout, base, i)
        } else {
            base[i]
        })
}

/// A byte index within one pixel of the plane decomposes uniquely into its
/// row, column and channel.
proof fn lemma_decompose(layout: PlaneLayout, dbpp: int, row: int, col: int, k: int)
    requires
        1 <= layout.stride,
        1 <= dbpp,
        layout.width * dbpp <= layout.stride,
        0 <= row < layout.height,
        0 <= col < layout.width,
        0 <= k < dbpp,
    ensures
        col * dbpp + k < layout.width * dbpp,
        0 <= col * dbpp + k,
        0 <= row * (layout.stride as int) + col * dbpp + k,
        row * (layout.stride as int) + col * dbpp + k < layout.stride * layout.height,
        (row * (layout.stride as int) + col * dbpp + k) / (layout.stride as int) == row,
        (row * (layout.stride as int) + col * dbpp + k) % (layout.stride as int) == col * dbpp
            + k,
        (col * dbpp + k) / dbpp == col,
        (col * dbpp + k) % dbpp == k,
{
    let stride = layout.stride as int;
    assert(0 <= col * dbpp + k && col * dbpp + k < layout.width * dbpp) by (nonlinear_arith)
        requires
            0 <= col,
            col < layout.width,
            0 <= k,
            k < dbpp,
            1 <= dbpp,
    ;
    let off = col * dbpp + k;
    assert(off < stride);
    assert(0 <= row * stride + off && row * stride + off < stride * layout.height)
        by (nonlinear_arith)
        requires
            0 <= row,
            row < layout.height,
            0 <= off,
            off < stride,
            1 <= stride,
    ;
    let idx = row * stride + off;
    lemma_fundamental_div_mod_converse(idx, stride, row, off);
    lemma_fundamental_div_mod_converse(off, dbpp, col, k);
}

/// The byte for channel `j` of source pixel `p` lies inside the source
/// buffer whenever pixel `p` is complete.
proof fn lemma_src_index(frame: FrameView, p: int, j: int)
    requires
        0 <= p,
        p < complete_pixels(frame),
        0 <= j,
        j < bytes_per_pixel(frame.format),
    ensures
        0 <= p * bytes_per_pixel(frame.format) + j,
        p * bytes_per_pixel(frame.format) + j < frame.data.len(),
{
    let bpp = bytes_per_pixel(frame.format);
    let len = frame.data.len() as int;
    let c = len / bpp;
    lemma_fundamental_div_mod(len, bpp);
    lemma_mod_pos_bound(len, bpp);
    assert(0 <= p * bpp + j && p * bpp + j < len) by (nonlinear_arith)
        requires
            0 <= p,
            p + 1 <= c,
            bpp * c <= len,
            0 <= j,
            j + 1 <= bpp,
            1 <= bpp,
    ;
}

/// Writing the packed value of channel `k` of pixel (`row`, `col`) advances
/// the invariant by one channel.
proof fn lemma_mark_written(
    frame: FrameView,
    dst_format: PixelFormat,
    fill: u8,
    layout: PlaneLayout,
    base: Seq<u8>,
    prev: Seq<u8>,
    row: int,
    col: int,
    k: int,
    value: u8,
)
    requires
        layout.wf(dst_format),
        layout.byte_len() <= base.len(),
        partial_pack(frame, dst_format, fill, layout, base, prev, row, col, k),
        0 <= row < layout.height,
        0 <= col < layout.width,
        0 <= k < bytes_per_pixel(dst_format),
        row * layout.width + col < complete_pixels(frame),
        value == packed_subpixel(frame, dst_format, fill, row * layout.width + col, k),
    ensures
        partial_pack(
            frame,
            dst_format,
            fill,
            layout,
            base,
            prev.update(row * (layout.stride as int) + col * bytes_per_pixel(dst_format) + k, value),
            row,
            col,
            k + 1,
        ),
{
    let stride = layout.stride as int;
    let dbpp = bytes_per_pixel(dst_format);
    lemma_decompose(layout, dbpp, row, col, k);
    let idx = row * stride + col * dbpp + k;
    let cur = prev.update(idx, value);
    assert forall|i: int|
        0 <= i < cur.len() implies #[trigger] cur[i] == (if written_before(
        layout,
        dst_format,
        i,
        row,
        col,
        k + 1,
    ) {
        packed_byte(frame, dst_format, fill, layout, base, i)
    } else {
        base[i]
    }) by {
        if i == idx {
            assert(written_before(layout, dst_format, i, row, col, k + 1));
            assert(packed_byte(frame, dst_format, fill, layout, base, i) == value);
        } else {
            assert(cur[i] == prev[i]);
            if written_before(layout, dst_format, i, row, col, k + 1) && !written_before(
                layout,
                dst_format,
                i,
                row,
                col,
                k,
            ) {
                let off_i = i % stride;
                assert(i / stride == row);
                assert(off_i / dbpp == col);
                assert(off_i % dbpp == k);
                lemma_fundamental_div_mod(i, stride);
                assert(i == stride * row + off_i);
                lemma_fundamental_div_mod(off_i, dbpp);
                assert(off_i == dbpp * col + k);
                assert(i == idx) by (nonlinear_arith)
                    requires
                        i == stride * row + off_i,
                        off_i == dbpp * col + k,
                        idx == row * stride + col * dbpp + k,
                ;
                assert(false);
            }
        }
    }
}

/// After its last channel, pixel (`row`, `col`) counts as fully written.
proof fn lemma_pixel_done(
    frame: FrameView,
    dst_format: PixelFormat,
    fill: u8,
    layout: PlaneLayout,
    base: Seq<u8>,
    cur: Seq<u8>,
    row: int,
    col: int,
)
    requires
        layout.wf(dst_format),
        partial_pack(
            frame,
            dst_format,
            fill,
            layout,
            base,
            cur,
            row,
            col,
            bytes_per_pixel(dst_format),
        ),
        0 <= row,
        0 <= col,
    ensures
        partial_pack(frame, dst_format, fill, layout, base, cur, row, col + 1, 0),
{
    let stride = layout.stride as int;
    let dbpp = bytes_per_pixel(dst_format);
    assert forall|i: int|
        0 <= i < cur.len() implies (written_before(layout, dst_format, i, row, col + 1, 0)
        == written_before(layout, dst_format, i, row, col, dbpp)) by {
        if 0 <= i {
            lemma_div_pos_is_pos(i, stride);
            lemma_mod_pos_bound(i, stride);
            lemma_mod_pos_bound(i % stride, dbpp);
        }
    }
}

/// A pixel the source cannot fill advances the traversal without changing
/// any byte: the plane already holds its packed (that is, prior) value.
proof fn lemma_pixel_skipped(
    frame: FrameView,
    dst_format: PixelFormat,
    fill: u8,
    layout: PlaneLayout,
    base: Seq<u8>,
    cur: Seq<u8>,
    row: int,
    col: int,
)
    requires
        layout.wf(dst_format),
        partial_pack(frame, dst_format, fill, layout, base, cur, row, col, 0),
        0 <= row < layout.height,
        0 <= col < layout.width,
        row * layout.width + col >= complete_pixels(frame),
    ensures
        partial_pack(frame, dst_format, fill, layout, base, cur, row, col + 1, 0),
{
    let stride = layout.stride as int;
    let dbpp = bytes_per_pixel(dst_format);
    assert forall|i: int|
        0 <= i < cur.len() implies #[trigger] cur[i] == (if written_before(
        layout,
        dst_format,
        i,
        row,
        col + 1,
        0,
    ) {
        packed_byte(frame, dst_format, fill, layout, base, i)
    } else {
        base[i]
    }) by {
        lemma_div_pos_is_pos(i, stride);
        lemma_mod_pos_bound(i, stride);
        lemma_mod_pos_bound(i % stride, dbpp);
        if written_before(layout, dst_format, i, row, col + 1, 0) && !written_before(
            layout,
            dst_format,
            i,
            row,
            col,
            0,
        ) {
            // This byte belongs to the skipped pixel, whose packed value is
            // its prior content because the source ran out of pixels.
            assert(i / stride == row && (i % stride) / dbpp == col);
            assert(packed_byte(frame, dst_format, fill, layout, base, i) == base[i]);
        }
    }
}

/// After its last column, a row counts as fully written.
proof fn lemma_row_done(
    frame: FrameView,
    dst_format: PixelFormat,
    fill: u8,
    layout: PlaneLayout,
    base: Seq<u8>,
    cur: Seq<u8>,
    row: int,
)
    requires
        layout.wf(dst_format),
        partial_pack(frame, dst_format, fill, layout, base, cur, row, layout.width as int, 0),
        0 <= row,
    ensures
        partial_pack(frame, dst_format, fill, layout, base, cur, row + 1, 0, 0),
{
    let stride = layout.stride as int;
    let dbpp = bytes_per_pixel(dst_format);
    assert forall|i: int|
        0 <= i < cur.len() implies (written_before(layout, dst_format, i, row + 1, 0, 0)
        == written_before(layout, dst_format, i, row, layout.width as int, 0)) by {
        lemma_div_pos_is_pos(i, stride);
        lemma_mod_pos_bound(i, stride);
        let off = i % stride;
        lemma_mod_pos_bound(off, dbpp);
        lemma_div_pos_is_pos(off, dbpp);
        if off < layout.width * dbpp {
            lemma_fundamental_div_mod(off, dbpp);
            assert(off / dbpp < layout.width) by (nonlinear_arith)
                requires
                    dbpp * (off / dbpp) <= off,
                    off < layout.width * dbpp,
                    0 <= off / dbpp,
                    1 <= dbpp,
            ;
        }
    }
}

/// Copies one source frame into a destination plane, reordering channels to
/// the destination format and filling channels the source lacks with `fill`.
///
/// Only the leading `width * bytes-per-pixel` bytes of each of the `height`
/// rows are written; trailing stride padding and anything past the plane
/// keep their prior content.  A source with fewer complete pixels than the
/// plane needs stops the copy early rather than reading out of bounds,
/// leaving the remaining destination bytes at their prior content.
pub fn pack_frame(
    frame: &Frame,
    dst_format: PixelFormat,
    fill: u8,
    layout: &PlaneLayout,
    dst: &mut Vec<u8>,
)
    requires
        layout.wf(dst_format),
        layout.byte_len() <= old(dst)@.len(),
    ensures
        final(dst)@.len() == old(dst)@.len(),
        final(dst)@ == packed_plane(frame@, dst_format, fill, *layout, old(dst)@),
{
    let ghost base = dst@;
    let dbpp = pixel_width(dst_format);
    let sbpp = pixel_width(frame.format);
    let data_len = frame.data.len();
    let avail = data_len / sbpp;
    let mut row: usize = 0;
    while row < layout.height
        invariant
            layout.wf(dst_format),
            dbpp == bytes_per_pixel(dst_format),
            sbpp == bytes_per_pixel(frame.format),
            data_len == frame.data@.len(),
            avail == complete_pixels(frame@),
            row <= layout.height,
            dst@.len() == base.len(),
            layout.byte_len() <= base.len(),
            partial_pack(frame@, dst_format, fill, *layout, base, dst@, row as int, 0, 0),
        decreases layout.height - row,
    {
        let mut col: usize = 0;
        while col < layout.width
            invariant
                layout.wf(dst_format),
                dbpp == bytes_per_pixel(dst_format),
                sbpp == bytes_per_pixel(frame.format),
                data_len == frame.data@.len(),
                avail == complete_pixels(frame@),
                row < layout.height,
                col <= layout.width,
                dst@.len() == base.len(),
                layout.byte_len() <= base.len(),
                partial_pack(
                    frame@,
                    dst_format,
                    fill,
                    *layout,
                    base,
                    dst@,
                    row as int,
                    col as int,
                    0,
                ),
            decreases layout.width - col,
        {
            proof {
                assert(row * layout.width + col < layout.stride * layout.height)
                    by (nonlinear_arith)
                    requires
                        0 <= row < layout.height,
                        0 <= col < layout.width,
                        1 <= bytes_per_pixel(dst_format),
                        layout.width * bytes_per_pixel(dst_format) <= layout.stride,
                ;
            }
            let p = row * layout.width + col;
            if p < avail {
                let mut k: usize = 0;
                while k < dbpp
                    invariant
                        layout.wf(dst_format),
                        dbpp == bytes_per_pixel(dst_format),
                        sbpp == bytes_per_pixel(frame.format),
                        data_len == frame.data@.len(),
                        avail == complete_pixels(frame@),
                        row < layout.height,
                        col < layout.width,
                        k <= dbpp,
                        p == row * layout.width + col,
                        p < avail,
                        dst@.len() == base.len(),
                        layout.byte_len() <= base.len(),
                        partial_pack(
                            frame@,
                            dst_format,
                            fill,
                            *layout,
                            base,
                            dst@,
                            row as int,
                            col as int,
                            k as int,
                        ),
                    decreases dbpp - k,
                {
                    let role = channel_role(dst_format, k);
                    let value: u8 = match source_offset(frame.format, role) {
                        Some(j) => {
                            proof {
                                lemma_src_index(frame@, p as int, j as int);
                            }
                            frame.data[p * sbpp + j]
                        },
                        None => fill,
                    };
                    proof {
                        lemma_decompose(
                            *layout,
                            dbpp as int,
                            row as int,
                            col as int,
                            k as int,
                        );
                    }
                    let idx = row * layout.stride + col * dbpp + k;
                    let ghost prev = dst@;
                    dst.set(idx, value);
                    proof {
                        lemma_mark_written(
                            frame@,
                            dst_format,
                            fill,
                            *layout,
                            base,
                            prev,
                            row as int,
                            col as int,
                            k as int,
                            value,
                        );
                    }
                    k = k + 1;
                }
                proof {
                    lemma_pixel_done(
                        frame@,
                        dst_format,
                        fill,
                        *layout,
                        base,
                        dst@,
                        row as int,
                        col as int,
                    );
                }
            } else {
                proof {
                    lemma_pixel_skipped(
                        frame@,
                        dst_format,
                        fill,
                        *layout,
                        base,
                        dst@,
                        row as int,
                        col as int,
                    );
                }
            }
            col = col + 1;
        }
        proof {
            lemma_row_done(frame@, dst_format, fill, *layout, base, dst@, row as int);
        }
        row = row + 1;
    }
    proof {
        assert forall|i: int|
            0 <= i < dst@.len() implies dst@[i] == packed_byte(
            frame@,
            dst_format,
            fill,
            *layout,
            base,
            i,
        ) by {
            let stride = layout.stride as int;
            lemma_div_pos_is_pos(i, stride);
            lemma_mod_pos_bound(i, stride);
        }
        assert(dst@ =~= packed_plane(frame@, dst_format, fill, *layout, base));
    }
}

} // verus!
