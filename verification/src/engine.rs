//! Pixel transfer engine: bulk-packet reassembly, optional block
//! decompression, and the row-wise blit into a destination surface.
//!
//! A transfer starts from a validated buffer-update header, accumulates
//! the bulk packets fed to it until the declared byte count is reached
//! exactly, and then writes the pixel block into the surface one row at
//! a time, honouring the surface pitch and the rectangle offset.  The
//! blit's contract pins every byte of the resulting surface: bytes
//! inside the rectangle come from the source block, bytes outside it
//! are unchanged.

use crate::codec::SetBuffer;
use vstd::arithmetic::div_mod::{lemma_fundamental_div_mod, lemma_fundamental_div_mod_converse};
use vstd::pervasive::VecAdditionalExecFns;
use vstd::prelude::*;

verus! {

/// Errors of the pixel transfer engine.
#[derive(Clone, Copy, Debug, PartialEq, Eq, Structural)]
pub enum TransferError {
    /// The header declares a zero-sized rectangle, or a byte length
    /// that is not a whole number of bytes per pixel.
    BadDimensions,
    /// A compressed update declares a length beyond what the block
    /// decompressor accepts.
    TooLarge,
    /// More bytes were fed than the header declared.
    Overrun,
    /// The transfer was finished before all declared bytes arrived.
    Incomplete,
    /// The update rectangle does not lie within the destination
    /// surface.
    OutOfBounds,
    /// The accumulated block failed to decompress to the declared
    /// uncompressed length.
    Decompress,
}

// ---------------------------------------------------------------------------
// Header validity
// ---------------------------------------------------------------------------

/// The largest byte count the LZ4 block decoder accepts as an
/// uncompressed size (the library's own input-size ceiling).
pub const LZ4_MAX_INPUT_SIZE: u32 = 0x7e00_0000;

/// A buffer-update header the engine accepts: a non-empty rectangle
/// whose declared byte length is a whole (positive) number of bytes per
/// pixel, and, for compressed updates, lengths the block decompressor
/// can take.
pub open spec fn valid_set_buffer(s: SetBuffer) -> bool {
    &&& s.width > 0
    &&& s.height > 0
    &&& s.length > 0
    &&& (s.length as int) % (s.width as int * s.height as int) == 0
    &&& (s.compression != 0 ==> s.length <= LZ4_MAX_INPUT_SIZE && s.compressed_length
        <= 0x7fff_ffff)
}

/// Bytes per pixel derived from the header, `length / (width * height)`.
pub open spec fn spec_bytes_per_pixel(s: SetBuffer) -> int {
    (s.length as int) / (s.width as int * s.height as int)
}

/// How many bytes the bulk endpoint must deliver for this update: the
/// compressed length when compression is active, the plain length
/// otherwise.
pub open spec fn spec_target_len(s: SetBuffer) -> int {
    if s.compression != 0 {
        s.compressed_length as int
    } else {
        s.length as int
    }
}

// ---------------------------------------------------------------------------
// Blit specification
// ---------------------------------------------------------------------------

/// Whether the update rectangle lies within a surface of `fb_len` bytes
/// and `pitch` bytes per row: a row must fit the pitch, and the last
/// written byte must lie inside the surface.  The last row need not be
/// followed by a full pitch of surface.
pub open spec fn spec_rect_fits(
    fb_len: int,
    pitch: int,
    x: int,
    y: int,
    w: int,
    h: int,
    bpp: int,
) -> bool {
    &&& pitch > 0
    &&& (x + w) * bpp <= pitch
    &&& (h > 0 ==> (y + h - 1) * pitch + (x + w) * bpp <= fb_len)
}

/// The surface after blitting `src` as `h` rows of `w * bpp` bytes at
/// pixel offset `(x, y)`: byte `k` of the surface lies in row
/// `k / pitch` at column `k % pitch`; if that position falls inside the
/// update rectangle it takes the corresponding source byte, otherwise
/// it keeps its old value.
pub open spec fn blit_region(
    fb0: Seq<u8>,
    pitch: int,
    x: int,
    y: int,
    w: int,
    h: int,
    bpp: int,
    src: Seq<u8>,
) -> Seq<u8> {
    Seq::new(
        fb0.len(),
        |k: int|
            {
                let r = k / pitch - y;
                let c = k % pitch - x * bpp;
                if 0 <= r < h && 0 <= c < w * bpp {
                    src[r * (w * bpp) + c]
                } else {
                    fb0[k]
                }
            },
    )
}

/// The surface in the middle of a blit: `rows` full rows are written,
/// plus the first `extra` bytes of row `rows`.
pub open spec fn blit_partial(
    fb0: Seq<u8>,
    pitch: int,
    x: int,
    y: int,
    w: int,
    bpp: int,
    src: Seq<u8>,
    rows: int,
    extra: int,
) -> Seq<u8> {
    Seq::new(
        fb0.len(),
        |k: int|
            {
                let r = k / pitch - y;
                let c = k % pitch - x * bpp;
                if (0 <= r < rows && 0 <= c < w * bpp) || (r == rows && 0 <= c < extra) {
                    src[r * (w * bpp) + c]
                } else {
                    fb0[k]
                }
            },
    )
}

/// Byte `k` of the surface lies in row `i` of the update rectangle.
pub open spec fn in_updated_row(
    pitch: int,
    x: int,
    y: int,
    w: int,
    bpp: int,
    i: int,
    k: int,
) -> bool {
    (y + i) * pitch + x * bpp <= k < (y + i) * pitch + x * bpp + w * bpp
}

/// Byte `k` of the surface lies in some row of the update rectangle.
pub open spec fn in_updated_rect(
    pitch: int,
    x: int,
    y: int,
    w: int,
    h: int,
    bpp: int,
    k: int,
) -> bool {
    exists|i: int| 0 <= i < h && #[trigger] in_updated_row(pitch, x, y, w, bpp, i, k)
}

/// Inside the rectangle, the blitted surface holds the source: row `i`
/// of the rectangle holds source bytes `i * (w * bpp)` onward, starting
/// at column offset `x * bpp`.
pub proof fn lemma_blit_region_inside(
    fb0: Seq<u8>,
    pitch: int,
    x: int,
    y: int,
    w: int,
    h: int,
    bpp: int,
    src: Seq<u8>,
    i: int,
    j: int,
)
    requires
        0 <= x,
        0 <= y,
        0 <= bpp,
        spec_rect_fits(fb0.len() as int, pitch, x, y, w, h, bpp),
        0 <= i < h,
        0 <= j < w * bpp,
    ensures
        blit_region(fb0, pitch, x, y, w, h, bpp, src)[(y + i) * pitch + x * bpp + j] == src[i * (w
            * bpp) + j],
{
    let k = (y + i) * pitch + x * bpp + j;
    let l = fb0.len() as int;
    assert(x * bpp + w * bpp <= pitch && 0 <= (y + i) * pitch && k < l) by (nonlinear_arith)
        requires
            0 <= x,
            0 <= y,
            0 <= bpp,
            0 <= i < h,
            0 <= j < w * bpp,
            pitch > 0,
            (x + w) * bpp <= pitch,
            (y + h - 1) * pitch + (x + w) * bpp <= l,
            k == (y + i) * pitch + x * bpp + j,
    ;
    lemma_fundamental_div_mod_converse(k, pitch, y + i, x * bpp + j);
}

/// Outside the rectangle, the blitted surface is unchanged.
pub proof fn lemma_blit_region_outside(
    fb0: Seq<u8>,
    pitch: int,
    x: int,
    y: int,
    w: int,
    h: int,
    bpp: int,
    src: Seq<u8>,
    k: int,
)
    requires
        0 <= x,
        0 <= y,
        0 <= bpp,
        pitch > 0,
        0 <= k < fb0.len(),
        !in_updated_rect(pitch, x, y, w, h, bpp, k),
    ensures
        blit_region(fb0, pitch, x, y, w, h, bpp, src)[k] == fb0[k],
{
    let r = k / pitch - y;
    let c = k % pitch - x * bpp;
    if 0 <= r < h && 0 <= c < w * bpp {
        lemma_fundamental_div_mod(k, pitch);
        assert(k == (y + r) * pitch + x * bpp + c) by (nonlinear_arith)
            requires
                k == pitch * (k / pitch) + k % pitch,
                r == k / pitch - y,
                c == k % pitch - x * bpp,
        ;
        assert(in_updated_row(pitch, x, y, w, bpp, r, k));
        assert(false);
    }
}

// ---------------------------------------------------------------------------
// Blit
// ---------------------------------------------------------------------------

/// Copies `src`, taken as `height` rows of `width * bpp` bytes, into
/// the surface at pixel offset `(x, y)`, one row at a time.  Every byte
/// of the result is pinned by `blit_region`: rectangle bytes come from
/// `src`, all others keep their old value.
pub fn blit(
    fb: &mut Vec<u8>,
    pitch: usize,
    x: usize,
    y: usize,
    width: usize,
    height: usize,
    bpp: usize,
    src: &Vec<u8>,
)
    requires
        pitch > 0,
        src@.len() == width * height * bpp,
        (x + width) * bpp <= pitch,
        height > 0 ==> (y + height - 1) * pitch + (x + width) * bpp <= old(fb)@.len(),
    ensures
        final(fb)@ == blit_region(
            old(fb)@,
            pitch as int,
            x as int,
            y as int,
            width as int,
            height as int,
            bpp as int,
            src@,
        ),
{
    let ghost fb0 = fb@;
    proof {
        assert(fb@.len() == fb.len());
        assert(src@.len() == src.len());
    }
    assert(width * bpp <= (x + width) * bpp) by (nonlinear_arith)
        requires
            0 <= x,
            0 <= width,
            0 <= bpp,
    ;
    let row_bytes: usize = width * bpp;
    let mut i: usize = 0;
    proof {
        assert(fb@ =~= blit_partial(fb0, pitch as int, x as int, y as int, width as int, bpp as int, src@, 0, 0));
    }
    while i < height
        invariant
            i <= height,
            pitch > 0,
            row_bytes == width * bpp,
            src@.len() == width * height * bpp,
            (x + width) * bpp <= pitch,
            height > 0 ==> (y + height - 1) * pitch + (x + width) * bpp <= fb0.len(),
            fb0.len() <= usize::MAX,
            src@.len() <= usize::MAX,
            fb@.len() == fb0.len(),
            fb@ == blit_partial(
                fb0,
                pitch as int,
                x as int,
                y as int,
                width as int,
                bpp as int,
                src@,
                i as int,
                0,
            ),
        decreases height - i,
    {
        proof {
            assert(y + i <= fb0.len() && (y + i) * pitch <= fb0.len() && (y + i) * pitch + x * bpp
                + row_bytes <= fb0.len() && x * bpp + row_bytes <= pitch && i * row_bytes
                + row_bytes <= src@.len()) by (nonlinear_arith)
                requires
                    i < height,
                    pitch > 0,
                    row_bytes == width * bpp,
                    src@.len() == width * height * bpp,
                    (x + width) * bpp <= pitch,
                    (y + height - 1) * pitch + (x + width) * bpp <= fb0.len(),
            ;
        }
        let dst0: usize = (y + i) * pitch + x * bpp;
        let src0: usize = i * row_bytes;
        let mut j: usize = 0;
        while j < row_bytes
            invariant
                j <= row_bytes,
                i < height,
                pitch > 0,
                row_bytes == width * bpp,
                src@.len() == width * height * bpp,
                x * bpp + row_bytes <= pitch,
                dst0 == (y + i) * pitch + x * bpp,
                src0 == i * row_bytes,
                dst0 + row_bytes <= fb0.len(),
                src0 + row_bytes <= src@.len(),
                fb0.len() <= usize::MAX,
                src@.len() <= usize::MAX,
                fb@.len() == fb0.len(),
                fb@ == blit_partial(
                    fb0,
                    pitch as int,
                    x as int,
                    y as int,
                    width as int,
                    bpp as int,
                    src@,
                    i as int,
                    j as int,
                ),
            decreases row_bytes - j,
        {
            let v = src[src0 + j];
            fb.set(dst0 + j, v);
            proof {
                let prev = blit_partial(
                    fb0,
                    pitch as int,
                    x as int,
                    y as int,
                    width as int,
                    bpp as int,
                    src@,
                    i as int,
                    j as int,
                );
                let next = blit_partial(
                    fb0,
                    pitch as int,
                    x as int,
                    y as int,
                    width as int,
                    bpp as int,
                    src@,
                    i as int,
                    j + 1,
                );
                let k = dst0 as int + j;
                lemma_fundamental_div_mod_converse(k, pitch as int, y + i, x * bpp + j);
                assert(k / (pitch as int) == y + i);
                assert(k % (pitch as int) == x * bpp + j);
                assert(0 <= k < fb0.len());
                assert(next[k] == src@[src0 as int + j]);
                assert(prev.update(k, v)[k] == v);
                assert forall|t: int| 0 <= t < fb0.len() && t != k implies prev.update(k, v)[t]
                    == next[t] by {
                    lemma_fundamental_div_mod(t, pitch as int);
                    let r = t / (pitch as int) - y;
                    let c = t % (pitch as int) - x * bpp;
                    if r == i && c == j {
                        assert(t == (pitch as int) * (t / (pitch as int)) + t % (pitch as int));
                        assert(t == (pitch as int) * (y + i) + x * bpp + j);
                        assert((pitch as int) * (y + i) == (y + i) * (pitch as int))
                            by (nonlinear_arith);
                        assert(t == k);
                    }
                }
                assert(fb@ =~= next);
            }
            j += 1;
        }
        proof {
            let done = blit_partial(
                fb0,
                pitch as int,
                x as int,
                y as int,
                width as int,
                bpp as int,
                src@,
                i as int,
                row_bytes as int,
            );
            let next = blit_partial(
                fb0,
                pitch as int,
                x as int,
                y as int,
                width as int,
                bpp as int,
                src@,
                i + 1,
                0,
            );
            assert forall|t: int| 0 <= t < fb0.len() implies done[t] == next[t] by {}
            assert(fb@ =~= next);
        }
        i += 1;
    }
    proof {
        let region = blit_region(
            fb0,
            pitch as int,
            x as int,
            y as int,
            width as int,
            height as int,
            bpp as int,
            src@,
        );
        let done = blit_partial(
            fb0,
            pitch as int,
            x as int,
            y as int,
            width as int,
            bpp as int,
            src@,
            height as int,
            0,
        );
        assert forall|t: int| 0 <= t < fb0.len() implies done[t] == region[t] by {}
        assert(fb@ =~= region);
    }
}

// ---------------------------------------------------------------------------
// Rectangle bounds check
// ---------------------------------------------------------------------------

/// Decides whether the update rectangle lies within the surface.
fn rect_fits(fb_len: usize, pitch: usize, x: u32, y: u32, width: u32, height: u32, bpp: u32) -> (b:
    bool)
    ensures
        b == spec_rect_fits(
            fb_len as int,
            pitch as int,
            x as int,
            y as int,
            width as int,
            height as int,
            bpp as int,
        ),
{
    if pitch == 0 {
        return false;
    }
    let row: u64 = match (x as u64 + width as u64).checked_mul(bpp as u64) {
        Some(v) => v,
        None => {
            return false;
        },
    };
    if row > pitch as u64 {
        return false;
    }
    if height == 0 {
        return true;
    }
    let last_row: u64 = match (y as u64 + height as u64 - 1).checked_mul(pitch as u64) {
        Some(v) => v,
        None => {
            return false;
        },
    };
    match last_row.checked_add(row) {
        Some(v) => v <= fb_len as u64,
        None => false,
    }
}

// ---------------------------------------------------------------------------
// Block decompression (trusted boundary)
// ---------------------------------------------------------------------------

/// What the LZ4 block decoder yields for a compressed block: the
/// decoded bytes are a function of the compressed bytes alone.
pub uninterp spec fn lz4_block_decoded(src: Seq<u8>) -> Seq<u8>;

/// Whether a byte buffer is a well-formed LZ4 block, which the decoder
/// accepts whenever its decoded form fits the offered room.
pub uninterp spec fn lz4_block_valid(src: Seq<u8>) -> bool;

#[verifier::external_type_specification]
#[verifier::external_body]
pub struct ExIoError(std::io::Error);

/// Relies on `lz4::block::decompress` with an explicit size bound: it
/// succeeds exactly when the bound is within the decoder's input-size
/// ceiling and the block is well formed with a decoded form that fits
/// the bound, and then returns that decoded form, determined by the
/// compressed bytes alone.
#[verifier::external_body]
fn lz4_decompress(src: &Vec<u8>, uncompressed_len: u32) -> (r: Result<Vec<u8>, std::io::Error>)
    requires
        src@.len() <= 0x7fff_ffff,
        uncompressed_len <= 0x7fff_ffff,
    ensures
        r is Ok ==> uncompressed_len <= LZ4_MAX_INPUT_SIZE && lz4_block_valid(src@)
            && lz4_block_decoded(src@).len() <= uncompressed_len,
        uncompressed_len <= LZ4_MAX_INPUT_SIZE && lz4_block_valid(src@) && lz4_block_decoded(
            src@,
        ).len() <= uncompressed_len ==> r is Ok,
        r matches Ok(d) ==> d@ == lz4_block_decoded(src@),
{
    lz4::block::decompress(src.as_slice(), Some(uncompressed_len as i32))
}

// ---------------------------------------------------------------------------
// Packet reassembly
// ---------------------------------------------------------------------------

/// One in-flight buffer update: accumulates the bulk packets until the
/// declared byte count is reached exactly, then decompresses if the
/// header asks for it and blits the block into the surface.
pub struct PixelTransfer {
    info: SetBuffer,
    bpp: u32,
    target: usize,
    buf: Vec<u8>,
}

impl PixelTransfer {
    /// The header this transfer was started from.
    pub closed spec fn info(&self) -> SetBuffer {
        self.info
    }

    /// The bytes accumulated so far.
    pub closed spec fn data(&self) -> Seq<u8> {
        self.buf@
    }

    /// The number of bytes the transfer waits for.
    pub closed spec fn target_len(&self) -> int {
        self.target as int
    }

    /// The transfer's internal consistency: the header is valid, the
    /// stored pixel size and target length are derived from it, and no
    /// more than the target has accumulated.
    pub closed spec fn wf(&self) -> bool {
        &&& valid_set_buffer(self.info)
        &&& self.bpp as int == spec_bytes_per_pixel(self.info)
        &&& self.target as int == spec_target_len(self.info)
        &&& self.buf@.len() <= self.target
    }

    /// Starts a transfer from a buffer-update header, rejecting one
    /// with an empty rectangle, a byte length that is not a whole
    /// positive number of bytes per pixel, or, when compressed, lengths
    /// beyond the block decoder's reach.
    pub fn begin(info: SetBuffer) -> (r: Result<PixelTransfer, TransferError>)
        ensures
            r is Ok <==> valid_set_buffer(info),
            r matches Ok(t) ==> t.wf() && t.info() == info && t.data() == Seq::<u8>::empty()
                && t.target_len() == spec_target_len(info),
            (info.width == 0 || info.height == 0 || info.length == 0 || (info.length as int) % (
            info.width as int * info.height as int) != 0) ==> r == Err::<
                PixelTransfer,
                TransferError,
            >(TransferError::BadDimensions),
            info.width > 0 && info.height > 0 && info.length > 0 && (info.length as int) % (
            info.width as int * info.height as int) == 0 && info.compression != 0 && (info.length
                > LZ4_MAX_INPUT_SIZE || info.compressed_length > 0x7fff_ffff) ==> r == Err::<
                PixelTransfer,
                TransferError,
            >(TransferError::TooLarge),
    {
        if info.width == 0 || info.height == 0 || info.length == 0 {
            return Err(TransferError::BadDimensions);
        }
        proof {
            assert((info.width as u64) * (info.height as u64) == info.width as int * (
            info.height as int) && 1 <= info.width as int * (info.height as int)
                && info.width as int * (info.height as int) <= 0xffff_ffff_ffff_ffff)
                by (nonlinear_arith)
                requires
                    0 < info.width <= 0xffff_ffffu64,
                    0 < info.height <= 0xffff_ffffu64,
            ;
        }
        let wh: u64 = (info.width as u64) * (info.height as u64);
        if (info.length as u64) % wh != 0 {
            return Err(TransferError::BadDimensions);
        }
        if info.compression != 0 && (info.length > LZ4_MAX_INPUT_SIZE || info.compressed_length
            > 0x7fff_ffff) {
            return Err(TransferError::TooLarge);
        }
        let bpp64: u64 = (info.length as u64) / wh;
        proof {
            assert((info.length as u64) / wh <= info.length) by (nonlinear_arith)
                requires
                    wh >= 1,
                    info.length >= 0,
            ;
        }
        let target: usize = if info.compression != 0 {
            info.compressed_length as usize
        } else {
            info.length as usize
        };
        Ok(PixelTransfer { info, bpp: bpp64 as u32, target, buf: Vec::new() })
    }

    /// The number of bytes accumulated so far.
    pub fn received(&self) -> (r: usize)
        ensures
            r == self.data().len(),
    {
        self.buf.len()
    }

    /// The number of bytes the bulk endpoint must deliver in all.
    pub fn target_bytes(&self) -> (r: usize)
        ensures
            r == self.target_len(),
    {
        self.target
    }

    /// Whether all declared bytes have arrived.
    pub fn is_complete(&self) -> (r: bool)
        ensures
            r == (self.data().len() == self.target_len()),
    {
        self.buf.len() == self.target
    }

    /// Appends one received packet to the accumulation buffer.  A
    /// packet that would push the total past the declared byte count is
    /// rejected whole, and the state is unchanged.
    pub fn feed(&mut self, chunk: &Vec<u8>) -> (r: Result<(), TransferError>)
        requires
            old(self).wf(),
        ensures
            final(self).wf(),
            final(self).info() == old(self).info(),
            final(self).target_len() == old(self).target_len(),
            r is Ok <==> old(self).data().len() + chunk@.len() <= old(self).target_len(),
            r is Ok ==> final(self).data() == old(self).data() + chunk@,
            r is Err ==> r == Err::<(), TransferError>(TransferError::Overrun),
            r is Err ==> final(self).data() == old(self).data(),
    {
        if chunk.len() > self.target - self.buf.len() {
            return Err(TransferError::Overrun);
        }
        let ghost data0 = self.buf@;
        let mut i: usize = 0;
        while i < chunk.len()
            invariant
                i <= chunk@.len(),
                self.buf@ == data0 + chunk@.subrange(0, i as int),
                self.buf@.len() == data0.len() + i,
                self.target == old(self).target,
                self.info == old(self).info,
                self.bpp == old(self).bpp,
                data0.len() + chunk@.len() <= self.target,
            decreases chunk@.len() - i,
        {
            let b = chunk[i];
            self.buf.push(b);
            proof {
                assert(self.buf@ =~= data0 + chunk@.subrange(0, i + 1));
            }
            i += 1;
        }
        proof {
            assert(self.buf@ =~= data0 + chunk@);
        }
        Ok(())
    }

    /// Finishes the transfer: checks that exactly the declared byte
    /// count arrived and that the rectangle lies within the surface,
    /// decompresses the block when the header asks for it, and blits
    /// the pixel block into `fb`.  On any error `fb` is untouched.
    pub fn finish(self, fb: &mut Vec<u8>, pitch: usize) -> (r: Result<(), TransferError>)
        requires
            self.wf(),
        ensures
            final(fb)@.len() == old(fb)@.len(),
            r is Err ==> final(fb)@ == old(fb)@,
            self.data().len() != self.target_len() ==> r == Err::<(), TransferError>(
                TransferError::Incomplete,
            ),
            self.data().len() == self.target_len() && !transfer_rect_fits(
                self.info(),
                old(fb)@.len() as int,
                pitch as int,
            ) ==> r == Err::<(), TransferError>(TransferError::OutOfBounds),
            self.info().compression == 0 ==> (r is Ok <==> self.data().len() == self.target_len()
                && transfer_rect_fits(self.info(), old(fb)@.len() as int, pitch as int)),
            self.info().compression == 0 && r is Ok ==> final(fb)@ == transfer_blit(
                self.info(),
                old(fb)@,
                pitch as int,
                self.data(),
            ),
            self.info().compression != 0 && r is Ok ==> lz4_block_decoded(self.data()).len()
                == self.info().length && final(fb)@ == transfer_blit(
                self.info(),
                old(fb)@,
                pitch as int,
                lz4_block_decoded(self.data()),
            ),
            self.info().compression != 0 && self.data().len() == self.target_len()
                && transfer_rect_fits(self.info(), old(fb)@.len() as int, pitch as int) && r is Err
                ==> r == Err::<(), TransferError>(TransferError::Decompress),
            self.info().compression != 0 && self.data().len() == self.target_len()
                && transfer_rect_fits(self.info(), old(fb)@.len() as int, pitch as int) ==> (
            r is Ok <==> lz4_block_valid(self.data()) && lz4_block_decoded(self.data()).len()
                == self.info().length),
    {
        let PixelTransfer { info, bpp, target, buf } = self;
        if buf.len() != target {
            return Err(TransferError::Incomplete);
        }
        if !rect_fits(fb.len(), pitch, info.x, info.y, info.width, info.height, bpp) {
            return Err(TransferError::OutOfBounds);
        }
        proof {
            assert(info.width as int * (info.height as int) > 0) by (nonlinear_arith)
                requires
                    info.width > 0,
                    info.height > 0,
            ;
            vstd::arithmetic::div_mod::lemma_fundamental_div_mod(
                info.length as int,
                info.width as int * info.height as int,
            );
            assert((info.width as int * info.height as int) * spec_bytes_per_pixel(info)
                == info.width as int * (info.height as int * spec_bytes_per_pixel(info))
                && info.width as int * (info.height as int * spec_bytes_per_pixel(info))
                == info.width as int * info.height as int * spec_bytes_per_pixel(info))
                by (nonlinear_arith);
        }
        let src: Vec<u8>;
        if info.compression != 0 {
            match lz4_decompress(&buf, info.length) {
                Ok(d) => {
                    if d.len() != info.length as usize {
                        return Err(TransferError::Decompress);
                    }
                    src = d;
                },
                Err(_) => {
                    return Err(TransferError::Decompress);
                },
            }
        } else {
            src = buf;
        }
        blit(
            fb,
            pitch,
            info.x as usize,
            info.y as usize,
            info.width as usize,
            info.height as usize,
            bpp as usize,
            &src,
        );
        Ok(())
    }
}

/// Whether a header's rectangle lies within a surface of `fb_len` bytes
/// and `pitch` bytes per row.
pub open spec fn transfer_rect_fits(info: SetBuffer, fb_len: int, pitch: int) -> bool {
    spec_rect_fits(
        fb_len,
        pitch,
        info.x as int,
        info.y as int,
        info.width as int,
        info.height as int,
        spec_bytes_per_pixel(info),
    )
}

/// The surface after blitting `src` according to a header.
pub open spec fn transfer_blit(info: SetBuffer, fb0: Seq<u8>, pitch: int, src: Seq<u8>) -> Seq<
    u8,
> {
    blit_region(
        fb0,
        pitch,
        info.x as int,
        info.y as int,
        info.width as int,
        info.height as int,
        spec_bytes_per_pixel(info),
        src,
    )
}

// ---------------------------------------------------------------------------
// Chunking laws
// ---------------------------------------------------------------------------

/// The accumulation buffer after feeding `chunks`, in order, into a
/// fresh transfer: each `feed` appends its packet, as its contract
/// states.
pub open spec fn assembled(chunks: Seq<Seq<u8>>) -> Seq<u8>
    decreases chunks.len(),
{
    if chunks.len() == 0 {
        Seq::empty()
    } else {
        assembled(chunks.drop_last()) + chunks.last()
    }
}

/// Feeding a list of packets accumulates exactly their concatenation.
pub proof fn lemma_assembled_is_concatenation(chunks: Seq<Seq<u8>>)
    ensures
        assembled(chunks) == chunks.flatten(),
    decreases chunks.len(),
{
    chunks.lemma_flatten_and_flatten_alt_are_equivalent();
    if chunks.len() == 0 {
        assert(assembled(chunks) =~= chunks.flatten());
    } else {
        lemma_assembled_is_concatenation(chunks.drop_last());
        chunks.drop_last().lemma_flatten_and_flatten_alt_are_equivalent();
        assert(assembled(chunks) == chunks.flatten_alt());
    }
}

/// Reassembly does not depend on packet boundaries: any two splits of
/// the same payload accumulate the same bytes.
pub proof fn lemma_reassembly_boundary_independent(a: Seq<Seq<u8>>, b: Seq<Seq<u8>>)
    requires
        a.flatten() == b.flatten(),
    ensures
        assembled(a) == assembled(b),
{
    lemma_assembled_is_concatenation(a);
    lemma_assembled_is_concatenation(b);
}

} // verus!
