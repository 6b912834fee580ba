//! Decoded video frames: tightly packed RGBA8 pixels with a timestamp.
use vstd::prelude::*;
use vstd::arithmetic::div_mod::lemma_fundamental_div_mod_converse;

verus! {

/// Bytes per RGBA8 pixel.
pub const BYTES_PER_PIXEL: u64 = 4;

/// A decoded video frame, owned by the video queue until a consumer pops it.
pub struct VideoInfo {
    /// Height in pixels.
    pub height: u32,
    /// Width in pixels.
    pub width: u32,
    /// RGBA8 pixels, row after row, with no padding between rows.
    pub data: Vec<u8>,
    /// Presentation timestamp in nanoseconds.
    pub pts: u64,
}

/// Length in bytes of one packed row of `width` pixels.
pub open spec fn row_len(width: nat) -> nat {
    width * (BYTES_PER_PIXEL as nat)
}

/// A plane of `len` bytes holds `height` rows of `width` pixels spaced
/// `stride` bytes apart.
pub open spec fn plane_fits(len: nat, width: nat, height: nat, stride: nat) -> bool {
    &&& row_len(width) <= stride
    &&& height > 0 ==> (height - 1) * stride + row_len(width) <= len
}

/// The first `height` rows of `plane`, each `row_len(width)` bytes long and
/// starting `stride` bytes after the previous one, copied back to back.
pub open spec fn packed_rows(plane: Seq<u8>, width: nat, height: nat, stride: nat) -> Seq<u8> {
    let row = row_len(width) as int;
    Seq::new((row * height) as nat, |i: int| plane[(i / row) * stride + i % row])
}

/// Appending row `y` to the first `y` packed rows gives the first `y + 1`.
proof fn lemma_packed_rows_extend(plane: Seq<u8>, width: nat, y: nat, stride: nat)
    requires
        row_len(width) <= stride,
        y * stride + row_len(width) <= plane.len(),
    ensures
        packed_rows(plane, width, y, stride) + plane.subrange(
            (y * stride) as int,
            (y * stride + row_len(width)) as int,
        ) =~= packed_rows(plane, width, y + 1, stride),
{
    let row = row_len(width) as int;
    let a = packed_rows(plane, width, y, stride);
    let b = packed_rows(plane, width, y + 1, stride);
    let s = plane.subrange((y * stride) as int, (y * stride + row) as int);
    assert(row * (y + 1) == row * y + row) by (nonlinear_arith);
    assert forall|i: int| 0 <= i < b.len() implies (a + s)[i] == b[i] by {
        if i >= a.len() {
            assert(row * y == y * row) by (nonlinear_arith);
            lemma_fundamental_div_mod_converse(i, row, y as int, i - y * row);
        }
    }
}

/// Copies the rows of a strided plane into a tightly packed buffer, dropping
/// the padding at the end of each row. `None` when the plane is too short or
/// the stride is narrower than a row.
pub fn pack_rows(plane: &[u8], width: u32, height: u32, stride: usize) -> (r: Option<Vec<u8>>)
    ensures
        r is Some <==> plane_fits(plane@.len(), width as nat, height as nat, stride as nat),
        r matches Some(v) ==> v@ == packed_rows(plane@, width as nat, height as nat, stride as nat),
{
    let row: u64 = width as u64 * BYTES_PER_PIXEL;
    if (stride as u64) < row {
        return None;
    }
    if height == 0 {
        let empty: Vec<u8> = Vec::new();
        assert(empty@ =~= packed_rows(plane@, width as nat, 0, stride as nat));
        return Some(empty);
    }
    assert((height - 1) as int * stride as int <= u32::MAX as int * u64::MAX as int)
        by (nonlinear_arith);
    let last: u128 = (height - 1) as u128 * stride as u128 + row as u128;
    if last > plane.len() as u128 {
        return None;
    }
    let ghost w = width as nat;
    let ghost st = stride as nat;
    let row: usize = row as usize;
    let h: usize = height as usize;
    let n: usize = plane.len();
    let mut out: Vec<u8> = Vec::new();
    let mut y: usize = 0;
    let mut base: usize = 0;
    assert(out@ =~= packed_rows(plane@, w, 0, st));
    while y < h
        invariant
            row == row_len(w),
            row <= st,
            h == height,
            h > 0,
            st == stride,
            n == plane@.len(),
            (h - 1) * st + row <= plane@.len(),
            y <= h,
            y < h ==> base == y * st,
            out@ == packed_rows(plane@, w, y as nat, st),
        decreases h - y,
    {
        assert(y * st <= (h - 1) * st) by (nonlinear_arith)
            requires y < h;
        let mut x: usize = 0;
        while x < row
            invariant
                row == row_len(w),
                row <= st,
                h == height,
                y < h,
                (h - 1) * st + row <= plane@.len(),
                y * st <= (h - 1) * st,
                base == y * st,
                n == plane@.len(),
                base + row <= plane@.len(),
                x <= row,
                out@ == packed_rows(plane@, w, y as nat, st) + plane@.subrange(
                    base as int,
                    base + x,
                ),
            decreases row - x,
        {
            out.push(plane[base + x]);
            x = x + 1;
            assert(plane@.subrange(base as int, base + x) =~= plane@.subrange(
                base as int,
                base + x - 1,
            ).push(plane@[base + x - 1]));
        }
        proof {
            lemma_packed_rows_extend(plane@, w, y as nat, st);
        }
        assert((y + 1) * st == y * st + st) by (nonlinear_arith);
        if y + 1 < h {
            assert((y + 1) * st <= (h - 1) * st) by (nonlinear_arith)
                requires y + 1 < h;
            base = base + stride;
        }
        y = y + 1;
    }
    Some(out)
}

/// `pts * num / den`, rounded down: a timestamp rescaled by the rational
/// time base `num / den`.
pub open spec fn rescaled(pts: u64, num: u64, den: u64) -> int {
    (pts * num) as int / (den as int)
}

/// Rescales a timestamp by the rational time base `num / den`. `None` when
/// `den` is zero or the result does not fit in 64 bits.
pub fn rescale_timestamp(pts: u64, num: u64, den: u64) -> (r: Option<u64>)
    ensures
        r is Some <==> den != 0 && rescaled(pts, num, den) <= u64::MAX,
        r matches Some(v) ==> v == rescaled(pts, num, den),
{
    if den == 0 {
        return None;
    }
    assert((pts as int) * (num as int) <= u64::MAX as int * u64::MAX as int) by (nonlinear_arith);
    let p: u128 = pts as u128 * num as u128;
    let q: u128 = p / den as u128;
    if q > u64::MAX as u128 {
        None
    } else {
        Some(q as u64)
    }
}

impl VideoInfo {
    /// Builds a frame from a strided RGBA plane, stripping row padding.
    /// `None` exactly when `pack_rows` refuses the plane.
    pub fn from_plane(plane: &[u8], width: u32, height: u32, stride: usize, pts: u64) -> (r:
        Option<VideoInfo>)
        ensures
            r is Some <==> plane_fits(plane@.len(), width as nat, height as nat, stride as nat),
            r matches Some(f) ==> {
                &&& f.width == width
                &&& f.height == height
                &&& f.pts == pts
                &&& f.data@ == packed_rows(plane@, width as nat, height as nat, stride as nat)
            },
    {
        match pack_rows(plane, width, height, stride) {
            Some(data) => Some(VideoInfo { height, width, data, pts }),
            None => None,
        }
    }
}

} // verus!
