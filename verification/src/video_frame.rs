//! Locating the mirrored window's content inside a captured RGBA frame.
//!
//! A frame `w` pixels wide stores pixel (row `i`, column `j`) in the four
//! bytes starting at `4 * (i * w + j)`. A pixel is part of the content when
//! one of its red, green or blue bytes is nonzero; fully black pixels are the
//! padding around the window.
use vstd::prelude::*;
use crate::gpu::TextureFormat;

verus! {

/// Byte offset of pixel (row `i`, column `j`) in a frame `w` pixels wide.
pub open spec fn pixel_offset(w: int, i: int, j: int) -> int {
    4 * (i * w + j)
}

/// Pixel (i, j) can be read: it is a column of the frame, its four bytes lie
/// in `data`, and its byte offset fits in an `i32`.
pub open spec fn readable(data: Seq<u8>, w: int, i: int, j: int) -> bool {
    &&& 0 <= i
    &&& 0 <= j < w
    &&& pixel_offset(w, i, j) + 4 <= data.len()
    &&& pixel_offset(w, i, j) <= i32::MAX
}

/// Pixel (i, j) is readable and not black.
pub open spec fn lit(data: Seq<u8>, w: int, i: int, j: int) -> bool {
    let b = pixel_offset(w, i, j);
    &&& readable(data, w, i, j)
    &&& (data[b] != 0 || data[b + 1] != 0 || data[b + 2] != 0)
}

/// A non-black pixel in rows `lo .. hi`.
pub open spec fn lit_between(data: Seq<u8>, w: int, lo: int, hi: int, i: int, j: int) -> bool {
    lo <= i < hi && lit(data, w, i, j)
}

/// Rows `lo .. hi` hold at least one non-black pixel.
pub open spec fn content_in_rows(data: Seq<u8>, w: int, lo: int, hi: int) -> bool {
    exists|i: int, j: int| lit_between(data, w, lo, hi, i, j)
}

/// `c` is the leftmost column holding content in rows `lo .. hi`.
pub open spec fn is_min_col(data: Seq<u8>, w: int, lo: int, hi: int, c: int) -> bool {
    &&& exists|i: int| lit_between(data, w, lo, hi, i, c)
    &&& forall|i: int, j: int| lit_between(data, w, lo, hi, i, j) ==> c <= j
}

/// `c` is the rightmost column holding content in rows `lo .. hi`.
pub open spec fn is_max_col(data: Seq<u8>, w: int, lo: int, hi: int, c: int) -> bool {
    &&& exists|i: int| lit_between(data, w, lo, hi, i, c)
    &&& forall|i: int, j: int| lit_between(data, w, lo, hi, i, j) ==> j <= c
}

/// `r` is the topmost row holding content among rows `lo .. hi`.
pub open spec fn is_min_row(data: Seq<u8>, w: int, lo: int, hi: int, r: int) -> bool {
    &&& exists|j: int| lit_between(data, w, lo, hi, r, j)
    &&& forall|i: int, j: int| lit_between(data, w, lo, hi, i, j) ==> r <= i
}

/// `r` is the bottommost row holding content among rows `lo .. hi`.
pub open spec fn is_max_row(data: Seq<u8>, w: int, lo: int, hi: int, r: int) -> bool {
    &&& exists|j: int| lit_between(data, w, lo, hi, r, j)
    &&& forall|i: int, j: int| lit_between(data, w, lo, hi, i, j) ==> i <= r
}

/// The frame `w` x `h` holds at least one non-black pixel.
pub open spec fn has_content(data: Seq<u8>, w: int, h: int) -> bool {
    content_in_rows(data, w, 0, h)
}

/// Every pixel that a top-down, left-to-right scan reaches can be read.
/// The scan of a row stops at its first non-black pixel, so the bottom row
/// only needs to be readable up to its first non-black pixel.
pub open spec fn scan_fits(data: Seq<u8>, w: int, h: int) -> bool {
    ||| w <= 0
    ||| h <= 0
    ||| readable(data, w, h - 1, w - 1)
    ||| exists|j: int| 0 <= j < w && #[trigger] lit(data, w, h - 1, j)
}

/// Every pixel of the frame `w` x `h` can be read.
pub open spec fn frame_fits(data: Seq<u8>, w: int, h: int) -> bool {
    w <= 0 || h <= 0 || readable(data, w, h - 1, w - 1)
}

proof fn lemma_row_order(w: int, i: int, i2: int, j: int, j2: int)
    requires
        0 <= i < i2,
        0 <= j < w,
        0 <= j2,
    ensures
        i * w + j < i2 * w + j2,
{
    assert((i + 1) * w <= i2 * w) by (nonlinear_arith)
        requires
            0 <= i < i2,
            0 < w,
    ;
    assert((i + 1) * w == i * w + w) by (nonlinear_arith);
}

/// A pixel whose index precedes that of a readable pixel is readable too.
proof fn lemma_readable_before(data: Seq<u8>, w: int, i: int, j: int, i2: int, j2: int)
    requires
        readable(data, w, i2, j2),
        0 <= i <= i2,
        0 <= j < w,
        i < i2 || j <= j2,
    ensures
        readable(data, w, i, j),
{
    if i < i2 {
        lemma_row_order(w, i, i2, j, j2);
    }
}

/// A pixel that the top-down scan reaches is readable.
proof fn lemma_scan_reach(data: Seq<u8>, w: int, h: int, i: int, j: int)
    requires
        scan_fits(data, w, h),
        0 <= i < h,
        0 <= j < w,
        forall|k: int| 0 <= k < j ==> !lit(data, w, i, k),
    ensures
        readable(data, w, i, j),
{
    if readable(data, w, h - 1, w - 1) {
        lemma_readable_before(data, w, i, j, h - 1, w - 1);
    } else {
        let j2 = choose|j2: int| 0 <= j2 < w && #[trigger] lit(data, w, h - 1, j2);
        if i == h - 1 {
            assert(!(j2 < j));
        }
        lemma_readable_before(data, w, i, j, h - 1, j2);
    }
}

proof fn lemma_offset_fits(w: int, i: int, j: int)
    requires
        0 <= i,
        0 <= j < w,
        4 * (i * w + j) <= i32::MAX,
    ensures
        0 <= i * 4 <= i32::MAX,
        0 <= i * 4 * w <= i32::MAX,
        i * 4 * w + j * 4 == 4 * (i * w + j),
{
    assert(0 <= i * 4 <= i * 4 * w) by (nonlinear_arith)
        requires
            0 <= i,
            1 <= w,
    ;
    assert(i * 4 * w == 4 * (i * w)) by (nonlinear_arith);
    assert(0 <= i * w) by (nonlinear_arith)
        requires
            0 <= i,
            1 <= w,
    ;
}

/// Reads the red, green and blue bytes of a readable pixel.
fn pixel_is_lit(data: &[u8], w: i32, i: i32, j: i32) -> (b: bool)
    requires
        readable(data@, w as int, i as int, j as int),
    ensures
        b == lit(data@, w as int, i as int, j as int),
{
    proof {
        lemma_offset_fits(w as int, i as int, j as int);
    }
    let data_idx = ((i * 4 * w) + (j * 4)) as usize;
    data[data_idx] != 0 || data[data_idx + 1] != 0 || data[data_idx + 2] != 0
}

/// Scans row `i` from the left and returns the first non-black column.
fn first_lit_in_row(data: &[u8], w: i32, h: i32, i: i32) -> (r: Option<i32>)
    requires
        scan_fits(data@, w as int, h as int),
        0 <= i < h,
    ensures
        match r {
            Some(c) => {
                &&& 0 <= c < w
                &&& lit(data@, w as int, i as int, c as int)
                &&& forall|k: int| 0 <= k < c ==> !lit(data@, w as int, i as int, k)
            },
            None => forall|k: int| 0 <= k < w ==> !lit(data@, w as int, i as int, k),
        },
{
    let mut j: i32 = 0;
    while j < w
        invariant
            scan_fits(data@, w as int, h as int),
            0 <= i < h,
            0 <= j,
            j <= w || j == 0,
            forall|k: int| 0 <= k < j ==> !lit(data@, w as int, i as int, k),
        decreases w - j,
    {
        proof {
            lemma_scan_reach(data@, w as int, h as int, i as int, j as int);
        }
        if pixel_is_lit(data, w, i, j) {
            return Some(j);
        }
        j += 1;
    }
    None
}

/// Scans row `i` from the right and returns the last non-black column.
fn last_lit_in_row(data: &[u8], w: i32, h: i32, i: i32) -> (r: Option<i32>)
    requires
        frame_fits(data@, w as int, h as int),
        0 <= i < h,
    ensures
        match r {
            Some(c) => {
                &&& 0 <= c < w
                &&& lit(data@, w as int, i as int, c as int)
                &&& forall|k: int| c < k < w ==> !lit(data@, w as int, i as int, k)
            },
            None => forall|k: int| 0 <= k < w ==> !lit(data@, w as int, i as int, k),
        },
{
    if w <= 0 {
        return None;
    }
    let mut j: i32 = w - 1;
    while j >= 0
        invariant
            frame_fits(data@, w as int, h as int),
            0 <= i < h,
            0 < w,
            -1 <= j < w,
            forall|k: int| j < k < w ==> !lit(data@, w as int, i as int, k),
        decreases j + 1,
    {
        proof {
            lemma_readable_before(data@, w as int, i as int, j as int, h - 1, w - 1);
        }
        if pixel_is_lit(data, w, i, j) {
            return Some(j);
        }
        j -= 1;
    }
    None
}

/// Finds the top-left corner of the frame's content: the leftmost column and
/// the topmost row holding a non-black pixel, or `(0, 0)` for a black frame.
pub fn detect_offsets(data: &[u8], rec: &(i32, i32)) -> (r: (u32, u32))
    requires
        scan_fits(data@, rec.0 as int, rec.1 as int),
    ensures
        has_content(data@, rec.0 as int, rec.1 as int) ==> {
            &&& is_min_col(data@, rec.0 as int, 0, rec.1 as int, r.0 as int)
            &&& is_min_row(data@, rec.0 as int, 0, rec.1 as int, r.1 as int)
        },
        !has_content(data@, rec.0 as int, rec.1 as int) ==> r == (0u32, 0u32),
{
    let recording_width = rec.0;
    let recording_height = rec.1;
    let ghost w = recording_width as int;
    let ghost h = recording_height as int;
    let mut skip_rows: i32 = 0;
    let mut skip_cols: i32 = 0;
    let mut found_offsets = false;
    let mut i: i32 = 0;
    while i < recording_height
        invariant
            recording_width == rec.0,
            recording_height == rec.1,
            w == recording_width,
            h == recording_height,
            scan_fits(data@, w, h),
            0 <= i,
            i <= h || i == 0,
            found_offsets == content_in_rows(data@, w, 0, i as int),
            found_offsets ==> {
                &&& 0 <= skip_cols
                &&& 0 <= skip_rows
                &&& is_min_col(data@, w, 0, i as int, skip_cols as int)
                &&& is_min_row(data@, w, 0, i as int, skip_rows as int)
            },
        decreases h - i,
    {
        let ghost prev_found = found_offsets;
        let ghost prev_cols = skip_cols as int;
        let ghost prev_rows = skip_rows as int;
        let ghost next = i + 1;
        match first_lit_in_row(data, recording_width, recording_height, i) {
            Some(j) => {
                if found_offsets {
                    if j < skip_cols {
                        skip_cols = j;
                    }
                } else {
                    skip_cols = j;
                    skip_rows = i;
                }
                found_offsets = true;
                proof {
                    assert(lit_between(data@, w, 0, next, i as int, j as int));
                    assert forall|a: int, b: int| lit_between(data@, w, 0, next, a, b) implies skip_cols
                        <= b && skip_rows <= a by {
                        if a < i {
                            assert(lit_between(data@, w, 0, i as int, a, b));
                        }
                    }
                    if prev_found {
                        let a0 = choose|a0: int| lit_between(data@, w, 0, i as int, a0, prev_cols);
                        assert(lit_between(data@, w, 0, next, a0, prev_cols));
                        let b0 = choose|b0: int| lit_between(data@, w, 0, i as int, prev_rows, b0);
                        assert(lit_between(data@, w, 0, next, prev_rows, b0));
                    }
                }
            },
            None => {
                proof {
                    assert forall|a: int, b: int| lit_between(data@, w, 0, next, a, b) implies lit_between(
                        data@,
                        w,
                        0,
                        i as int,
                        a,
                        b,
                    ) by {
                        if a == i {
                            assert(!lit(data@, w, a, b));
                        }
                    }
                    if prev_found {
                        let a0 = choose|a0: int| lit_between(data@, w, 0, i as int, a0, prev_cols);
                        assert(lit_between(data@, w, 0, next, a0, prev_cols));
                        let b0 = choose|b0: int| lit_between(data@, w, 0, i as int, prev_rows, b0);
                        assert(lit_between(data@, w, 0, next, prev_rows, b0));
                    } else {
                        assert(!content_in_rows(data@, w, 0, next));
                    }
                }
            },
        }
        i += 1;
    }
    proof {
        if h <= 0 {
            assert(!content_in_rows(data@, w, 0, h));
        }
    }
    if found_offsets {
        (skip_cols as u32, skip_rows as u32)
    } else {
        (0, 0)
    }
}

/// Finds the bottom-right corner of the frame's content: the rightmost column
/// and the bottommost row holding a non-black pixel, or the frame's last
/// column and row (`w - 1`, `h - 1`, taken as `u32`) for a black frame.
pub fn detect_offsets_flipped(data: &[u8], rec: &(i32, i32)) -> (r: (u32, u32))
    requires
        frame_fits(data@, rec.0 as int, rec.1 as int),
        rec.0 > i32::MIN,
        rec.1 > i32::MIN,
    ensures
        has_content(data@, rec.0 as int, rec.1 as int) ==> {
            &&& is_max_col(data@, rec.0 as int, 0, rec.1 as int, r.0 as int)
            &&& is_max_row(data@, rec.0 as int, 0, rec.1 as int, r.1 as int)
        },
        !has_content(data@, rec.0 as int, rec.1 as int) ==> r == ((rec.0 - 1) as u32, (rec.1
            - 1) as u32),
{
    let recording_width = rec.0;
    let recording_height = rec.1;
    let ghost w = recording_width as int;
    let ghost h = recording_height as int;
    let mut skip_rows: i32 = 0;
    let mut skip_cols: i32 = recording_width - 1;
    let mut found_offsets = false;
    let mut i: i32 = recording_height - 1;
    while i >= 0
        invariant
            recording_width == rec.0,
            recording_height == rec.1,
            w == recording_width,
            h == recording_height,
            frame_fits(data@, w, h),
            i < h,
            i >= -1 || i == h - 1,
            found_offsets == content_in_rows(data@, w, i + 1, h),
            found_offsets ==> {
                &&& 0 <= skip_cols
                &&& 0 <= skip_rows
                &&& is_max_col(data@, w, i + 1, h, skip_cols as int)
                &&& is_max_row(data@, w, i + 1, h, skip_rows as int)
            },
        decreases i + 1,
    {
        let ghost prev_found = found_offsets;
        let ghost prev_cols = skip_cols as int;
        let ghost prev_rows = skip_rows as int;
        let ghost lo = i as int;
        let ghost plo = i + 1;
        match last_lit_in_row(data, recording_width, recording_height, i) {
            Some(j) => {
                if found_offsets {
                    if j > skip_cols {
                        skip_cols = j;
                    }
                } else {
                    skip_cols = j;
                    skip_rows = i;
                }
                found_offsets = true;
                proof {
                    assert(lit_between(data@, w, lo, h, i as int, j as int));
                    assert forall|a: int, b: int| lit_between(data@, w, lo, h, a, b) implies b
                        <= skip_cols && a <= skip_rows by {
                        if a > i {
                            assert(lit_between(data@, w, plo, h, a, b));
                        }
                    }
                    if prev_found {
                        let a0 = choose|a0: int| lit_between(data@, w, plo, h, a0, prev_cols);
                        assert(lit_between(data@, w, lo, h, a0, prev_cols));
                        let b0 = choose|b0: int| lit_between(data@, w, plo, h, prev_rows, b0);
                        assert(lit_between(data@, w, lo, h, prev_rows, b0));
                    }
                }
            },
            None => {
                proof {
                    assert forall|a: int, b: int| lit_between(data@, w, lo, h, a, b) implies lit_between(
                        data@,
                        w,
                        plo,
                        h,
                        a,
                        b,
                    ) by {
                        if a == i {
                            assert(!lit(data@, w, a, b));
                        }
                    }
                    if prev_found {
                        let a0 = choose|a0: int| lit_between(data@, w, plo, h, a0, prev_cols);
                        assert(lit_between(data@, w, lo, h, a0, prev_cols));
                        let b0 = choose|b0: int| lit_between(data@, w, plo, h, prev_rows, b0);
                        assert(lit_between(data@, w, lo, h, prev_rows, b0));
                    } else {
                        assert(!content_in_rows(data@, w, lo, h));
                    }
                }
            },
        }
        i -= 1;
    }
    proof {
        if h <= 0 {
            assert(!content_in_rows(data@, w, 0, h));
            assert(!content_in_rows(data@, w, i + 1, h));
        }
    }
    if found_offsets {
        (skip_cols as u32, skip_rows as u32)
    } else {
        ((recording_width - 1) as u32, (recording_height - 1) as u32)
    }
}

/// Position and size of a window as reported by the window-calls extension.
#[derive(Debug, Clone, Copy)]
pub struct WindowDimensionsData {
    pub x: i64,
    pub y: i64,
    pub width: i64,
    pub height: i64,
    pub maximized: Option<i32>,
}

/// The box that holds the frame's content: its top-left corner and its size.
#[derive(Debug, Clone, Copy, PartialEq, Eq, Structural)]
pub struct RealDimensions {
    pub off_x: u32,
    pub off_y: u32,
    pub width: u32,
    pub height: u32,
}

/// Finds the smallest box holding every non-black pixel of the frame.
/// A black frame gives the box at `(0, 0)` whose size is that of the frame
/// (`w - 1` and `h - 1` taken as `u32`, plus one).
pub fn find_real_dimensions(data: &[u8], rec: &(i32, i32)) -> (r: RealDimensions)
    requires
        frame_fits(data@, rec.0 as int, rec.1 as int),
        rec.0 > i32::MIN,
        rec.1 > i32::MIN,
        rec.0 != 0,
        rec.1 != 0,
    ensures
        has_content(data@, rec.0 as int, rec.1 as int) ==> {
            &&& is_min_col(data@, rec.0 as int, 0, rec.1 as int, r.off_x as int)
            &&& is_min_row(data@, rec.0 as int, 0, rec.1 as int, r.off_y as int)
            &&& is_max_col(data@, rec.0 as int, 0, rec.1 as int, r.off_x + r.width - 1)
            &&& is_max_row(data@, rec.0 as int, 0, rec.1 as int, r.off_y + r.height - 1)
        },
        !has_content(data@, rec.0 as int, rec.1 as int) ==> {
            &&& r.off_x == 0
            &&& r.off_y == 0
            &&& r.width == ((rec.0 - 1) as u32) + 1
            &&& r.height == ((rec.1 - 1) as u32) + 1
        },
        forall|i: int, j: int|
            lit_between(data@, rec.0 as int, 0, rec.1 as int, i, j) ==> {
                &&& r.off_x <= j < r.off_x + r.width
                &&& r.off_y <= i < r.off_y + r.height
            },
{
    let ghost w = rec.0 as int;
    let ghost h = rec.1 as int;
    let (left_x, north_y) = detect_offsets(data, rec);
    let (right_x, south_y) = detect_offsets_flipped(data, rec);
    proof {
        if has_content(data@, w, h) {
            let a = choose|a: int| lit_between(data@, w, 0, h, a, right_x as int);
            assert(lit_between(data@, w, 0, h, a, right_x as int));
            let b = choose|b: int| lit_between(data@, w, 0, h, south_y as int, b);
            assert(lit_between(data@, w, 0, h, south_y as int, b));
        } else {
            let wm1: i32 = (rec.0 - 1) as i32;
            let hm1: i32 = (rec.1 - 1) as i32;
            assert((wm1 as u32) != 0xffff_ffffu32) by (bit_vector)
                requires
                    wm1 != -1i32,
            ;
            assert((hm1 as u32) != 0xffff_ffffu32) by (bit_vector)
                requires
                    hm1 != -1i32,
            ;
        }
    }
    RealDimensions {
        off_x: left_x,
        off_y: north_y,
        width: (right_x - left_x) + 1,
        height: (south_y - north_y) + 1,
    }
}

/// Raw video formats a PipeWire stream may carry. `Other` holds the raw
/// format number of any format not listed.
#[derive(Debug, Clone, Copy, PartialEq, Eq, Structural)]
pub enum VideoFormat {
    RGB,
    RGBA,
    RGBx,
    BGRx,
    BGRA,
    YUY2,
    I420,
    Other(u32),
}

/// The texture format and size expected for the frames of a stream.
#[derive(Debug, Clone, Copy, PartialEq, Eq, Structural)]
pub struct PredictedWgpuFrameFormat {
    pub format: TextureFormat,
    pub width: u32,
    pub height: u32,
}

/// The texture format used to upload frames of a video format: red-first
/// formats become `Rgba8Unorm`, blue-first ones `Bgra8Unorm`, YUV formats
/// `NV12`, and anything else falls back to `Rgba8Unorm`.
pub open spec fn spec_texture_format_for(v: VideoFormat) -> TextureFormat {
    match v {
        VideoFormat::RGB | VideoFormat::RGBA | VideoFormat::RGBx => TextureFormat::Rgba8Unorm,
        VideoFormat::BGRx | VideoFormat::BGRA => TextureFormat::Bgra8Unorm,
        VideoFormat::YUY2 | VideoFormat::I420 => TextureFormat::NV12,
        VideoFormat::Other(_) => TextureFormat::Rgba8Unorm,
    }
}

/// Predicts the texture format for frames of the given video format.
pub fn guess_best_texture_format(v: VideoFormat) -> (r: TextureFormat)
    ensures
        r == spec_texture_format_for(v),
{
    match v {
        VideoFormat::RGB => TextureFormat::Rgba8Unorm,
        VideoFormat::RGBA => TextureFormat::Rgba8Unorm,
        VideoFormat::RGBx => TextureFormat::Rgba8Unorm,
        VideoFormat::BGRx => TextureFormat::Bgra8Unorm,
        VideoFormat::BGRA => TextureFormat::Bgra8Unorm,
        VideoFormat::YUY2 => TextureFormat::NV12,
        VideoFormat::I420 => TextureFormat::NV12,
        _ => TextureFormat::Rgba8Unorm,
    }
}

/// The content's edges are ordered: its leftmost column is not right of its
/// rightmost one, and its top row is not below its bottom row.
pub proof fn lemma_content_edges_ordered(
    data: Seq<u8>,
    w: int,
    h: int,
    left: int,
    right: int,
    top: int,
    bottom: int,
)
    requires
        is_min_col(data, w, 0, h, left),
        is_max_col(data, w, 0, h, right),
        is_min_row(data, w, 0, h, top),
        is_max_row(data, w, 0, h, bottom),
    ensures
        left <= right,
        top <= bottom,
{
    let i = choose|i: int| lit_between(data, w, 0, h, i, right);
    assert(lit_between(data, w, 0, h, i, right));
    let j = choose|j: int| lit_between(data, w, 0, h, bottom, j);
    assert(lit_between(data, w, 0, h, bottom, j));
}

/// Every texture format predicted for a stream is one of the preferred
/// texture formats.
pub proof fn lemma_predicted_format_is_preferred(v: VideoFormat)
    ensures
        crate::gpu::TEXTURE_PREFERENCES@.contains(spec_texture_format_for(v)),
{
    let prefs = crate::gpu::TEXTURE_PREFERENCES@;
    assert(prefs[0] == TextureFormat::Rgba8Unorm);
    assert(prefs[1] == TextureFormat::Bgra8Unorm);
    assert(prefs[2] == TextureFormat::NV12);
}

} // verus!
