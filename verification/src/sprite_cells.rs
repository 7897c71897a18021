//! Which cells of a sprite sheet hold a frame.
//!
//! A sprite sheet is a regular grid of equal cells: each row is an animation
//! state and each column a step in time. A row need not be full; trailing or
//! interior empty cells are detected here, once, so an animation plays only
//! the frames worth drawing. A cell counts as non-empty if any of its pixels
//! has a non-zero alpha.

use vstd::prelude::*;

verus! {

/// The decoded pixels of an encoded image, as `(width, height, RGBA bytes)`
/// row by row, or `None` when the bytes are not an image the decoder reads.
pub uninterp spec fn decoded_rgba(bytes: Seq<u8>) -> Option<(u32, u32, Seq<u8>)>;

/// Decodes an encoded image (PNG here) into 8-bit RGBA pixels.
///
/// Trusted wrapper around `image::load_from_memory` followed by
/// `DynamicImage::to_rgba8`, `ImageBuffer::dimensions` and
/// `ImageBuffer::into_raw`, the decoder's error turned into its message.
/// Claimed: the result is a function of the bytes
/// alone (named [`decoded_rgba`]), and the pixel buffer holds at least four
/// bytes for each of the `width × height` pixels, pixel `(x, y)` starting at
/// byte `4 * (y * width + x)` (the layout `ImageBuffer` documents). What the
/// decoder accepts, what pixels it produces and the error text are not stated.
#[verifier::external_body]
fn decode_rgba(bytes: &[u8]) -> (r: Result<(u32, u32, Vec<u8>), String>)
    ensures
        match r {
            Ok((w, h, px)) => decoded_rgba(bytes@) == Some((w, h, px@)) && px@.len() >= 4 * w * h,
            Err(_) => decoded_rgba(bytes@) is None,
        },
{
    match image::load_from_memory(bytes) {
        Ok(img) => {
            let rgba = img.to_rgba8();
            let (w, h) = rgba.dimensions();
            Ok((w, h, rgba.into_raw()))
        },
        Err(e) => Err(e.to_string()),
    }
}

/// The alpha byte of pixel `(x, y)` in an RGBA buffer `width` pixels wide.
pub open spec fn alpha_at(px: Seq<u8>, width: int, x: int, y: int) -> u8 {
    px[(y * width + x) * 4 + 3]
}

/// Some pixel of the `fw × fh` cell with top-left `(x0, y0)` is not fully
/// transparent.
pub open spec fn cell_has_pixels(px: Seq<u8>, width: int, x0: int, y0: int, fw: int, fh: int) -> bool {
    exists|x: int, y: int|
        x0 <= x < x0 + fw && y0 <= y < y0 + fh && #[trigger] alpha_at(px, width, x, y) != 0
}

/// The non-empty columns of cell row `row`, left to right, among the first
/// `cols` columns.
pub open spec fn row_frames(px: Seq<u8>, width: int, fw: int, fh: int, row: int, cols: nat) -> Seq<u32> {
    Seq::new(cols, |c: int| c as u32).filter(
        |c: u32| cell_has_pixels(px, width, c * fw, row * fh, fw, fh),
    )
}

/// The non-empty columns of every cell row of a `width × height` image cut
/// into `fw × fh` cells (partial cells at the right and bottom are ignored).
pub open spec fn grid_frames(px: Seq<u8>, width: int, height: int, fw: int, fh: int) -> Seq<Seq<u32>> {
    Seq::new(
        (height / fh) as nat,
        |r: int| row_frames(px, width, fw, fh, r, (width / fw) as nat),
    )
}

proof fn lemma_index_in_buffer(w: int, h: int, x: int, y: int)
    requires
        0 <= x < w,
        0 <= y < h,
    ensures
        (y * w + x) * 4 + 3 < 4 * w * h,
        0 <= y * w,
        y * w + x < w * h,
{
    assert(y * w + x < w * h && 0 <= y * w) by (nonlinear_arith)
        requires
            0 <= x < w,
            0 <= y < h,
    {
        assert((y + 1) * w <= h * w);
    }
    assert(4 * (w * h) == 4 * w * h) by (nonlinear_arith);
}

fn cell_has_pixels_exec(px: &Vec<u8>, w: u32, h: u32, x0: u32, y0: u32, fw: u32, fh: u32) -> (b: bool)
    requires
        px@.len() >= 4 * w * h,
        x0 + fw <= w,
        y0 + fh <= h,
    ensures
        b == cell_has_pixels(px@, w as int, x0 as int, y0 as int, fw as int, fh as int),
{
    let plen = px.len();
    let mut y: u32 = y0;
    while y < y0 + fh
        invariant
            plen == px@.len(),
            px@.len() >= 4 * w * h,
            x0 + fw <= w,
            y0 + fh <= h,
            y0 <= y <= y0 + fh,
            forall|xx: int, yy: int|
                x0 <= xx < x0 + fw && y0 <= yy < y ==> #[trigger] alpha_at(px@, w as int, xx, yy) == 0,
        decreases y0 + fh - y,
    {
        let mut x: u32 = x0;
        while x < x0 + fw
            invariant
                plen == px@.len(),
                px@.len() >= 4 * w * h,
                x0 + fw <= w,
                y0 + fh <= h,
                y0 <= y < y0 + fh,
                x0 <= x <= x0 + fw,
                forall|xx: int, yy: int|
                    x0 <= xx < x0 + fw && y0 <= yy < y ==> #[trigger] alpha_at(px@, w as int, xx, yy) == 0,
                forall|xx: int| x0 <= xx < x ==> #[trigger] alpha_at(px@, w as int, xx, y as int) == 0,
            decreases x0 + fw - x,
        {
            proof {
                lemma_index_in_buffer(w as int, h as int, x as int, y as int);

            }
            let idx: usize = ((y as usize) * (w as usize) + (x as usize)) * 4 + 3;
            if px[idx] != 0 {
                assert(alpha_at(px@, w as int, x as int, y as int) != 0);
                return true;
            }
            x = x + 1;
        }
        y = y + 1;
    }
    proof {
        if cell_has_pixels(px@, w as int, x0 as int, y0 as int, fw as int, fh as int) {
            let (xx, yy) = choose|xx: int, yy: int|
                x0 <= xx < x0 + fw && y0 <= yy < y0 + fh && #[trigger] alpha_at(px@, w as int, xx, yy) != 0;
            assert(alpha_at(px@, w as int, xx, yy) == 0);
        }
    }
    false
}

/// For each cell row of a `w × h` RGBA image cut into `fw × fh` cells, the
/// columns whose cell holds a visible pixel, left to right.
pub fn scan_cells(px: &Vec<u8>, w: u32, h: u32, fw: u32, fh: u32) -> (rows: Vec<Vec<u32>>)
    requires
        px@.len() >= 4 * w * h,
        fw > 0,
        fh > 0,
    ensures
        rows@.len() == h / fh,
        forall|r: int| 0 <= r < rows@.len() ==> #[trigger] rows@[r]@ == grid_frames(
            px@,
            w as int,
            h as int,
            fw as int,
            fh as int,
        )[r],
{
    let cols = w / fw;
    let nrows = h / fh;
    let mut rows: Vec<Vec<u32>> = Vec::new();
    let mut r: u32 = 0;
    while r < nrows
        invariant
            px@.len() >= 4 * w * h,
            fw > 0,
            fh > 0,
            cols == w / fw,
            nrows == h / fh,
            0 <= r <= nrows,
            rows@.len() == r,
            forall|k: int| 0 <= k < r ==> #[trigger] rows@[k]@ == grid_frames(
                px@,
                w as int,
                h as int,
                fw as int,
                fh as int,
            )[k],
        decreases nrows - r,
    {
        let ghost pred = |c: u32| cell_has_pixels(px@, w as int, c * fw, r * fh, fw as int, fh as int);
        let mut frames: Vec<u32> = Vec::new();
        let mut c: u32 = 0;
        while c < cols
            invariant
                px@.len() >= 4 * w * h,
                fw > 0,
                fh > 0,
                cols == w / fw,
                nrows == h / fh,
                r < nrows,
                0 <= c <= cols,
                pred == (|c: u32| cell_has_pixels(px@, w as int, c * fw, r * fh, fw as int, fh as int)),
                frames@ == Seq::new(c as nat, |i: int| i as u32).filter(pred),
            decreases cols - c,
        {
            proof {
                assert(c * fw + fw <= w) by (nonlinear_arith)
                    requires
                        c < cols,
                        cols == w / fw,
                        fw > 0,
                ;
                assert(r * fh + fh <= h) by (nonlinear_arith)
                    requires
                        r < nrows,
                        nrows == h / fh,
                        fh > 0,
                ;
                let s1 = Seq::new((c + 1) as nat, |i: int| i as u32);
                assert(s1.drop_last() =~= Seq::new(c as nat, |i: int| i as u32));
                assert(s1.last() == c);
                reveal_with_fuel(Seq::<_>::filter, 1);
            }
            let has = cell_has_pixels_exec(px, w, h, c * fw, r * fh, fw, fh);
            if has {
                frames.push(c);
            }
            c = c + 1;
        }
        proof {
            assert(frames@ == row_frames(px@, w as int, fw as int, fh as int, r as int, cols as nat));
        }
        rows.push(frames);
        r = r + 1;
    }
    rows
}

/// Decodes the sprite sheet `bytes` and returns, per cell row, the columns
/// whose `frame_w × frame_h` cell holds a visible pixel. Bytes that do not
/// decode yield no rows, so animations simply draw nothing.
pub fn scan_non_empty_cells(bytes: &[u8], frame_w: u32, frame_h: u32) -> (rows: Vec<Vec<u32>>)
    requires
        frame_w > 0,
        frame_h > 0,
    ensures
        match decoded_rgba(bytes@) {
            Some((w, h, px)) => rows@.len() == h / frame_h && forall|r: int|
                0 <= r < rows@.len() ==> #[trigger] rows@[r]@ == grid_frames(
                    px,
                    w as int,
                    h as int,
                    frame_w as int,
                    frame_h as int,
                )[r],
            None => rows@.len() == 0,
        },
{
    match decode_rgba(bytes) {
        Ok((w, h, px)) => scan_cells(&px, w, h, frame_w, frame_h),
        Err(_) => Vec::new(),
    }
}

/// The width and height of an encoded image, or `None` when the bytes do
/// not decode.
pub open spec fn decoded_size(bytes: Seq<u8>) -> Option<(u32, u32)> {
    match decoded_rgba(bytes) {
        Some((w, h, px)) => Some((w, h)),
        None => None,
    }
}

/// Decodes a sprite sheet far enough to learn its size; the decoder's
/// message when the bytes do not decode.
pub fn sheet_size(bytes: &[u8]) -> (r: Result<(u32, u32), String>)
    ensures
        match r {
            Ok(d) => decoded_size(bytes@) == Some(d),
            Err(_) => decoded_size(bytes@) is None,
        },
{
    match decode_rgba(bytes) {
        Ok((w, h, px)) => Ok((w, h)),
        Err(e) => Err(e),
    }
}

/// The PNG encoding of a `width × height` image given as RGBA bytes row by
/// row, or `None` when the encoder refuses it.
pub uninterp spec fn encoded_png(width: u32, height: u32, rgba: Seq<u8>) -> Option<Seq<u8>>;

/// Encodes RGBA pixels as a PNG file image.
///
/// Trusted wrapper around `PngEncoder::new` over a byte vector and
/// `ImageEncoder::write_image` with `ExtendedColorType::Rgba8` (the default
/// compression and filter that saving a `.png` file uses). Claimed: the
/// result is a function of the size and pixels alone (named
/// [`encoded_png`]); the buffer must hold exactly four bytes per pixel, the
/// length `write_image` asserts. What the PNG bytes are is not stated.
#[verifier::external_body]
fn encode_png(width: u32, height: u32, rgba: &[u8]) -> (r: Option<Vec<u8>>)
    requires
        rgba@.len() == 4 * width * height,
    ensures
        match r {
            Some(b) => encoded_png(width, height, rgba@) == Some(b@),
            None => encoded_png(width, height, rgba@) is None,
        },
{
    let mut out: Vec<u8> = Vec::new();
    let encoder = image::codecs::png::PngEncoder::new(&mut out);
    match image::ImageEncoder::write_image(encoder, rgba, width, height, image::ExtendedColorType::Rgba8) {
        Ok(()) => Some(out),
        Err(_) => None,
    }
}

/// Rows `0..rows` of the `w`-pixel-wide region at `(x, y)` of an RGBA buffer
/// `width` pixels wide, concatenated top to bottom.
pub open spec fn crop_rows(px: Seq<u8>, width: int, x: int, y: int, w: int, rows: nat) -> Seq<u8>
    decreases rows,
{
    if rows == 0 {
        Seq::empty()
    } else {
        let r = rows - 1;
        crop_rows(px, width, x, y, w, (rows - 1) as nat) + px.subrange(
            ((y + r) * width + x) * 4,
            ((y + r) * width + x + w) * 4,
        )
    }
}

/// The PNG of the `w × h` region at `(x, y)` of the encoded sheet `bytes`:
/// `None` when the sheet does not decode, the region does not fit in it, or
/// the encoder refuses the result.
pub open spec fn cropped_png(bytes: Seq<u8>, x: u32, y: u32, w: u32, h: u32) -> Option<Seq<u8>> {
    match decoded_rgba(bytes) {
        Some((sw, sh, px)) => if x + w <= sw && y + h <= sh {
            encoded_png(w, h, crop_rows(px, sw as int, x as int, y as int, w as int, h as nat))
        } else {
            None
        },
        None => None,
    }
}

proof fn lemma_row_fits(sw: int, sh: int, x: int, yr: int, w: int)
    requires
        0 <= x,
        0 <= w,
        x + w <= sw,
        0 <= yr < sh,
    ensures
        0 <= (yr * sw + x) * 4,
        (yr * sw + x + w) * 4 <= 4 * sw * sh,
{
    assert(0 <= yr * sw) by (nonlinear_arith)
        requires
            0 <= yr,
            0 <= sw,
    ;
    assert(yr * sw + sw <= sh * sw) by (nonlinear_arith)
        requires
            yr + 1 <= sh,
            0 <= sw,
    ;
    assert(4 * (sh * sw) == 4 * sw * sh) by (nonlinear_arith);
}

fn crop_rgba(px: &Vec<u8>, sw: u32, sh: u32, x: u32, y: u32, w: u32, h: u32) -> (out: Vec<u8>)
    requires
        px@.len() >= 4 * sw * sh,
        x + w <= sw,
        y + h <= sh,
    ensures
        out@ == crop_rows(px@, sw as int, x as int, y as int, w as int, h as nat),
        out@.len() == 4 * w * h,
{
    let mut out: Vec<u8> = Vec::new();
    let plen = px.len();
    let mut r: u32 = 0;
    while r < h
        invariant
            plen == px@.len(),
            px@.len() >= 4 * sw * sh,
            x + w <= sw,
            y + h <= sh,
            r <= h,
            out@ == crop_rows(px@, sw as int, x as int, y as int, w as int, r as nat),
            out@.len() == 4 * w * r,
        decreases h - r,
    {
        proof {
            lemma_row_fits(sw as int, sh as int, x as int, (y + r) as int, w as int);
        }
        let yr: usize = (y + r) as usize;
        assert(yr * sw <= yr * sw + x + w);
        assert((yr * sw + x + w) * 4 <= plen);
        let start: usize = (yr * (sw as usize) + x as usize) * 4;
        let end: usize = start + (w as usize) * 4;
        assert(end == ((y + r) * sw + x + w) * 4) by (nonlinear_arith)
            requires
                start == ((y + r) * sw + x) * 4,
                end == start + w * 4,
        ;
        let ghost before = out@;
        let mut k: usize = start;
        while k < end
            invariant
                start <= k <= end,
                end <= px@.len(),
                out@ == before + px@.subrange(start as int, k as int),
            decreases end - k,
        {
            out.push(px[k]);
            proof {
                assert(px@.subrange(start as int, k + 1) =~= px@.subrange(start as int, k as int).push(px@[k as int]));
                assert(before + px@.subrange(start as int, k + 1) =~= (before + px@.subrange(start as int, k as int)).push(px@[k as int]));
            }
            k = k + 1;
        }
        proof {
            assert(out@.len() == 4 * w * r + 4 * w);
            assert(4 * w * r + 4 * w == 4 * w * (r + 1)) by (nonlinear_arith);
        }
        r = r + 1;
    }
    out
}

/// The `w × h` region at `(x, y)` of the encoded sheet `sheet`, as a PNG:
/// the sheet is decoded, the region checked to lie inside it, its pixels
/// copied out row by row and encoded. `None` when any of those fails.
pub fn crop_sheet(sheet: &[u8], x: u32, y: u32, w: u32, h: u32) -> (r: Option<Vec<u8>>)
    ensures
        match r {
            Some(b) => cropped_png(sheet@, x, y, w, h) == Some(b@),
            None => cropped_png(sheet@, x, y, w, h) is None,
        },
{
    match decode_rgba(sheet) {
        Ok((sw, sh, px)) => {
            if x as u64 + w as u64 > sw as u64 || y as u64 + h as u64 > sh as u64 {
                return None;
            }
            let out = crop_rgba(&px, sw, sh, x, y, w, h);
            encode_png(w, h, out.as_slice())
        },
        Err(_) => None,
    }
}

/// The non-empty frame columns of each state row of a sprite sheet.
#[derive(Clone, Debug)]
pub struct FrameGrid {
    pub rows: Vec<Vec<u32>>,
}

impl FrameGrid {
    /// The non-empty frame columns of `row`; empty if the row is blank or out
    /// of range.
    pub fn frames_in_row(&self, row: u32) -> (f: &[u32])
        ensures
            f@ == if (row as int) < self.rows@.len() {
                self.rows@[row as int]@
            } else {
                Seq::<u32>::empty()
            },
    {
        if (row as usize) < self.rows.len() {
            self.rows[row as usize].as_slice()
        } else {
            let e: &[u32] = &[];
            assert(e@ =~= Seq::<u32>::empty());
            e
        }
    }

    /// Number of non-empty frames in `row`.
    pub fn frame_count(&self, row: u32) -> (n: usize)
        ensures
            n == if (row as int) < self.rows@.len() { self.rows@[row as int]@.len() } else { 0 },
    {
        self.frames_in_row(row).len()
    }
}

} // verus!
