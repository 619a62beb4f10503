//! The mascot of the start-up screen: RGBA rasters, the generated mascot, cropping,
//! resampling to the screen's height, and the half-block cells that draw two pixel
//! rows in one row of text.
use vstd::prelude::*;
use crate::bootstrap::BootstrapWordmark;
use crate::raster::{
    crop, duplicate, pixel_at, pixel_of, resampled, resize_rgba, Raster,
    ResampleFilter,
};
use vstd::arithmetic::div_mod::{
    lemma_fundamental_div_mod_converse_div, lemma_fundamental_div_mod_converse_mod,
};

verus! {

/// A terminal colour of the mascot art.
#[derive(Debug, Clone, Copy, PartialEq, Eq, Structural)]
pub enum ArtColor {
    /// The terminal's default colour.
    Reset,
    Rgb(u8, u8, u8),
}

/// One cell of the mascot art: a character and its two colours.
#[derive(Debug, Clone, Copy, PartialEq, Eq, Structural)]
pub struct BrandArtCell {
    pub symbol: char,
    pub fg: ArtColor,
    pub bg: ArtColor,
}

/// The mascot art of a frame, row by row.
#[derive(Debug, Clone)]
pub struct BootstrapMascotRaster {
    pub rows: Vec<Vec<BrandArtCell>>,
}

/// A whole frame of the start-up screen.
#[derive(Debug, Clone)]
pub struct BootstrapFrame {
    pub wordmark: BootstrapWordmark,
    pub mascot: BootstrapMascotRaster,
    pub phase_badge: String,
}

/// The cell that draws pixel `top` over pixel `bottom`: a pixel counts when its alpha
/// exceeds 24; the upper half block takes the top colour (and the bottom one as
/// background), the lower half block the bottom colour, and a blank cell stands for
/// two clear pixels.
pub open spec fn cell_for(top: Seq<u8>, bottom: Seq<u8>) -> BrandArtCell {
    let top_visible = top[3] > 24;
    let bottom_visible = bottom[3] > 24;
    if !top_visible && !bottom_visible {
        BrandArtCell { symbol: ' ', fg: ArtColor::Reset, bg: ArtColor::Reset }
    } else if top_visible && !bottom_visible {
        BrandArtCell { symbol: '▀', fg: ArtColor::Rgb(top[0], top[1], top[2]), bg: ArtColor::Reset }
    } else if !top_visible && bottom_visible {
        BrandArtCell {
            symbol: '▄',
            fg: ArtColor::Rgb(bottom[0], bottom[1], bottom[2]),
            bg: ArtColor::Reset,
        }
    } else {
        BrandArtCell {
            symbol: '▀',
            fg: ArtColor::Rgb(top[0], top[1], top[2]),
            bg: ArtColor::Rgb(bottom[0], bottom[1], bottom[2]),
        }
    }
}

/// The cell that draws `top` over `bottom`.
pub fn pixel_pair_to_cell(top: [u8; 4], bottom: [u8; 4]) -> (r: BrandArtCell)
    ensures
        r == cell_for(top@, bottom@),
{
    let top_visible = top[3] > 24;
    let bottom_visible = bottom[3] > 24;
    if !top_visible && !bottom_visible {
        BrandArtCell { symbol: ' ', fg: ArtColor::Reset, bg: ArtColor::Reset }
    } else if top_visible && !bottom_visible {
        BrandArtCell { symbol: '▀', fg: ArtColor::Rgb(top[0], top[1], top[2]), bg: ArtColor::Reset }
    } else if !top_visible && bottom_visible {
        BrandArtCell {
            symbol: '▄',
            fg: ArtColor::Rgb(bottom[0], bottom[1], bottom[2]),
            bg: ArtColor::Reset,
        }
    } else {
        BrandArtCell {
            symbol: '▀',
            fg: ArtColor::Rgb(top[0], top[1], top[2]),
            bg: ArtColor::Rgb(bottom[0], bottom[1], bottom[2]),
        }
    }
}

/// The rows of cells of a list of rows.
pub open spec fn cell_rows_view(rows: Seq<Vec<BrandArtCell>>) -> Seq<Seq<BrandArtCell>> {
    rows.map_values(|r: Vec<BrandArtCell>| r@)
}

/// A clear pixel.
pub open spec fn clear_pixel() -> Seq<u8> {
    seq![0u8, 0u8, 0u8, 0u8]
}

/// The cell of column `x` in cell row `k` of a `width` by `height` image with pixel
/// data `data`: pixel rows `2k` and `2k + 1`, the lower one clear past the bottom edge.
pub open spec fn cell_at(width: int, height: int, data: Seq<u8>, x: int, k: int) -> BrandArtCell {
    cell_for(
        pixel_of(width, data, x, 2 * k),
        if 2 * k + 1 < height {
            pixel_of(width, data, x, 2 * k + 1)
        } else {
            clear_pixel()
        },
    )
}

/// The cells that draw a `width` by `height` image with pixel data `data`: one row of
/// cells for every two rows of pixels.
pub open spec fn cells_of_pixels(width: int, height: int, data: Seq<u8>) -> Seq<Seq<BrandArtCell>> {
    Seq::new(
        ((height + 1) / 2) as nat,
        |k: int| Seq::new(width as nat, |x: int| cell_at(width, height, data, x, k)),
    )
}

/// The cells that draw `img`.
pub open spec fn cells_of(img: Raster) -> Seq<Seq<BrandArtCell>> {
    cells_of_pixels(img.width as int, img.height as int, img.data@)
}

/// The cells that draw `image`.
pub fn rgba_to_cells(image: &Raster) -> (r: Vec<Vec<BrandArtCell>>)
    requires
        image.wf(),
    ensures
        cell_rows_view(r@) == cells_of(*image),
{
    let mut rows: Vec<Vec<BrandArtCell>> = Vec::new();
    let mut k: u32 = 0;
    while (k as u64) * 2 < image.height as u64
        invariant
            image.wf(),
            2 * k <= image.height + 1,
            cell_rows_view(rows@) == cells_of(*image).take(k as int),
        decreases image.height + 1 - 2 * k,
    {
        let y = k * 2;
        let mut row: Vec<BrandArtCell> = Vec::new();
        let mut x: u32 = 0;
        while x < image.width
            invariant
                image.wf(),
                y == 2 * k,
                y < image.height,
                x <= image.width,
                row@ == Seq::new(x as nat, |c: int| cell_at(image.width as int, image.height as int, image.data@, c, k as int)),
            decreases image.width - x,
        {
            let top = pixel_at(image, x, y);
            let bottom: [u8; 4] = if y + 1 < image.height {
                pixel_at(image, x, y + 1)
            } else {
                [0, 0, 0, 0]
            };
            assert(bottom@ =~= (if 2 * k + 1 < image.height {
                image.px(x as int, 2 * k + 1)
            } else {
                clear_pixel()
            }));
            row.push(pixel_pair_to_cell(top, bottom));
            x += 1;
            assert(row@ =~= Seq::new(x as nat, |c: int| cell_at(image.width as int, image.height as int, image.data@, c, k as int)));
        }
        let ghost before = rows@;
        rows.push(row);
        k += 1;
        assert(cell_rows_view(rows@) =~= cells_of(*image).take(k as int)) by {
            assert(cell_rows_view(rows@) =~= cell_rows_view(before).push(row@));
        }
    }
    assert(cells_of(*image).take(k as int) =~= cells_of(*image));
    rows
}

/// The width of the generated mascot.
pub const FALLBACK_WIDTH: u32 = 96;

/// The height of the generated mascot.
pub const FALLBACK_HEIGHT: u32 = 128;

/// `num / den` rounded to the nearest integer, halves away from zero, for
/// nonnegative `num` and positive `den`.
pub open spec fn round_div(num: int, den: int) -> int {
    (2 * num + den) / (2 * den)
}

/// Pixel (`x`, `y`) of the generated mascot: a dark border four pixels wide, two blue
/// eyes, an amber mouth with a gap, and a vertical gradient elsewhere whose channels
/// run from (44, 52, 70) at the top to (62, 84, 124) at the bottom, each rounded to the
/// nearest integer. (The eye highlights lie inside the eyes, which are drawn first, so
/// they never show.)
pub open spec fn fallback_pixel(x: int, y: int) -> Seq<u8> {
    let is_border = x < 4 || y < 4 || x >= 92 || y >= 124;
    let is_eye_band = 34 <= y <= 50 && ((22 <= x <= 34) || (61 <= x <= 73));
    let is_eye_highlight = 38 <= y <= 44 && ((26 <= x <= 30) || (65 <= x <= 69));
    let is_mouth = 84 <= y <= 90 && 24 <= x <= 71;
    let is_mouth_gap = 86 <= y <= 88 && 30 <= x <= 65;
    if is_border {
        seq![32u8, 38u8, 50u8, 255u8]
    } else if is_eye_band {
        seq![91u8, 155u8, 255u8, 255u8]
    } else if is_eye_highlight {
        seq![223u8, 239u8, 255u8, 255u8]
    } else if is_mouth && !is_mouth_gap {
        seq![244u8, 177u8, 62u8, 255u8]
    } else {
        seq![
            round_div(44 * 127 + 18 * y, 127) as u8,
            round_div(52 * 127 + 32 * y, 127) as u8,
            round_div(70 * 127 + 54 * y, 127) as u8,
            255u8,
        ]
    }
}

/// Pixel (`x`, `y`) of the generated mascot.
fn fallback_pixel_exec(x: u32, y: u32) -> (r: [u8; 4])
    requires
        x < FALLBACK_WIDTH,
        y < FALLBACK_HEIGHT,
    ensures
        r@ == fallback_pixel(x as int, y as int),
{
    let is_border = x < 4 || y < 4 || x >= 92 || y >= 124;
    let is_eye_band = 34 <= y && y <= 50 && ((22 <= x && x <= 34) || (61 <= x && x <= 73));
    let is_eye_highlight = 38 <= y && y <= 44 && ((26 <= x && x <= 30) || (65 <= x && x <= 69));
    let is_mouth = 84 <= y && y <= 90 && 24 <= x && x <= 71;
    let is_mouth_gap = 86 <= y && y <= 88 && 30 <= x && x <= 65;
    let r: [u8; 4] = if is_border {
        [32, 38, 50, 255]
    } else if is_eye_band {
        [91, 155, 255, 255]
    } else if is_eye_highlight {
        [223, 239, 255, 255]
    } else if is_mouth && !is_mouth_gap {
        [244, 177, 62, 255]
    } else {
        let red = (2 * (44 * 127 + 18 * y) + 127) / 254;
        let green = (2 * (52 * 127 + 32 * y) + 127) / 254;
        let blue = (2 * (70 * 127 + 54 * y) + 127) / 254;
        [red as u8, green as u8, blue as u8, 255]
    };
    assert(r@ =~= fallback_pixel(x as int, y as int));
    r
}

/// The pixel data of the generated mascot.
pub open spec fn fallback_data() -> Seq<u8> {
    Seq::new(
        4 * 96 * 128,
        |i: int| fallback_pixel((i / 4) % 96, (i / 4) / 96)[i % 4],
    )
}

proof fn lemma_fallback_index(x: int, y: int, k: int)
    requires
        0 <= x < 96,
        0 <= y < 128,
        0 <= k < 4,
    ensures
        (4 * (96 * y + x) + k) / 4 == 96 * y + x,
        (4 * (96 * y + x) + k) % 4 == k,
        (96 * y + x) % 96 == x,
        (96 * y + x) / 96 == y,
        4 * (96 * y + x) + k < 4 * 96 * 128,
{
    lemma_fundamental_div_mod_converse_div(4 * (96 * y + x) + k, 4, 96 * y + x, k);
    lemma_fundamental_div_mod_converse_mod(4 * (96 * y + x) + k, 4, 96 * y + x, k);
    lemma_fundamental_div_mod_converse_div(96 * y + x, 96, y, x);
    lemma_fundamental_div_mod_converse_mod(96 * y + x, 96, y, x);
}

/// The mascot drawn when no image asset is at hand.
pub fn generated_fallback_mascot() -> (r: Raster)
    ensures
        r.wf(),
        r.width == FALLBACK_WIDTH,
        r.height == FALLBACK_HEIGHT,
        r.data@ == fallback_data(),
        forall|x: int, y: int|
            0 <= x < FALLBACK_WIDTH && 0 <= y < FALLBACK_HEIGHT ==> #[trigger] r.px(x, y)
                == fallback_pixel(x, y),
{
    let mut data: Vec<u8> = Vec::new();
    let mut y: u32 = 0;
    while y < FALLBACK_HEIGHT
        invariant
            y <= FALLBACK_HEIGHT,
            data@.len() == 4 * (96 * y),
            data@ == fallback_data().take(data@.len() as int),
            forall|xx: int, yy: int|
                0 <= xx < 96 && 0 <= yy < y ==> #[trigger] data@.subrange(
                    4 * (yy * 96 + xx),
                    4 * (yy * 96 + xx) + 4,
                ) == fallback_pixel(xx, yy),
        decreases FALLBACK_HEIGHT - y,
    {
        let mut x: u32 = 0;
        while x < FALLBACK_WIDTH
            invariant
                y < FALLBACK_HEIGHT,
                x <= FALLBACK_WIDTH,
                data@.len() == 4 * (96 * y + x),
                data@ == fallback_data().take(data@.len() as int),
                forall|xx: int, yy: int|
                    0 <= xx < 96 && 0 <= yy && (yy < y || (yy == y && xx < x))
                        ==> #[trigger] data@.subrange(4 * (yy * 96 + xx), 4 * (yy * 96 + xx) + 4)
                        == fallback_pixel(xx, yy),
            decreases FALLBACK_WIDTH - x,
        {
            let p = fallback_pixel_exec(x, y);
            let ghost before = data@;
            data.push(p[0]);
            data.push(p[1]);
            data.push(p[2]);
            data.push(p[3]);
            assert(data@ =~= before + p@);
            proof {
                lemma_fallback_index(x as int, y as int, 0);
                lemma_fallback_index(x as int, y as int, 1);
                lemma_fallback_index(x as int, y as int, 2);
                lemma_fallback_index(x as int, y as int, 3);
                assert(data@ =~= fallback_data().take(data@.len() as int));
            }
            assert forall|xx: int, yy: int|
                0 <= xx < 96 && 0 <= yy && (yy < y || (yy == y && xx < x + 1)) implies #[trigger] data@.subrange(
                4 * (yy * 96 + xx),
                4 * (yy * 96 + xx) + 4,
            ) == fallback_pixel(xx, yy) by {
                if yy == y && xx == x {
                    assert(data@.subrange(4 * (yy * 96 + xx), 4 * (yy * 96 + xx) + 4) =~= p@);
                } else {
                    assert(4 * (yy * 96 + xx) + 4 <= before.len());
                    assert(data@.subrange(4 * (yy * 96 + xx), 4 * (yy * 96 + xx) + 4)
                        =~= before.subrange(4 * (yy * 96 + xx), 4 * (yy * 96 + xx) + 4));
                }
            }
            x += 1;
        }
        y += 1;
    }
    assert(data@ =~= fallback_data());
    let r = Raster { width: FALLBACK_WIDTH, height: FALLBACK_HEIGHT, data };
    assert forall|x: int, y: int|
        0 <= x < FALLBACK_WIDTH && 0 <= y < FALLBACK_HEIGHT implies #[trigger] r.px(x, y)
        == fallback_pixel(x, y) by {
        assert(r.px(x, y) == r.data@.subrange(4 * (y * 96 + x), 4 * (y * 96 + x) + 4));
    }
    r
}

/// How many columns the left-edge trim removes from an image `width` wide: a twelfth,
/// but never the last column.
pub open spec fn left_trim_for(width: int) -> int {
    let w = width / 12;
    let keep = if width >= 1 {
        width - 1
    } else {
        0
    };
    if w < keep {
        w
    } else {
        keep
    }
}

/// `img` without the band at its left edge that the trim removes.
pub fn trim_left_artifact_band(img: &Raster) -> (r: Raster)
    requires
        img.wf(),
    ensures
        r.wf(),
        r.width == img.width - left_trim_for(img.width as int),
        r.height == img.height,
        forall|x: int, y: int|
            0 <= x < r.width && 0 <= y < r.height ==> #[trigger] r.px(x, y) == img.px(
                x + left_trim_for(img.width as int),
                y,
            ),
{
    let twelfth = img.width / 12;
    let keep = img.width.saturating_sub(1);
    let left_trim = if twelfth < keep {
        twelfth
    } else {
        keep
    };
    if left_trim == 0 {
        let r = duplicate(img);
        assert forall|x: int, y: int| 0 <= x < r.width && 0 <= y < r.height implies #[trigger] r.px(
            x,
            y,
        ) == img.px(x + left_trim_for(img.width as int), y) by {}
        return r;
    }
    crop(img, left_trim, 0, img.width - left_trim, img.height)
}

/// The margins the presentable crop removes from an image `w` by `h` (after the left
/// trim): a twenty-fourth on the left, a fourteenth on top and on the right, a tenth at
/// the bottom, always keeping at least one column and one row.
pub open spec fn crop_box(w: int, h: int) -> (int, int, int, int) {
    let sat = |a: int, b: int| if a > b { a - b } else { 0int };
    let min = |a: int, b: int| if a < b { a } else { b };
    let max = |a: int, b: int| if a > b { a } else { b };
    let left = min(w / 24, sat(w, 2));
    let top = min(h / 14, sat(h, 2));
    let right = min(w / 14, sat(w, left + 1));
    let bottom = min(h / 10, sat(h, top + 1));
    (left, top, max(sat(w, left + right), 1), max(sat(h, top + bottom), 1))
}

/// `img` cropped to its presentable part: an image under 64 pixels in either direction
/// is kept whole; a larger one loses its left-edge band and then the margins of
/// [`crop_box`].
pub fn crop_to_presentable_bounds(img: &Raster) -> (r: Raster)
    requires
        img.wf(),
    ensures
        r.wf(),
        img.width < 64 || img.height < 64 ==> r.width == img.width && r.height == img.height
            && r.data@ == img.data@,
        !(img.width < 64 || img.height < 64) ==> {
            let t = left_trim_for(img.width as int);
            let sw = img.width - t;
            let (left, top, w, h) = crop_box(sw, img.height as int);
            &&& r.width == w
            &&& r.height == h
            &&& forall|x: int, y: int|
                0 <= x < w && 0 <= y < h ==> #[trigger] r.px(x, y) == img.px(t + left + x, top + y)
        },
{
    if img.width < 64 || img.height < 64 {
        return duplicate(img);
    }
    let stripless = trim_left_artifact_band(img);
    let sw = stripless.width;
    let sh = stripless.height;
    let l0 = sw / 24;
    let l1 = sw.saturating_sub(2);
    let left = if l0 < l1 {
        l0
    } else {
        l1
    };
    let t0 = sh / 14;
    let t1 = sh.saturating_sub(2);
    let top = if t0 < t1 {
        t0
    } else {
        t1
    };
    let r0 = sw / 14;
    let r1 = sw.saturating_sub(left + 1);
    let right = if r0 < r1 {
        r0
    } else {
        r1
    };
    let b0 = sh / 10;
    let b1 = sh.saturating_sub(top + 1);
    let bottom = if b0 < b1 {
        b0
    } else {
        b1
    };
    let w0 = sw.saturating_sub(left + right);
    let width = if w0 > 1 {
        w0
    } else {
        1
    };
    let h0 = sh.saturating_sub(top + bottom);
    let height = if h0 > 1 {
        h0
    } else {
        1
    };
    let r = crop(&stripless, left, top, width, height);
    assert(crop_box(sw as int, sh as int) == (left as int, top as int, width as int, height as int));
    r
}

/// The image under the name of the start-up screen's mascot, as cropped for display:
/// the generated mascot less its left band of 8 pixels and the margins of [`crop_box`]
/// (3 pixels left, 6 right, 9 at the top and 12 at the bottom), 79 by 107 pixels.
pub fn load_base_mascot() -> (r: Raster)
    ensures
        r.wf(),
        r.width == 79,
        r.height == 107,
        forall|x: int, y: int| 0 <= x < 79 && 0 <= y < 107 ==> #[trigger] r.px(x, y) == fallback_pixel(11 + x, 9 + y),
{
    let generated = generated_fallback_mascot();
    let r = crop_to_presentable_bounds(&generated);
    assert(left_trim_for(96) == 8);
    assert(crop_box(88, 128) == (3int, 9int, 79int, 107int));
    assert forall|x: int, y: int| 0 <= x < 79 && 0 <= y < 107 implies #[trigger] r.px(x, y) == fallback_pixel(11 + x, 9 + y) by {
        assert(r.px(x, y) == generated.px(8 + 3 + x, 9 + y));
        assert(generated.px(11 + x, 9 + y) == fallback_pixel(11 + x, 9 + y));
    }
    r
}

/// The pixel height the mascot is resampled to for `target_rows` rows of cells: two
/// pixels a row, at least sixteen.
pub open spec fn mascot_pixel_height(target_rows: u32) -> u32 {
    if 2 * target_rows > 16 {
        (2 * target_rows) as u32
    } else {
        16
    }
}

/// The width that keeps the proportions of a `width` by `height` image resampled to
/// `pixel_height` rows: the nearest integer, at least eight (and at most `u32::MAX`).
pub open spec fn mascot_pixel_width(width: u32, height: u32, pixel_height: u32) -> u32 {
    let w = round_div(width * pixel_height, height as int);
    if w < 8 {
        8
    } else if w > u32::MAX {
        u32::MAX
    } else {
        w as u32
    }
}

/// `base` drawn in cells for a mascot `target_rows` rows high: nothing for an empty
/// image; else the cells of the image at its drawn size.
pub fn rows_from_base_image(base: &Raster, target_rows: u32) -> (r: Vec<Vec<BrandArtCell>>)
    requires
        base.wf(),
        target_rows <= u32::MAX / 2,
        base.width > 0 && base.height > 0 && base.height != mascot_pixel_height(target_rows)
            ==> 4 * (mascot_pixel_width(base.width, base.height, mascot_pixel_height(target_rows)) as int)
            * (mascot_pixel_height(target_rows) as int) <= usize::MAX,
    ensures
        base.width == 0 || base.height == 0 ==> r@.len() == 0,
        base.width > 0 && base.height > 0 && base.height == mascot_pixel_height(target_rows)
            ==> cell_rows_view(r@) == cells_of(*base),
        base.width > 0 && base.height > 0 && base.height != mascot_pixel_height(target_rows)
            ==> {
            let ph = mascot_pixel_height(target_rows);
            let tw = mascot_pixel_width(base.width, base.height, ph);
            cell_rows_view(r@) == cells_of_pixels(
                tw as int,
                ph as int,
                resampled(base.width, base.height, base.data@, tw, ph, ResampleFilter::CatmullRom),
            )
        },
{
    if base.width == 0 || base.height == 0 {
        return Vec::new();
    }
    let doubled = target_rows * 2;
    let pixel_height: u32 = if doubled > 16 {
        doubled
    } else {
        16
    };
    if base.height == pixel_height {
        return rgba_to_cells(base);
    }
    let bw = base.width as u128;
    let ph = pixel_height as u128;
    assert(bw * ph <= 0xffff_ffffu128 * 0xffff_ffffu128) by (nonlinear_arith)
        requires
            bw <= 0xffff_ffff,
            ph <= 0xffff_ffff,
    ;
    let prod: u128 = bw * ph;
    let num: u128 = 2 * prod + (base.height as u128);
    let den: u128 = 2 * (base.height as u128);
    let rounded = num / den;
    let target_width: u32 = if rounded < 8 {
        8
    } else if rounded > u32::MAX as u128 {
        u32::MAX
    } else {
        rounded as u32
    };
    assert(target_width == mascot_pixel_width(base.width, base.height, pixel_height));
    let scaled = resize_rgba(base, target_width, pixel_height, ResampleFilter::CatmullRom);
    rgba_to_cells(&scaled)
}

/// The mascot drawn in cells for `target_rows` rows: the generated mascot at the
/// drawn size of [`rows_from_base_image`]. It has `max(target_rows, 8)` rows of cells,
/// each as wide as the resampled image.
pub fn mascot_source_rows_for_height(target_rows: u32) -> (r: Vec<Vec<BrandArtCell>>)
    requires
        target_rows <= u32::MAX / 2,
        4 * (mascot_pixel_width(96, 128, mascot_pixel_height(target_rows)) as int) * (
        mascot_pixel_height(target_rows) as int) <= usize::MAX,
    ensures
        mascot_pixel_height(target_rows) == 128 ==> cell_rows_view(r@) == cells_of_pixels(
            96,
            128,
            fallback_data(),
        ),
        mascot_pixel_height(target_rows) != 128 ==> {
            let ph = mascot_pixel_height(target_rows);
            let tw = mascot_pixel_width(96, 128, ph);
            cell_rows_view(r@) == cells_of_pixels(
                tw as int,
                ph as int,
                resampled(96, 128, fallback_data(), tw, ph, ResampleFilter::CatmullRom),
            )
        },
        r@.len() == (if target_rows > 8 {
            target_rows as int
        } else {
            8
        }),
        forall|k: int|
            0 <= k < r@.len() ==> #[trigger] r@[k]@.len() == (if mascot_pixel_height(target_rows)
                == 128 {
                96
            } else {
                mascot_pixel_width(96, 128, mascot_pixel_height(target_rows)) as int
            }),
{
    let base = generated_fallback_mascot();
    let r = rows_from_base_image(&base, target_rows);
    proof {
        assert(cell_rows_view(r@).len() == r@.len());
        assert forall|k: int| 0 <= k < r@.len() implies #[trigger] r@[k]@.len() == (if mascot_pixel_height(
            target_rows,
        ) == 128 {
            96
        } else {
            mascot_pixel_width(96, 128, mascot_pixel_height(target_rows)) as int
        }) by {
            assert(cell_rows_view(r@)[k] == r@[k]@);
        }
    }
    r
}

/// The pseudo-random bits of the reveal noise at column `x`, row `y` of the mascot: a
/// multiply-and-xor hash of the position and a seed, in 64-bit wrapping arithmetic, cut
/// to 32 bits. The noise is these bits over `u32::MAX`.
pub open spec fn noise_bits(x: usize, y: usize, seed: u32) -> u32 {
    let v0 = (x as u64).wrapping_mul(374_761_393) ^ (y as u64).wrapping_mul(668_265_263) ^ (
    seed as u64).wrapping_mul(700_001);
    let v1 = (v0 ^ (v0 >> 13u64)).wrapping_mul(1_274_126_177);
    let v2 = v1 ^ (v1 >> 16u64);
    v2 as u32
}

/// The pseudo-random bits of the reveal noise at a position.
pub fn reveal_noise_bits(x: usize, y: usize, seed: u32) -> (r: u32)
    ensures
        r == noise_bits(x, y, seed),
{
    let v0 = (x as u64).wrapping_mul(374_761_393) ^ (y as u64).wrapping_mul(668_265_263) ^ (
    seed as u64).wrapping_mul(700_001);
    let v1 = (v0 ^ (v0 >> 13u64)).wrapping_mul(1_274_126_177);
    let v2 = v1 ^ (v1 >> 16u64);
    v2 as u32
}

} // verus!
