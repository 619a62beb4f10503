//! RGBA images as rows of four-byte pixels, and the pixel operations the start-up
//! screen and the screenshot tools perform on them.
use vstd::prelude::*;
use crate::text::{chars_of, decimal, decimal_exec, push_chars, push_str, string_of};

verus! {

/// An RGBA image: `width * height` pixels of four bytes, row by row.
#[derive(Debug)]
pub struct Raster {
    pub width: u32,
    pub height: u32,
    pub data: Vec<u8>,
}

impl Raster {
    /// The data holds exactly the image's pixels.
    pub open spec fn wf(&self) -> bool {
        self.data@.len() == 4 * (self.width as int) * (self.height as int)
    }

    /// The four bytes of pixel (`x`, `y`).
    pub open spec fn px(&self, x: int, y: int) -> Seq<u8> {
        pixel_of(self.width as int, self.data@, x, y)
    }
}

/// The four bytes of pixel (`x`, `y`) of a `width`-wide image with pixel data `data`.
pub open spec fn pixel_of(width: int, data: Seq<u8>, x: int, y: int) -> Seq<u8> {
    let i = 4 * (y * width + x);
    data.subrange(i, i + 4)
}

/// Pixel (`x`, `y`) of a `width`-wide image lies within its data.
pub proof fn lemma_pixel_in_bounds(x: int, y: int, width: int, height: int)
    requires
        0 <= x < width,
        0 <= y < height,
    ensures
        0 <= 4 * (y * width + x),
        4 * (y * width + x) + 4 <= 4 * width * height,
{
    assert(y * width + x + 1 <= width * height) by (nonlinear_arith)
        requires
            0 <= x < width,
            0 <= y < height,
    ;
    assert(4 * (width * height) == 4 * width * height) by (nonlinear_arith);
    assert(0 <= y * width) by (nonlinear_arith)
        requires
            0 <= y,
            0 <= width,
    ;
}

/// The four bytes of pixel (`x`, `y`).
pub fn pixel_at(img: &Raster, x: u32, y: u32) -> (r: [u8; 4])
    requires
        img.wf(),
        x < img.width,
        y < img.height,
    ensures
        r@ == img.px(x as int, y as int),
{
    proof {
        lemma_pixel_in_bounds(x as int, y as int, img.width as int, img.height as int);
    }
    let n = img.data.len();
    assert(n == img.data@.len());
    let i = 4 * ((y as usize) * (img.width as usize) + (x as usize));
    let r = [img.data[i], img.data[i + 1], img.data[i + 2], img.data[i + 3]];
    assert(r@ =~= img.px(x as int, y as int));
    r
}

/// The `width` by `height` part of `img` whose top-left corner is (`left`, `top`).
pub fn crop(img: &Raster, left: u32, top: u32, width: u32, height: u32) -> (r: Raster)
    requires
        img.wf(),
        left + width <= img.width,
        top + height <= img.height,
    ensures
        r.wf(),
        r.width == width,
        r.height == height,
        forall|x: int, y: int|
            0 <= x < width && 0 <= y < height ==> #[trigger] r.px(x, y) == img.px(left + x, top + y),
{
    let mut data: Vec<u8> = Vec::new();
    let mut y: u32 = 0;
    while y < height
        invariant
            img.wf(),
            left + width <= img.width,
            top + height <= img.height,
            y <= height,
            data@.len() == 4 * ((width as int) * (y as int)),
            forall|xx: int, yy: int|
                0 <= xx < width && 0 <= yy < y ==> #[trigger] data@.subrange(
                    4 * (yy * width + xx),
                    4 * (yy * width + xx) + 4,
                ) == img.px(left + xx, top + yy),
        decreases height - y,
    {
        let mut x: u32 = 0;
        while x < width
            invariant
                img.wf(),
                left + width <= img.width,
                top + height <= img.height,
                y < height,
                x <= width,
                data@.len() == 4 * ((width as int) * (y as int) + x),
                forall|xx: int, yy: int|
                    0 <= xx < width && 0 <= yy && (yy < y || (yy == y && xx < x))
                        ==> #[trigger] data@.subrange(
                        4 * (yy * width + xx),
                        4 * (yy * width + xx) + 4,
                    ) == img.px(left + xx, top + yy),
            decreases width - x,
        {
            let p = pixel_at(img, left + x, top + y);
            let ghost before = data@;
            data.push(p[0]);
            data.push(p[1]);
            data.push(p[2]);
            data.push(p[3]);
            assert(data@ =~= before + p@);
            assert forall|xx: int, yy: int|
                0 <= xx < width && 0 <= yy && (yy < y || (yy == y && xx < x + 1)) implies #[trigger] data@.subrange(
                4 * (yy * width + xx),
                4 * (yy * width + xx) + 4,
            ) == img.px(left + xx, top + yy) by {
                if yy == y && xx == x {
                    assert(yy * width + xx == (width as int) * (y as int) + x) by (nonlinear_arith)
                        requires
                            yy == y,
                            xx == x,
                    ;
                    assert(data@.subrange(4 * (yy * width + xx), 4 * (yy * width + xx) + 4) =~= p@);
                } else {
                    assert(yy * width + xx + 1 <= (width as int) * (y as int) + x) by (nonlinear_arith)
                        requires
                            0 <= xx < width,
                            0 <= yy,
                            yy < y || (yy == y && xx < x),
                    ;
                    assert(data@.subrange(4 * (yy * width + xx), 4 * (yy * width + xx) + 4)
                        =~= before.subrange(4 * (yy * width + xx), 4 * (yy * width + xx) + 4));
                }
            }
            x += 1;
        }
        assert((width as int) * (y as int) + width == (width as int) * ((y + 1) as int))
            by (nonlinear_arith);
        y += 1;
    }
    assert(4 * ((width as int) * (height as int)) == 4 * (width as int) * (height as int))
        by (nonlinear_arith);
    let r = Raster { width, height, data };
    assert forall|x: int, y: int|
        0 <= x < width && 0 <= y < height implies #[trigger] r.px(x, y) == img.px(left + x, top + y) by {
        assert(r.px(x, y) == r.data@.subrange(4 * (y * width + x), 4 * (y * width + x) + 4));
    }
    r
}

/// A copy of `img`.
pub fn duplicate(img: &Raster) -> (r: Raster)
    ensures
        r.width == img.width,
        r.height == img.height,
        r.data@ == img.data@,
{
    let data = img.data.clone();
    assert(data@ =~= img.data@);
    Raster { width: img.width, height: img.height, data }
}

/// The resampling filters images are resized with.
#[derive(Debug, Clone, Copy, PartialEq, Eq, Structural)]
pub enum ResampleFilter {
    Triangle,
    CatmullRom,
}

/// The pixels of an image `width` by `height` with pixel data `data`, resampled to
/// `new_width` by `new_height` with the given filter of the `image` crate.
pub uninterp spec fn resampled(
    width: u32,
    height: u32,
    data: Seq<u8>,
    new_width: u32,
    new_height: u32,
    filter: ResampleFilter,
) -> Seq<u8>;

/// `image::imageops::resize`. The contract claims the size of the output, which the
/// crate's source shows it allocates, and names its pixels, which depend on the input
/// image, the requested size and the filter alone.
#[verifier::external_body]
pub(crate) fn resize_rgba(src: &Raster, new_width: u32, new_height: u32, filter: ResampleFilter) -> (r: Raster)
    requires
        src.wf(),
        4 * (new_width as int) * (new_height as int) <= usize::MAX,
    ensures
        r.width == new_width,
        r.height == new_height,
        r.wf(),
        r.data@ == resampled(src.width, src.height, src.data@, new_width, new_height, filter),
{
    let image = image::RgbaImage::from_raw(src.width, src.height, src.data.clone()).unwrap();
    let kind = match filter {
        ResampleFilter::Triangle => image::imageops::FilterType::Triangle,
        ResampleFilter::CatmullRom => image::imageops::FilterType::CatmullRom,
    };
    let out = image::imageops::resize(&image, new_width, new_height, kind);
    Raster { width: new_width, height: new_height, data: out.into_raw() }
}

/// `img` mirrored left to right.
pub fn flip_horizontal_rgba(img: &Raster) -> (r: Raster)
    requires
        img.wf(),
    ensures
        r.wf(),
        r.width == img.width,
        r.height == img.height,
        forall|x: int, y: int|
            0 <= x < img.width && 0 <= y < img.height ==> #[trigger] r.px(x, y) == img.px(
                img.width - 1 - x,
                y,
            ),
{
    let width = img.width;
    let height = img.height;
    let mut data: Vec<u8> = Vec::new();
    let mut y: u32 = 0;
    while y < height
        invariant
            img.wf(),
            width == img.width,
            height == img.height,
            y <= height,
            data@.len() == 4 * ((width as int) * (y as int)),
            forall|xx: int, yy: int|
                0 <= xx < width && 0 <= yy < y ==> #[trigger] data@.subrange(
                    4 * (yy * width + xx),
                    4 * (yy * width + xx) + 4,
                ) == img.px(width - 1 - xx, yy),
        decreases height - y,
    {
        let mut x: u32 = 0;
        while x < width
            invariant
                img.wf(),
                width == img.width,
                height == img.height,
                y < height,
                x <= width,
                data@.len() == 4 * ((width as int) * (y as int) + x),
                forall|xx: int, yy: int|
                    0 <= xx < width && 0 <= yy && (yy < y || (yy == y && xx < x))
                        ==> #[trigger] data@.subrange(
                        4 * (yy * width + xx),
                        4 * (yy * width + xx) + 4,
                    ) == img.px(width - 1 - xx, yy),
            decreases width - x,
        {
            let p = pixel_at(img, width - 1 - x, y);
            let ghost before = data@;
            data.push(p[0]);
            data.push(p[1]);
            data.push(p[2]);
            data.push(p[3]);
            assert(data@ =~= before + p@);
            assert forall|xx: int, yy: int|
                0 <= xx < width && 0 <= yy && (yy < y || (yy == y && xx < x + 1)) implies #[trigger] data@.subrange(
                4 * (yy * width + xx),
                4 * (yy * width + xx) + 4,
            ) == img.px(width - 1 - xx, yy) by {
                if yy == y && xx == x {
                    assert(yy * width + xx == (width as int) * (y as int) + x) by (nonlinear_arith)
                        requires
                            yy == y,
                            xx == x,
                    ;
                    assert(data@.subrange(4 * (yy * width + xx), 4 * (yy * width + xx) + 4) =~= p@);
                } else {
                    assert(yy * width + xx + 1 <= (width as int) * (y as int) + x) by (nonlinear_arith)
                        requires
                            0 <= xx < width,
                            0 <= yy,
                            yy < y || (yy == y && xx < x),
                    ;
                    assert(data@.subrange(4 * (yy * width + xx), 4 * (yy * width + xx) + 4)
                        =~= before.subrange(4 * (yy * width + xx), 4 * (yy * width + xx) + 4));
                }
            }
            x += 1;
        }
        assert((width as int) * (y as int) + width == (width as int) * ((y + 1) as int))
            by (nonlinear_arith);
        y += 1;
    }
    assert(4 * ((width as int) * (height as int)) == 4 * (width as int) * (height as int))
        by (nonlinear_arith);
    let r = Raster { width, height, data };
    assert forall|x: int, y: int|
        0 <= x < width && 0 <= y < height implies #[trigger] r.px(x, y) == img.px(width - 1 - x, y) by {
        assert(r.px(x, y) == r.data@.subrange(4 * (y * width + x), 4 * (y * width + x) + 4));
    }
    r
}

/// A 1 by 1 image of an opaque black pixel.
pub open spec fn black_pixel_data() -> Seq<u8> {
    seq![0u8, 0u8, 0u8, 255u8]
}

/// Whether a region of interest at (`x`, `y`), `rw` by `rh`, misses `img` entirely: it
/// starts outside it or is empty.
pub open spec fn roi_misses(img_width: u32, img_height: u32, x: u32, y: u32, rw: u32, rh: u32) -> bool {
    x >= img_width || y >= img_height || rw == 0 || rh == 0
}

/// The part of `img` in a region of interest, clipped to the image; a single opaque black
/// pixel where the region misses the image.
pub fn crop_roi(img: &Raster, x: u32, y: u32, rw: u32, rh: u32) -> (r: Raster)
    requires
        img.wf(),
    ensures
        r.wf(),
        roi_misses(img.width, img.height, x, y, rw, rh) ==> r.width == 1 && r.height == 1
            && r.data@ == black_pixel_data(),
        !roi_misses(img.width, img.height, x, y, rw, rh) ==> {
            &&& r.width == (if rw <= img.width - x { rw } else { (img.width - x) as u32 })
            &&& r.height == (if rh <= img.height - y { rh } else { (img.height - y) as u32 })
            &&& forall|xx: int, yy: int|
                0 <= xx < r.width && 0 <= yy < r.height ==> #[trigger] r.px(xx, yy) == img.px(
                    x + xx,
                    y + yy,
                )
        },
{
    let w = img.width;
    let h = img.height;
    if x >= w || y >= h || rw == 0 || rh == 0 {
        let mut data: Vec<u8> = Vec::new();
        data.push(0);
        data.push(0);
        data.push(0);
        data.push(255);
        assert(data@ =~= black_pixel_data());
        return Raster { width: 1, height: 1, data };
    }
    let cw = if rw <= w - x {
        rw
    } else {
        w - x
    };
    let ch = if rh <= h - y {
        rh
    } else {
        h - y
    };
    crop(img, x, y, cw, ch)
}

/// The height an image `width` by `height` is given when resized to `new_width` wide:
/// its height scaled in proportion, rounded down, at least 1, truncated to 32 bits.
pub open spec fn scaled_height(width: u32, height: u32, new_width: u32) -> u32 {
    let nh = (height as int) * (new_width as int) / (width as int);
    (if nh >= 1 {
        nh
    } else {
        1
    }) as u32
}

/// The image `img` resized to `new_width` wide with the triangle filter, keeping its
/// proportions; an image without pixels is copied as it is.
pub open spec fn resized_to_width(width: u32, height: u32, data: Seq<u8>, new_width: u32) -> (
    u32,
    u32,
    Seq<u8>,
) {
    if width == 0 || height == 0 {
        (width, height, data)
    } else {
        let nh = scaled_height(width, height, new_width);
        (new_width, nh, resampled(width, height, data, new_width, nh, ResampleFilter::Triangle))
    }
}

/// `img` resized to `new_width` wide, keeping its proportions.
pub fn resize_to_width(img: &Raster, new_width: u32) -> (r: Raster)
    requires
        img.wf(),
        img.width > 0 && img.height > 0 ==> 4 * (new_width as int) * (scaled_height(
            img.width,
            img.height,
            new_width,
        ) as int) <= usize::MAX,
    ensures
        r.wf(),
        (r.width, r.height, r.data@) == resized_to_width(img.width, img.height, img.data@, new_width),
{
    let h = img.height;
    let w = img.width;
    if w == 0 || h == 0 {
        return duplicate(img);
    }
    let hh = h as u64;
    let nw = new_width as u64;
    assert(hh * nw <= 0xffff_ffffu64 * 0xffff_ffffu64) by (nonlinear_arith)
        requires
            hh <= 0xffff_ffff,
            nw <= 0xffff_ffff,
    ;
    let q: u64 = (hh * nw) / (w as u64);
    let nh = (if q >= 1 {
        q
    } else {
        1
    }) as u32;
    resize_rgba(img, new_width, nh, ResampleFilter::Triangle)
}

/// The number of pixels among the first `n` at which two pixel data differ in colour
/// (alpha is not compared).
pub open spec fn mismatched_pixels(a: Seq<u8>, b: Seq<u8>, n: int) -> nat
    decreases n,
{
    if n <= 0 {
        0
    } else {
        let i = 4 * (n - 1);
        mismatched_pixels(a, b, n - 1) + if a.subrange(i, i + 3) == b.subrange(i, i + 3) {
            0nat
        } else {
            1nat
        }
    }
}

/// The error message of comparing images of different sizes.
pub open spec fn dimension_mismatch_message(a: (u32, u32), b: (u32, u32)) -> Seq<char> {
    "dimension mismatch: ("@ + decimal(a.0 as nat) + ", "@ + decimal(a.1 as nat) + ") vs ("@
        + decimal(b.0 as nat) + ", "@ + decimal(b.1 as nat) + ")"@
}

/// The number of pixels at which two images of one size differ in colour; the share of
/// differing pixels is that number over the pixel count. Images of different sizes are
/// an error.
pub fn pixel_mismatch_count(a: &Raster, b: &Raster) -> (r: Result<u64, String>)
    requires
        a.wf(),
        b.wf(),
    ensures
        (a.width != b.width || a.height != b.height) ==> (r matches Err(e) && e@
            == dimension_mismatch_message((a.width, a.height), (b.width, b.height))),
        (a.width == b.width && a.height == b.height) ==> (r matches Ok(n) && n
            == mismatched_pixels(a.data@, b.data@, (a.width as int) * (a.height as int))),
{
    if a.width != b.width || a.height != b.height {
        let mut m = chars_of("dimension mismatch: (");
        push_chars(&mut m, &decimal_exec(a.width as usize));
        push_str(&mut m, ", ");
        push_chars(&mut m, &decimal_exec(a.height as usize));
        push_str(&mut m, ") vs (");
        push_chars(&mut m, &decimal_exec(b.width as usize));
        push_str(&mut m, ", ");
        push_chars(&mut m, &decimal_exec(b.height as usize));
        push_str(&mut m, ")");
        return Err(string_of(m.as_slice()));
    }
    let ghost total = (a.width as int) * (a.height as int);
    assert(4 * (a.width as int) * (a.height as int) == 4 * total) by (nonlinear_arith)
        requires
            total == (a.width as int) * (a.height as int),
    ;
    let n = a.data.len() / 4;
    assert(n == total);
    let mut count: u64 = 0;
    let mut i: usize = 0;
    while i < n
        invariant
            i <= n,
            n == total,
            a.data@.len() == 4 * total,
            b.data@.len() == 4 * total,
            4 * n <= usize::MAX,
            count <= i,
            count == mismatched_pixels(a.data@, b.data@, i as int),
        decreases n - i,
    {
        let k = 4 * i;
        let same = a.data[k] == b.data[k] && a.data[k + 1] == b.data[k + 1] && a.data[k + 2]
            == b.data[k + 2];
        proof {
            assert(same == (a.data@.subrange(k as int, k + 3) == b.data@.subrange(k as int, k + 3))) by {
                if same {
                    assert(a.data@.subrange(k as int, k + 3) =~= b.data@.subrange(k as int, k + 3));
                } else {
                    if a.data@.subrange(k as int, k + 3) == b.data@.subrange(k as int, k + 3) {
                        assert(a.data@.subrange(k as int, k + 3)[0] == a.data@[k as int]);
                        assert(a.data@.subrange(k as int, k + 3)[1] == a.data@[k + 1]);
                        assert(a.data@.subrange(k as int, k + 3)[2] == a.data@[k + 2]);
                        assert(b.data@.subrange(k as int, k + 3)[0] == b.data@[k as int]);
                        assert(b.data@.subrange(k as int, k + 3)[1] == b.data@[k + 1]);
                        assert(b.data@.subrange(k as int, k + 3)[2] == b.data@[k + 2]);
                    }
                }
            }
        }
        if !same {
            count = count + 1;
        }
        i += 1;
    }
    Ok(count)
}

/// The width images are brought to before they are compared.
pub const COMPARE_WIDTH: u32 = 960;

/// An image resized to `new_height` high with the triangle filter, unless it is that high
/// already.
pub open spec fn to_height(img: (u32, u32, Seq<u8>), new_height: u32) -> (u32, u32, Seq<u8>) {
    if img.1 == new_height {
        img
    } else {
        (img.0, new_height, resampled(img.0, img.1, img.2, img.0, new_height, ResampleFilter::Triangle))
    }
}

/// Two images brought to one size for comparison: each resized to [`COMPARE_WIDTH`] wide
/// in proportion, then the shorter one stretched to the height of the taller.
pub open spec fn normalized_pair(a: (u32, u32, Seq<u8>), b: (u32, u32, Seq<u8>)) -> (
    (u32, u32, Seq<u8>),
    (u32, u32, Seq<u8>),
) {
    let ca = resized_to_width(a.0, a.1, a.2, COMPARE_WIDTH);
    let cb = resized_to_width(b.0, b.1, b.2, COMPARE_WIDTH);
    let h = if ca.1 >= cb.1 {
        ca.1
    } else {
        cb.1
    };
    (to_height(ca, h), to_height(cb, h))
}

/// Whether resizing an image to [`COMPARE_WIDTH`] wide fits in memory.
pub open spec fn compare_resize_fits(img: &Raster) -> bool {
    img.width > 0 && img.height > 0 ==> 4 * (COMPARE_WIDTH as int) * (scaled_height(
        img.width,
        img.height,
        COMPARE_WIDTH,
    ) as int) <= usize::MAX
}

/// Two images brought to one size for comparison.
pub fn normalize_pair_to_same_size(a: &Raster, b: &Raster) -> (r: (Raster, Raster))
    requires
        a.wf(),
        b.wf(),
        compare_resize_fits(a),
        compare_resize_fits(b),
        4 * (a.width as int) * (b.height as int) <= usize::MAX,
        4 * (b.width as int) * (a.height as int) <= usize::MAX,
        4 * (COMPARE_WIDTH as int) * (a.height as int) <= usize::MAX,
        4 * (COMPARE_WIDTH as int) * (b.height as int) <= usize::MAX,
        4 * (COMPARE_WIDTH as int) * (scaled_height(a.width, a.height, COMPARE_WIDTH) as int) <= usize::MAX,
        4 * (COMPARE_WIDTH as int) * (scaled_height(b.width, b.height, COMPARE_WIDTH) as int) <= usize::MAX,
        4 * (a.width as int) * (scaled_height(b.width, b.height, COMPARE_WIDTH) as int) <= usize::MAX,
        4 * (b.width as int) * (scaled_height(a.width, a.height, COMPARE_WIDTH) as int) <= usize::MAX,
    ensures
        r.0.wf(),
        r.1.wf(),
        ((r.0.width, r.0.height, r.0.data@), (r.1.width, r.1.height, r.1.data@)) == normalized_pair(
            (a.width, a.height, a.data@),
            (b.width, b.height, b.data@),
        ),
{
    let ca = resize_to_width(a, COMPARE_WIDTH);
    let cb = resize_to_width(b, COMPARE_WIDTH);
    let h = if ca.height >= cb.height {
        ca.height
    } else {
        cb.height
    };
    let ra = if ca.height != h {
        resize_rgba(&ca, ca.width, h, ResampleFilter::Triangle)
    } else {
        ca
    };
    let rb = if cb.height != h {
        resize_rgba(&cb, cb.width, h, ResampleFilter::Triangle)
    } else {
        cb
    };
    (ra, rb)
}

/// Among the first `n` pixels, the mismatch count is at most `n`, the same whichever
/// image comes first, and zero exactly when every pixel has the same red, green and
/// blue in both (alpha is not compared).
pub proof fn lemma_mismatch_counts_colour_differences(a: Seq<u8>, b: Seq<u8>, n: int)
    requires
        0 <= n,
    ensures
        mismatched_pixels(a, b, n) <= n,
        mismatched_pixels(a, b, n) == mismatched_pixels(b, a, n),
        (mismatched_pixels(a, b, n) == 0) <==> forall|k: int|
            0 <= k < n ==> #[trigger] a.subrange(4 * k, 4 * k + 3) == b.subrange(4 * k, 4 * k + 3),
    decreases n,
{
    if n > 0 {
        lemma_mismatch_counts_colour_differences(a, b, n - 1);
        let i = 4 * (n - 1);
        if mismatched_pixels(a, b, n) == 0 {
            assert forall|k: int| 0 <= k < n implies #[trigger] a.subrange(4 * k, 4 * k + 3)
                == b.subrange(4 * k, 4 * k + 3) by {
                if k < n - 1 {
                    assert(a.subrange(4 * k, 4 * k + 3) == b.subrange(4 * k, 4 * k + 3));
                }
            }
        }
        if forall|k: int| 0 <= k < n ==> #[trigger] a.subrange(4 * k, 4 * k + 3) == b.subrange(4 * k, 4 * k + 3) {
            assert(a.subrange(4 * (n - 1), 4 * (n - 1) + 3) == b.subrange(4 * (n - 1), 4 * (n - 1) + 3));
            assert forall|k: int| 0 <= k < n - 1 implies #[trigger] a.subrange(4 * k, 4 * k + 3)
                == b.subrange(4 * k, 4 * k + 3) by {
                assert(a.subrange(4 * k, 4 * k + 3) == b.subrange(4 * k, 4 * k + 3));
            }
        }
    }
}

} // verus!
