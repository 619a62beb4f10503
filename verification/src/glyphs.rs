//! The glyphs and colours of the cell rasterizer: the bitmap glyph atlas, the xterm
//! palette, and the geometry of a glyph inside its cell.
use vstd::prelude::*;
use font8x8::UnicodeFonts;
use std::collections::HashMap;

verus! {

broadcast use vstd::std_specs::hash::group_hash_axioms;

/// The size of a rasterized cell and the padding around its glyph.
#[derive(Clone, Copy, Debug, PartialEq, Eq, Structural)]
pub struct CellRasterConfig {
    pub cell_width: u32,
    pub cell_height: u32,
    pub padding_x: u32,
    pub padding_y: u32,
}

impl Default for CellRasterConfig {
    /// Cells of 8 by 16 pixels, with one row of padding above and below the glyph.
    fn default() -> (r: CellRasterConfig)
        ensures
            r == (CellRasterConfig { cell_width: 8, cell_height: 16, padding_x: 0, padding_y: 1 }),
    {
        CellRasterConfig { cell_width: 8, cell_height: 16, padding_x: 0, padding_y: 1 }
    }
}

/// The eight rows of the `font8x8` basic-font glyph of `c`, least significant bit
/// leftmost.
pub uninterp spec fn basic_font_glyph(c: char) -> Seq<u8>;

/// `font8x8::BASIC_FONTS.get`. The basic font covers exactly the 128 ASCII code
/// points (its table holds them all, in order), so the contract claims a glyph for
/// those and none for any other character, and names the glyph's rows.
#[verifier::external_body]
fn basic_font(c: char) -> (r: Option<[u8; 8]>)
    ensures
        r is Some <==> (c as u32) < 128,
        r matches Some(g) ==> g@ == basic_font_glyph(c),
{
    font8x8::BASIC_FONTS.get(c)
}

/// The box-drawing and block glyphs drawn from bitmaps of this crate, in the order
/// they are added to the atlas (after the basic font, so they take precedence).
pub open spec fn box_glyph_table() -> Seq<(char, [u8; 8])> {
    seq![
        ('│', [0x18, 0x18, 0x18, 0x18, 0x18, 0x18, 0x18, 0x18]),
        ('┃', [0x3C, 0x3C, 0x3C, 0x3C, 0x3C, 0x3C, 0x3C, 0x3C]),
        ('─', [0x00, 0x00, 0x00, 0x7E, 0x7E, 0x00, 0x00, 0x00]),
        ('━', [0x00, 0x00, 0x7E, 0x7E, 0x7E, 0x7E, 0x00, 0x00]),
        ('┌', [0x00, 0x00, 0x1E, 0x1E, 0x18, 0x18, 0x18, 0x18]),
        ('┐', [0x00, 0x00, 0x78, 0x78, 0x18, 0x18, 0x18, 0x18]),
        ('└', [0x18, 0x18, 0x18, 0x18, 0x1E, 0x1E, 0x00, 0x00]),
        ('┘', [0x18, 0x18, 0x18, 0x18, 0x78, 0x78, 0x00, 0x00]),
        ('├', [0x18, 0x18, 0x1E, 0x1E, 0x18, 0x18, 0x18, 0x18]),
        ('┤', [0x18, 0x18, 0x78, 0x78, 0x18, 0x18, 0x18, 0x18]),
        ('┬', [0x00, 0x00, 0x7E, 0x7E, 0x18, 0x18, 0x18, 0x18]),
        ('┴', [0x18, 0x18, 0x18, 0x18, 0x7E, 0x7E, 0x00, 0x00]),
        ('┼', [0x18, 0x18, 0x7E, 0x7E, 0x7E, 0x7E, 0x18, 0x18]),
        ('╭', [0x00, 0x00, 0x0E, 0x1C, 0x18, 0x18, 0x18, 0x18]),
        ('╮', [0x00, 0x00, 0x70, 0x38, 0x18, 0x18, 0x18, 0x18]),
        ('╰', [0x18, 0x18, 0x18, 0x18, 0x1C, 0x0E, 0x00, 0x00]),
        ('╯', [0x18, 0x18, 0x18, 0x18, 0x38, 0x70, 0x00, 0x00]),
        ('▀', [0xFF, 0xFF, 0xFF, 0xFF, 0x00, 0x00, 0x00, 0x00]),
        ('▄', [0x00, 0x00, 0x00, 0x00, 0xFF, 0xFF, 0xFF, 0xFF]),
        ('█', [0xFF, 0xFF, 0xFF, 0xFF, 0xFF, 0xFF, 0xFF, 0xFF]),
    ]
}

/// The box-drawing and block glyphs of this crate.
pub fn manual_box_drawing_glyphs() -> (r: Vec<(char, [u8; 8])>)
    ensures
        r@ == box_glyph_table(),
{
    let mut v: Vec<(char, [u8; 8])> = Vec::new();
    v.push(('│', [0x18, 0x18, 0x18, 0x18, 0x18, 0x18, 0x18, 0x18]));
    v.push(('┃', [0x3C, 0x3C, 0x3C, 0x3C, 0x3C, 0x3C, 0x3C, 0x3C]));
    v.push(('─', [0x00, 0x00, 0x00, 0x7E, 0x7E, 0x00, 0x00, 0x00]));
    v.push(('━', [0x00, 0x00, 0x7E, 0x7E, 0x7E, 0x7E, 0x00, 0x00]));
    v.push(('┌', [0x00, 0x00, 0x1E, 0x1E, 0x18, 0x18, 0x18, 0x18]));
    v.push(('┐', [0x00, 0x00, 0x78, 0x78, 0x18, 0x18, 0x18, 0x18]));
    v.push(('└', [0x18, 0x18, 0x18, 0x18, 0x1E, 0x1E, 0x00, 0x00]));
    v.push(('┘', [0x18, 0x18, 0x18, 0x18, 0x78, 0x78, 0x00, 0x00]));
    v.push(('├', [0x18, 0x18, 0x1E, 0x1E, 0x18, 0x18, 0x18, 0x18]));
    v.push(('┤', [0x18, 0x18, 0x78, 0x78, 0x18, 0x18, 0x18, 0x18]));
    v.push(('┬', [0x00, 0x00, 0x7E, 0x7E, 0x18, 0x18, 0x18, 0x18]));
    v.push(('┴', [0x18, 0x18, 0x18, 0x18, 0x7E, 0x7E, 0x00, 0x00]));
    v.push(('┼', [0x18, 0x18, 0x7E, 0x7E, 0x7E, 0x7E, 0x18, 0x18]));
    v.push(('╭', [0x00, 0x00, 0x0E, 0x1C, 0x18, 0x18, 0x18, 0x18]));
    v.push(('╮', [0x00, 0x00, 0x70, 0x38, 0x18, 0x18, 0x18, 0x18]));
    v.push(('╰', [0x18, 0x18, 0x18, 0x18, 0x1C, 0x0E, 0x00, 0x00]));
    v.push(('╯', [0x18, 0x18, 0x18, 0x18, 0x38, 0x70, 0x00, 0x00]));
    v.push(('▀', [0xFF, 0xFF, 0xFF, 0xFF, 0x00, 0x00, 0x00, 0x00]));
    v.push(('▄', [0x00, 0x00, 0x00, 0x00, 0xFF, 0xFF, 0xFF, 0xFF]));
    v.push(('█', [0xFF, 0xFF, 0xFF, 0xFF, 0xFF, 0xFF, 0xFF, 0xFF]));
    assert(v@ =~= box_glyph_table());
    v
}

/// `m` with the glyphs of `t` added in order, a later one replacing an earlier one of
/// the same character.
pub open spec fn with_glyphs(m: Map<u32, Seq<u8>>, t: Seq<(char, [u8; 8])>) -> Map<u32, Seq<u8>>
    decreases t.len(),
{
    if t.len() == 0 {
        m
    } else {
        with_glyphs(m, t.drop_last()).insert(t.last().0 as u32, t.last().1@)
    }
}

/// The basic-font glyphs of the code points below `n`.
pub open spec fn basic_glyphs_below(n: int) -> Map<u32, Seq<u8>> {
    Map::new(|k: u32| (k as int) < n, |k: u32| basic_font_glyph(k as char))
}

/// The glyphs of the atlas by code point: the basic font for ASCII, then the
/// box-drawing and block glyphs of this crate.
pub open spec fn atlas_glyphs() -> Map<u32, Seq<u8>> {
    with_glyphs(basic_glyphs_below(128), box_glyph_table())
}

/// Bitmap glyphs by character.
#[derive(Clone, Debug)]
pub struct GlyphAtlas {
    glyphs: HashMap<u32, [u8; 8]>,
}

impl View for GlyphAtlas {
    type V = Map<u32, Seq<u8>>;

    closed spec fn view(&self) -> Map<u32, Seq<u8>> {
        self.glyphs@.map_values(|g: [u8; 8]| g@)
    }
}

impl GlyphAtlas {
    /// The atlas of [`atlas_glyphs`].
    pub fn new() -> (r: GlyphAtlas)
        ensures
            r@ == atlas_glyphs(),
    {
        let mut glyphs: HashMap<u32, [u8; 8]> = HashMap::new();
        let mut codepoint: u8 = 0;
        while codepoint < 128
            invariant
                codepoint <= 128,
                glyphs@.map_values(|g: [u8; 8]| g@) == basic_glyphs_below(codepoint as int),
            decreases 128 - codepoint,
        {
            let character = codepoint as char;
            assert(character as u32 == codepoint as u32);
            assert((codepoint as u32) as char == character);
            let ghost before = glyphs@;
            match basic_font(character) {
                Some(glyph) => {
                    glyphs.insert(codepoint as u32, glyph);
                    assert(glyphs@.map_values(|g: [u8; 8]| g@) =~= before.map_values(
                        |g: [u8; 8]| g@,
                    ).insert(codepoint as u32, glyph@));
                },
                None => {},
            }
            codepoint += 1;
            assert(glyphs@.map_values(|g: [u8; 8]| g@) =~= basic_glyphs_below(codepoint as int));
        }
        let extra = manual_box_drawing_glyphs();
        let mut i: usize = 0;
        while i < extra.len()
            invariant
                i <= extra.len(),
                extra@ == box_glyph_table(),
                glyphs@.map_values(|g: [u8; 8]| g@) == with_glyphs(
                    basic_glyphs_below(128),
                    extra@.take(i as int),
                ),
            decreases extra.len() - i,
        {
            let (character, glyph) = extra[i];
            let ghost before = glyphs@;
            glyphs.insert(character as u32, glyph);
            assert(glyphs@.map_values(|g: [u8; 8]| g@) =~= before.map_values(|g: [u8; 8]| g@).insert(
                character as u32,
                glyph@,
            ));
            assert(extra@.take(i + 1).drop_last() =~= extra@.take(i as int));
            i += 1;
            assert(glyphs@.map_values(|g: [u8; 8]| g@) =~= with_glyphs(
                basic_glyphs_below(128),
                extra@.take(i as int),
            ));
        }
        assert(extra@.take(extra.len() as int) =~= extra@);
        GlyphAtlas { glyphs }
    }

    /// The glyph of `character`, if the atlas has one.
    pub fn glyph_for(&self, character: char) -> (r: Option<&[u8; 8]>)
        ensures
            match r {
                Some(g) => self@.contains_key(character as u32) && g@ == self@[character as u32],
                None => !self@.contains_key(character as u32),
            },
    {
        let key = character as u32;
        self.glyphs.get(&key)
    }
}

/// The sixteen ANSI colours, normal then bright.
pub open spec fn ansi16() -> Seq<Seq<u8>> {
    seq![
        seq![0u8, 0u8, 0u8],
        seq![205u8, 49u8, 49u8],
        seq![13u8, 188u8, 121u8],
        seq![229u8, 224u8, 113u8],
        seq![36u8, 114u8, 200u8],
        seq![188u8, 63u8, 188u8],
        seq![17u8, 168u8, 205u8],
        seq![229u8, 229u8, 229u8],
        seq![102u8, 102u8, 102u8],
        seq![241u8, 76u8, 76u8],
        seq![35u8, 209u8, 139u8],
        seq![245u8, 245u8, 67u8],
        seq![59u8, 142u8, 234u8],
        seq![214u8, 112u8, 214u8],
        seq![41u8, 184u8, 219u8],
        seq![255u8, 255u8, 255u8],
    ]
}

/// ANSI colour `i`.
fn ansi16_exec(i: u8) -> (r: [u8; 3])
    requires
        i < 16,
    ensures
        r@ == ansi16()[i as int],
{
    let table: [[u8; 3]; 16] = [
        [0, 0, 0],
        [205, 49, 49],
        [13, 188, 121],
        [229, 224, 113],
        [36, 114, 200],
        [188, 63, 188],
        [17, 168, 205],
        [229, 229, 229],
        [102, 102, 102],
        [241, 76, 76],
        [35, 209, 139],
        [245, 245, 67],
        [59, 142, 234],
        [214, 112, 214],
        [41, 184, 219],
        [255, 255, 255],
    ];
    let r = table[i as usize];
    assert(r@ =~= ansi16()[i as int]);
    r
}

/// The level of step `n` (0 to 5) of the colour cube: 0, then 55 to 215 by 40.
pub open spec fn cube_level(n: int) -> u8 {
    if n == 0 {
        0
    } else {
        (55 + (n - 1) * 40) as u8
    }
}

/// The RGB value of xterm colour `i`: the sixteen ANSI colours, then the 6×6×6 colour
/// cube, then a grey ramp from 8 in steps of 10.
pub open spec fn xterm_rgb(i: u8) -> Seq<u8> {
    if i < 16 {
        ansi16()[i as int]
    } else if i < 232 {
        let j = i - 16;
        seq![cube_level((j / 36) % 6), cube_level((j / 6) % 6), cube_level(j % 6)]
    } else {
        let g = 8 + (i - 232) * 10;
        let g = if g > 255 {
            255u8
        } else {
            g as u8
        };
        seq![g, g, g]
    }
}

fn cube_level_exec(n: u8) -> (r: u8)
    requires
        n < 6,
    ensures
        r == cube_level(n as int),
{
    if n == 0 {
        0
    } else {
        (55 + (n as u16 - 1) * 40) as u8
    }
}

/// The RGB value of xterm colour `i`.
pub fn xterm_256_to_rgb(i: u8) -> (r: [u8; 3])
    ensures
        r@ == xterm_rgb(i),
{
    if i < 16 {
        ansi16_exec(i)
    } else if i < 232 {
        let j = i - 16;
        let r = [cube_level_exec((j / 36) % 6), cube_level_exec((j / 6) % 6), cube_level_exec(j % 6)];
        assert(r@ =~= xterm_rgb(i));
        r
    } else {
        let g = 8 + (i as u16 - 232) * 10;
        let g: u8 = if g > 255 {
            255
        } else {
            g as u8
        };
        let r = [g, g, g];
        assert(r@ =~= xterm_rgb(i));
        r
    }
}

/// A terminal colour.
#[derive(Debug, Clone, Copy, PartialEq, Eq, Structural)]
pub enum TermColor {
    Reset,
    Black,
    Red,
    Green,
    Yellow,
    Blue,
    Magenta,
    Cyan,
    Gray,
    DarkGray,
    LightRed,
    LightGreen,
    LightYellow,
    LightBlue,
    LightMagenta,
    LightCyan,
    White,
    Rgb(u8, u8, u8),
    Indexed(u8),
}

/// The RGB value a terminal colour is drawn with; `Reset` takes `reset_default`.
pub open spec fn term_rgb(color: TermColor, reset_default: Seq<u8>) -> Seq<u8> {
    match color {
        TermColor::Reset => reset_default,
        TermColor::Black => seq![0u8, 0u8, 0u8],
        TermColor::Red => ansi16()[1],
        TermColor::Green => ansi16()[2],
        TermColor::Yellow => ansi16()[3],
        TermColor::Blue => ansi16()[4],
        TermColor::Magenta => ansi16()[5],
        TermColor::Cyan => ansi16()[6],
        TermColor::Gray => ansi16()[7],
        TermColor::DarkGray => ansi16()[8],
        TermColor::LightRed => ansi16()[9],
        TermColor::LightGreen => ansi16()[10],
        TermColor::LightYellow => ansi16()[11],
        TermColor::LightBlue => ansi16()[12],
        TermColor::LightMagenta => ansi16()[13],
        TermColor::LightCyan => ansi16()[14],
        TermColor::White => ansi16()[15],
        TermColor::Rgb(r, g, b) => seq![r, g, b],
        TermColor::Indexed(i) => xterm_rgb(i),
    }
}

/// The RGB value `color` is drawn with.
pub fn color_to_rgb(color: TermColor, reset_default: [u8; 3]) -> (r: [u8; 3])
    ensures
        r@ == term_rgb(color, reset_default@),
{
    let r = match color {
        TermColor::Reset => reset_default,
        TermColor::Black => [0, 0, 0],
        TermColor::Red => ansi16_exec(1),
        TermColor::Green => ansi16_exec(2),
        TermColor::Yellow => ansi16_exec(3),
        TermColor::Blue => ansi16_exec(4),
        TermColor::Magenta => ansi16_exec(5),
        TermColor::Cyan => ansi16_exec(6),
        TermColor::Gray => ansi16_exec(7),
        TermColor::DarkGray => ansi16_exec(8),
        TermColor::LightRed => ansi16_exec(9),
        TermColor::LightGreen => ansi16_exec(10),
        TermColor::LightYellow => ansi16_exec(11),
        TermColor::LightBlue => ansi16_exec(12),
        TermColor::LightMagenta => ansi16_exec(13),
        TermColor::LightCyan => ansi16_exec(14),
        TermColor::White => ansi16_exec(15),
        TermColor::Rgb(r, g, b) => [r, g, b],
        TermColor::Indexed(i) => xterm_256_to_rgb(i),
    };
    assert(r@ =~= term_rgb(color, reset_default@));
    r
}

/// The rectangle (x, y, width, height) a glyph is drawn in, inside a cell at
/// (`origin_x`, `origin_y`) of `cell_w` by `cell_h` pixels: the configured padding, at
/// most half of the cell less one pixel on each axis, taken from each side; never less
/// than one pixel wide or high.
pub open spec fn inner_rect(origin_x: u32, origin_y: u32, cell_w: u32, cell_h: u32, config: CellRasterConfig) -> (
    int,
    int,
    int,
    int,
) {
    let sat = |a: int, b: int| if a > b { a - b } else { 0int };
    let px = if (config.padding_x as int) < sat(cell_w as int, 1) / 2 {
        config.padding_x as int
    } else {
        sat(cell_w as int, 1) / 2
    };
    let py = if (config.padding_y as int) < sat(cell_h as int, 1) / 2 {
        config.padding_y as int
    } else {
        sat(cell_h as int, 1) / 2
    };
    let x = if origin_x + px > u32::MAX {
        u32::MAX as int
    } else {
        origin_x + px
    };
    let y = if origin_y + py > u32::MAX {
        u32::MAX as int
    } else {
        origin_y + py
    };
    let w = sat(cell_w as int, 2 * px);
    let h = sat(cell_h as int, 2 * py);
    (x, y, if w > 1 { w } else { 1 }, if h > 1 { h } else { 1 })
}

/// The rectangle a glyph is drawn in inside its cell.
pub fn glyph_inner_rect(
    origin_x: u32,
    origin_y: u32,
    cell_w: u32,
    cell_h: u32,
    config: CellRasterConfig,
) -> (r: (u32, u32, u32, u32))
    ensures
        (r.0 as int, r.1 as int, r.2 as int, r.3 as int) == inner_rect(
            origin_x,
            origin_y,
            cell_w,
            cell_h,
            config,
        ),
{
    let half_w = cell_w.saturating_sub(1) / 2;
    let half_h = cell_h.saturating_sub(1) / 2;
    let padding_x = if config.padding_x < half_w {
        config.padding_x
    } else {
        half_w
    };
    let padding_y = if config.padding_y < half_h {
        config.padding_y
    } else {
        half_h
    };
    let inner_x = origin_x.saturating_add(padding_x);
    let inner_y = origin_y.saturating_add(padding_y);
    let w = cell_w.saturating_sub(padding_x * 2);
    let h = cell_h.saturating_sub(padding_y * 2);
    (inner_x, inner_y, if w > 1 {
        w
    } else {
        1
    }, if h > 1 {
        h
    } else {
        1
    })
}

/// The span of glyph step `i` (of eight) along an axis of `len` pixels from `start`:
/// from `start + i * len / 8` up to the next step, at least one pixel.
pub open spec fn glyph_span(start: int, len: int, i: int) -> (int, int) {
    let a = start + (i * len) / 8;
    let b = start + ((i + 1) * len) / 8;
    (a, if b - a > 1 { b - a } else { 1 })
}

/// Whether bit `col` of glyph row `bits` is set (bit 0 is the leftmost pixel).
pub open spec fn glyph_bit(bits: u8, col: u32) -> bool {
    (bits >> col) & 1u8 == 1u8
}

/// The rectangles filled to draw `glyph_rows`, row by row and left to right: one for
/// each set bit, scaled from the 8×8 bitmap to the glyph's inner rectangle.
pub open spec fn glyph_rects(x: int, y: int, w: int, h: int, rows: Seq<u8>) -> Seq<(int, int, int, int)> {
    glyph_rects_from(x, y, w, h, rows, 0)
}

/// [`glyph_rects`] from bitmap cell `n` (row `n / 8`, column `n % 8`) on.
pub open spec fn glyph_rects_from(x: int, y: int, w: int, h: int, rows: Seq<u8>, n: int) -> Seq<
    (int, int, int, int),
>
    decreases 64 - n,
{
    if n < 0 || n >= 64 {
        seq![]
    } else {
        let rest = glyph_rects_from(x, y, w, h, rows, n + 1);
        let row = n / 8;
        let col = n % 8;
        if glyph_bit(rows[row], col as u32) {
            let (x0, pw) = glyph_span(x, w, col);
            let (y0, ph) = glyph_span(y, h, row);
            seq![(x0, y0, pw, ph)] + rest
        } else {
            rest
        }
    }
}


/// A list of pixel rectangles as integers.
pub open spec fn rects_view(v: Seq<(u32, u32, u32, u32)>) -> Seq<(int, int, int, int)> {
    v.map_values(|r: (u32, u32, u32, u32)| (r.0 as int, r.1 as int, r.2 as int, r.3 as int))
}

/// The rectangles to fill to draw the glyph `glyph_rows` in a cell at (`origin_x`,
/// `origin_y`) of `cell_w` by `cell_h` pixels.
pub fn glyph_pixel_rects(
    origin_x: u32,
    origin_y: u32,
    cell_w: u32,
    cell_h: u32,
    config: CellRasterConfig,
    glyph_rows: &[u8; 8],
) -> (r: Vec<(u32, u32, u32, u32)>)
    requires
        origin_x as int + cell_w as int + 1 <= u32::MAX,
        origin_y as int + cell_h as int + 1 <= u32::MAX,
        8 * (cell_w as int + 1) <= u32::MAX,
        8 * (cell_h as int + 1) <= u32::MAX,
    ensures
        ({
            let (x, y, w, h) = inner_rect(origin_x, origin_y, cell_w, cell_h, config);
            rects_view(r@) == glyph_rects(x, y, w, h, glyph_rows@)
        }),
{
    let (inner_x, inner_y, inner_w, inner_h) = glyph_inner_rect(
        origin_x,
        origin_y,
        cell_w,
        cell_h,
        config,
    );
    let ghost rows = glyph_rows@;
    let mut out: Vec<(u32, u32, u32, u32)> = Vec::new();
    let mut n: u32 = 0;
    while n < 64
        invariant
            n <= 64,
            rows == glyph_rows@,
            rows.len() == 8,
            inner_x as int + inner_w as int <= u32::MAX,
            inner_y as int + inner_h as int <= u32::MAX,
            8 * (inner_w as int) <= u32::MAX,
            8 * (inner_h as int) <= u32::MAX,
            rects_view(out@) + glyph_rects_from(
                inner_x as int,
                inner_y as int,
                inner_w as int,
                inner_h as int,
                rows,
                n as int,
            ) == glyph_rects_from(
                inner_x as int,
                inner_y as int,
                inner_w as int,
                inner_h as int,
                rows,
                0,
            ),
        decreases 64 - n,
    {
        let row = n / 8;
        let col = n % 8;
        let bits = glyph_rows[row as usize];
        let ghost rest = glyph_rects_from(
            inner_x as int,
            inner_y as int,
            inner_w as int,
            inner_h as int,
            rows,
            n + 1,
        );
        if (bits >> col) & 1 == 1 {
            assert((row * inner_h) / 8 <= inner_h && ((row + 1) * inner_h) / 8 <= inner_h) by (nonlinear_arith)
                requires
                    row < 8,
            ;
            assert((col * inner_w) / 8 <= inner_w && ((col + 1) * inner_w) / 8 <= inner_w) by (nonlinear_arith)
                requires
                    col < 8,
            ;
            let y0 = inner_y + (row * inner_h) / 8;
            let y1 = inner_y + ((row + 1) * inner_h) / 8;
            let x0 = inner_x + (col * inner_w) / 8;
            let x1 = inner_x + ((col + 1) * inner_w) / 8;
            let pw = if x1 > x0 && x1 - x0 > 1 {
                x1 - x0
            } else {
                1
            };
            let ph = if y1 > y0 && y1 - y0 > 1 {
                y1 - y0
            } else {
                1
            };
            let ghost before = rects_view(out@);
            out.push((x0, y0, pw, ph));
            assert(rects_view(out@) =~= before.push((x0 as int, y0 as int, pw as int, ph as int)));
            assert(rects_view(out@) + rest =~= before + glyph_rects_from(
                inner_x as int,
                inner_y as int,
                inner_w as int,
                inner_h as int,
                rows,
                n as int,
            ));
        } else {
            assert(glyph_rects_from(
                inner_x as int,
                inner_y as int,
                inner_w as int,
                inner_h as int,
                rows,
                n as int,
            ) == rest);
        }
        n += 1;
    }
    out
}

/// A run of pixels from (`x0`, `y0`) to (`x1`, `y1`), both ends included; it is empty
/// where an end comes before the start.
#[derive(Debug, Clone, Copy, PartialEq, Eq, Structural)]
pub struct Stroke {
    pub x0: u32,
    pub y0: u32,
    pub x1: u32,
    pub y1: u32,
}

/// The run along row `y` from `x0` to `x1`.
pub open spec fn across(x0: u32, x1: u32, y: u32) -> Stroke {
    Stroke { x0, y0: y, x1, y1: y }
}

/// The run along column `x` from `y0` to `y1`.
pub open spec fn down(x: u32, y0: u32, y1: u32) -> Stroke {
    Stroke { x0: x, y0, x1: x, y1 }
}

/// The strokes that draw a box-drawing character (light or heavy) in a cell at
/// (`ox`, `oy`) of `w` by `h` pixels, in the order they are drawn; `None` for any other
/// character. Strokes run one pixel in from the cell's edges and meet at its middle.
pub open spec fn box_strokes(ox: u32, oy: u32, w: u32, h: u32, c: char) -> Option<Seq<Stroke>> {
    let mid_x = (ox + w / 2) as u32;
    let mid_y = (oy + h / 2) as u32;
    let left = (ox + 1) as u32;
    let right = (ox + if w >= 2 { w - 2 } else { 0 }) as u32;
    let top = (oy + 1) as u32;
    let bottom = (oy + if h >= 2 { h - 2 } else { 0 }) as u32;
    if c == '│' || c == '┃' {
        Some(seq![down(mid_x, top, bottom)])
    } else if c == '─' || c == '━' {
        Some(seq![across(left, right, mid_y)])
    } else if c == '┌' || c == '┏' {
        Some(seq![across(mid_x, right, top), down(left, top, mid_y)])
    } else if c == '┐' || c == '┓' {
        Some(seq![across(left, mid_x, top), down(right, top, mid_y)])
    } else if c == '└' || c == '┗' {
        Some(seq![across(mid_x, right, bottom), down(left, mid_y, bottom)])
    } else if c == '┘' || c == '┛' {
        Some(seq![across(left, mid_x, bottom), down(right, mid_y, bottom)])
    } else if c == '├' || c == '┣' {
        Some(seq![down(left, top, bottom), across(left, right, mid_y)])
    } else if c == '┤' || c == '┫' {
        Some(seq![down(right, top, bottom), across(left, right, mid_y)])
    } else if c == '┬' || c == '┳' {
        Some(seq![across(left, right, top), down(mid_x, top, bottom)])
    } else if c == '┴' || c == '┻' {
        Some(seq![across(left, right, bottom), down(mid_x, top, bottom)])
    } else if c == '┼' || c == '╋' {
        Some(seq![across(left, right, mid_y), down(mid_x, top, bottom)])
    } else {
        None
    }
}

/// Two strokes, in order.
fn two(a: Stroke, b: Stroke) -> (r: Vec<Stroke>)
    ensures
        r@ == seq![a, b],
{
    let mut v: Vec<Stroke> = Vec::new();
    v.push(a);
    v.push(b);
    assert(v@ =~= seq![a, b]);
    v
}

/// The strokes that draw a box-drawing character in a cell; `None` for any other
/// character.
pub fn box_drawing_strokes(ox: u32, oy: u32, w: u32, h: u32, c: char) -> (r: Option<Vec<Stroke>>)
    requires
        ox as int + w as int + 1 <= u32::MAX,
        oy as int + h as int + 1 <= u32::MAX,
    ensures
        r matches Some(v) ==> box_strokes(ox, oy, w, h, c) == Some(v@),
        r is None <==> box_strokes(ox, oy, w, h, c) is None,
{
    let mid_x = ox + w / 2;
    let mid_y = oy + h / 2;
    let left = ox + 1;
    let right = ox + w.saturating_sub(2);
    let top = oy + 1;
    let bottom = oy + h.saturating_sub(2);
    let row_run = |x0: u32, x1: u32, y: u32| -> (s: Stroke)
        ensures
            s == across(x0, x1, y),
        { Stroke { x0, y0: y, x1, y1: y } };
    let column_run = |x: u32, y0: u32, y1: u32| -> (s: Stroke)
        ensures
            s == down(x, y0, y1),
        { Stroke { x0: x, y0, x1: x, y1 } };
    if c == '│' || c == '┃' {
        let mut v: Vec<Stroke> = Vec::new();
        v.push(column_run(mid_x, top, bottom));
        assert(v@ =~= seq![down(mid_x, top, bottom)]);
        Some(v)
    } else if c == '─' || c == '━' {
        let mut v: Vec<Stroke> = Vec::new();
        v.push(row_run(left, right, mid_y));
        assert(v@ =~= seq![across(left, right, mid_y)]);
        Some(v)
    } else if c == '┌' || c == '┏' {
        Some(two(row_run(mid_x, right, top), column_run(left, top, mid_y)))
    } else if c == '┐' || c == '┓' {
        Some(two(row_run(left, mid_x, top), column_run(right, top, mid_y)))
    } else if c == '└' || c == '┗' {
        Some(two(row_run(mid_x, right, bottom), column_run(left, mid_y, bottom)))
    } else if c == '┘' || c == '┛' {
        Some(two(row_run(left, mid_x, bottom), column_run(right, mid_y, bottom)))
    } else if c == '├' || c == '┣' {
        Some(two(column_run(left, top, bottom), row_run(left, right, mid_y)))
    } else if c == '┤' || c == '┫' {
        Some(two(column_run(right, top, bottom), row_run(left, right, mid_y)))
    } else if c == '┬' || c == '┳' {
        Some(two(row_run(left, right, top), column_run(mid_x, top, bottom)))
    } else if c == '┴' || c == '┻' {
        Some(two(row_run(left, right, bottom), column_run(mid_x, top, bottom)))
    } else if c == '┼' || c == '╋' {
        Some(two(row_run(left, right, mid_y), column_run(mid_x, top, bottom)))
    } else {
        None
    }
}

/// Each named colour is drawn as the entry of the xterm palette with its ANSI index:
/// black 0, red 1, green 2, yellow 3, blue 4, magenta 5, cyan 6, gray 7, dark gray 8,
/// then the light colours 9 to 14 and white 15, the same as the indexed colour; the
/// palette's first entries are black, red, green and white as xterm draws them.
pub proof fn lemma_named_colours_follow_the_palette(reset_default: Seq<u8>)
    ensures
        term_rgb(TermColor::Black, reset_default) == xterm_rgb(0),
        term_rgb(TermColor::Black, reset_default) == term_rgb(TermColor::Indexed(0), reset_default),
        term_rgb(TermColor::Red, reset_default) == xterm_rgb(1),
        term_rgb(TermColor::Red, reset_default) == term_rgb(TermColor::Indexed(1), reset_default),
        term_rgb(TermColor::Green, reset_default) == xterm_rgb(2),
        term_rgb(TermColor::Green, reset_default) == term_rgb(TermColor::Indexed(2), reset_default),
        term_rgb(TermColor::Yellow, reset_default) == xterm_rgb(3),
        term_rgb(TermColor::Yellow, reset_default) == term_rgb(TermColor::Indexed(3), reset_default),
        term_rgb(TermColor::Blue, reset_default) == xterm_rgb(4),
        term_rgb(TermColor::Blue, reset_default) == term_rgb(TermColor::Indexed(4), reset_default),
        term_rgb(TermColor::Magenta, reset_default) == xterm_rgb(5),
        term_rgb(TermColor::Magenta, reset_default) == term_rgb(TermColor::Indexed(5), reset_default),
        term_rgb(TermColor::Cyan, reset_default) == xterm_rgb(6),
        term_rgb(TermColor::Cyan, reset_default) == term_rgb(TermColor::Indexed(6), reset_default),
        term_rgb(TermColor::Gray, reset_default) == xterm_rgb(7),
        term_rgb(TermColor::Gray, reset_default) == term_rgb(TermColor::Indexed(7), reset_default),
        term_rgb(TermColor::DarkGray, reset_default) == xterm_rgb(8),
        term_rgb(TermColor::DarkGray, reset_default) == term_rgb(TermColor::Indexed(8), reset_default),
        term_rgb(TermColor::LightRed, reset_default) == xterm_rgb(9),
        term_rgb(TermColor::LightRed, reset_default) == term_rgb(TermColor::Indexed(9), reset_default),
        term_rgb(TermColor::LightGreen, reset_default) == xterm_rgb(10),
        term_rgb(TermColor::LightGreen, reset_default) == term_rgb(TermColor::Indexed(10), reset_default),
        term_rgb(TermColor::LightYellow, reset_default) == xterm_rgb(11),
        term_rgb(TermColor::LightYellow, reset_default) == term_rgb(TermColor::Indexed(11), reset_default),
        term_rgb(TermColor::LightBlue, reset_default) == xterm_rgb(12),
        term_rgb(TermColor::LightBlue, reset_default) == term_rgb(TermColor::Indexed(12), reset_default),
        term_rgb(TermColor::LightMagenta, reset_default) == xterm_rgb(13),
        term_rgb(TermColor::LightMagenta, reset_default) == term_rgb(TermColor::Indexed(13), reset_default),
        term_rgb(TermColor::LightCyan, reset_default) == xterm_rgb(14),
        term_rgb(TermColor::LightCyan, reset_default) == term_rgb(TermColor::Indexed(14), reset_default),
        term_rgb(TermColor::White, reset_default) == xterm_rgb(15),
        term_rgb(TermColor::White, reset_default) == term_rgb(TermColor::Indexed(15), reset_default),
        xterm_rgb(0) == seq![0u8, 0u8, 0u8],
        xterm_rgb(1) == seq![205u8, 49u8, 49u8],
        xterm_rgb(2) == seq![13u8, 188u8, 121u8],
        xterm_rgb(15) == seq![255u8, 255u8, 255u8],
{
}

/// The xterm colours 16 to 231 are the 6×6×6 cube `16 + 36r + 6g + b`, each step drawn
/// at level 0, 55, 95, 135, 175 or 215; the colours 232 to 255 are greys from 8 up by 10.
pub proof fn lemma_xterm_cube_and_greys(r: u8, g: u8, b: u8, k: u8)
    requires
        r < 6,
        g < 6,
        b < 6,
        k < 24,
    ensures
        ({
            let levels = seq![0u8, 55u8, 95u8, 135u8, 175u8, 215u8];
            xterm_rgb((16 + 36 * r + 6 * g + b) as u8) == seq![levels[r as int], levels[g as int], levels[b as int]]
        }),
        xterm_rgb((232 + k) as u8) == seq![(8 + 10 * k) as u8, (8 + 10 * k) as u8, (8 + 10 * k) as u8],
{
    let i = (16 + 36 * r + 6 * g + b) as u8;
    let j = i - 16;
    assert(j == 36 * r + 6 * g + b);
    assert(j / 36 == r && (j / 6) % 6 == g && j % 6 == b && (j / 36) % 6 == r) by (nonlinear_arith)
        requires
            j == 36 * r + 6 * g + b,
            r < 6,
            g < 6,
            b < 6,
    ;
    let levels = seq![0u8, 55u8, 95u8, 135u8, 175u8, 215u8];
    assert(forall|n: int| 0 <= n < 6 ==> #[trigger] cube_level(n) == levels[n]) by {
        assert(cube_level(0) == levels[0]);
        assert(cube_level(1) == levels[1]);
        assert(cube_level(2) == levels[2]);
        assert(cube_level(3) == levels[3]);
        assert(cube_level(4) == levels[4]);
        assert(cube_level(5) == levels[5]);
    }
    assert(16 <= i < 232);
    assert(xterm_rgb(i) == seq![cube_level(r as int), cube_level(g as int), cube_level(b as int)]);
    assert(xterm_rgb(i) =~= seq![levels[r as int], levels[g as int], levels[b as int]]);
}

} // verus!
