use quorp_tui::glyphs::{
    box_drawing_strokes, color_to_rgb, glyph_inner_rect, glyph_pixel_rects,
    manual_box_drawing_glyphs, xterm_256_to_rgb, CellRasterConfig, GlyphAtlas, Stroke, TermColor,
};

#[test]
fn default_cell_config() {
    assert_eq!(
        CellRasterConfig::default(),
        CellRasterConfig { cell_width: 8, cell_height: 16, padding_x: 0, padding_y: 1 }
    );
}

#[test]
fn atlas_has_ascii_and_box_glyphs() {
    let atlas = GlyphAtlas::new();
    assert_eq!(atlas.glyph_for('A'), Some(&font8x8::legacy::BASIC_LEGACY[65]));
    assert_eq!(atlas.glyph_for('│'), Some(&[0x18, 0x18, 0x18, 0x18, 0x18, 0x18, 0x18, 0x18]));
    assert_eq!(atlas.glyph_for('█'), Some(&[0xFF; 8]));
    assert!(atlas.glyph_for('é').is_none());
    assert!(atlas.glyph_for('☃').is_none());
    assert_eq!(manual_box_drawing_glyphs().len(), 20);
}

#[test]
fn xterm_palette() {
    assert_eq!(xterm_256_to_rgb(1), [205, 49, 49]);
    assert_eq!(xterm_256_to_rgb(16), [0, 0, 0]);
    assert_eq!(xterm_256_to_rgb(21), [0, 0, 215]);
    assert_eq!(xterm_256_to_rgb(196), [215, 0, 0]);
    assert_eq!(xterm_256_to_rgb(17), [0, 0, 55]);
    assert_eq!(xterm_256_to_rgb(231), [215, 215, 215]);
    assert_eq!(xterm_256_to_rgb(232), [8, 8, 8]);
    assert_eq!(xterm_256_to_rgb(255), [238, 238, 238]);
}

#[test]
fn terminal_colours() {
    assert_eq!(color_to_rgb(TermColor::Reset, [24, 24, 28]), [24, 24, 28]);
    assert_eq!(color_to_rgb(TermColor::Black, [1, 2, 3]), [0, 0, 0]);
    assert_eq!(color_to_rgb(TermColor::LightCyan, [1, 2, 3]), [41, 184, 219]);
    assert_eq!(color_to_rgb(TermColor::Rgb(1, 2, 3), [0, 0, 0]), [1, 2, 3]);
    assert_eq!(color_to_rgb(TermColor::Indexed(244), [0, 0, 0]), [128, 128, 128]);
}

#[test]
fn glyph_rectangles() {
    let config = CellRasterConfig::default();
    assert_eq!(glyph_inner_rect(10, 20, 8, 16, config), (10, 21, 8, 14));
    assert_eq!(glyph_inner_rect(0, 0, 1, 1, config), (0, 0, 1, 1));
    let rows = [0b0000_0001u8, 0, 0, 0, 0, 0, 0, 0b1000_0000];
    let rects = glyph_pixel_rects(0, 0, 8, 16, config, &rows);
    assert_eq!(rects, vec![(0, 1, 1, 1), (7, 13, 1, 2)]);
}

#[test]
fn box_drawing_characters_become_strokes() {
    // A 12 by 18 cell at (24, 36): middle (30, 45), inner edges 25..=34 and 37..=52.
    assert_eq!(
        box_drawing_strokes(24, 36, 12, 18, '│'),
        Some(vec![Stroke { x0: 30, y0: 37, x1: 30, y1: 52 }])
    );
    assert_eq!(
        box_drawing_strokes(24, 36, 12, 18, '┌'),
        Some(vec![
            Stroke { x0: 30, y0: 37, x1: 34, y1: 37 },
            Stroke { x0: 25, y0: 37, x1: 25, y1: 45 },
        ])
    );
    assert_eq!(
        box_drawing_strokes(24, 36, 12, 18, '╋'),
        Some(vec![
            Stroke { x0: 25, y0: 45, x1: 34, y1: 45 },
            Stroke { x0: 30, y0: 37, x1: 30, y1: 52 },
        ])
    );
    assert_eq!(box_drawing_strokes(0, 0, 8, 16, 'a'), None);
    // A cell too narrow for inner edges gives an empty horizontal run.
    assert_eq!(
        box_drawing_strokes(0, 0, 1, 16, '─'),
        Some(vec![Stroke { x0: 1, y0: 8, x1: 0, y1: 8 }])
    );
}
