use quorp_tui::bootstrap::{
    target_mascot_rows, wordmark, BootstrapFramePlan, BootstrapLayoutMode, BootstrapLoader, Rect,
    BOOTSTRAP_REVEAL_FRAMES,
};
use quorp_tui::mascot::{
    generated_fallback_mascot, load_base_mascot, mascot_source_rows_for_height,
    pixel_pair_to_cell, reveal_noise_bits, rgba_to_cells, ArtColor, BrandArtCell,
};
use quorp_tui::raster::{crop, Raster};

fn rect(width: u16, height: u16) -> Rect {
    Rect { x: 0, y: 0, width, height }
}

/// The plan of a frame and its mascot once the reveal is complete.
fn revealed_frame(area: Rect, frame_index: usize) -> (BootstrapFramePlan, Vec<Vec<BrandArtCell>>) {
    let plan = BootstrapLoader::frame_plan(area, frame_index, "Starting");
    let rows = mascot_source_rows_for_height(plan.mascot_rows);
    (plan, rows)
}

#[test]
fn mascot_raster_is_deterministic() {
    let left = mascot_source_rows_for_height(27);
    let right = mascot_source_rows_for_height(27);
    assert_eq!(left, right);
    assert!(left.len() > 10);
    assert!(left[0].len() > 10);
}

#[test]
fn wordmark_contains_quorp_block_text() {
    let mark = wordmark(4);
    assert!(mark.lines.iter().any(|line| line.text.contains("██████")));
    assert_eq!(mark.accent_phase, 4);
}

#[test]
fn loader_frame_freezes_after_reveal_finishes() {
    let (final_plan, final_rows) = revealed_frame(rect(160, 50), BOOTSTRAP_REVEAL_FRAMES - 1);
    let (later_plan, later_rows) = revealed_frame(rect(160, 50), BOOTSTRAP_REVEAL_FRAMES + 12);
    assert_eq!(final_plan.wordmark.accent_phase, later_plan.wordmark.accent_phase);
    assert_eq!(final_plan.wordmark.lines[0].offset, later_plan.wordmark.lines[0].offset);
    assert_eq!(final_rows, later_rows);
}

#[test]
fn embedded_asset_left_edge_is_dark_after_crop() {
    let image = load_base_mascot();
    let pixel = &image.data[0..4];
    assert!(pixel[0] < 80, "{pixel:?}");
    assert!(pixel[1] < 80, "{pixel:?}");
    assert!(pixel[2] < 80, "{pixel:?}");
}

#[test]
fn wide_layout_mascot_is_materially_larger() {
    let (_, standard) = revealed_frame(rect(120, 40), 2);
    let (_, compact) = revealed_frame(rect(80, 24), 2);
    assert!(standard.len() >= 30);
    assert!(standard.len() > compact.len());
}

#[test]
fn loader_frame_scales_with_layout() {
    let (_, compact) = revealed_frame(rect(100, 30), 2);
    let (_, cinema) = revealed_frame(rect(180, 55), 2);
    assert!(cinema.len() >= compact.len());
    assert!(cinema
        .first()
        .is_some_and(|row| compact.first().is_some_and(|compact_row| row.len() > compact_row.len())));
}

#[test]
fn layout_modes_follow_area() {
    assert_eq!(BootstrapLayoutMode::for_area(rect(100, 60)), BootstrapLayoutMode::Compact);
    assert_eq!(BootstrapLayoutMode::for_area(rect(200, 30)), BootstrapLayoutMode::Compact);
    assert_eq!(BootstrapLayoutMode::for_area(rect(139, 60)), BootstrapLayoutMode::Standard);
    assert_eq!(BootstrapLayoutMode::for_area(rect(179, 60)), BootstrapLayoutMode::Full);
    assert_eq!(BootstrapLayoutMode::for_area(rect(180, 50)), BootstrapLayoutMode::Cinema);
}

#[test]
fn mascot_rows_per_layout() {
    assert_eq!(target_mascot_rows(rect(80, 24), BootstrapLayoutMode::Compact), 10);
    assert_eq!(target_mascot_rows(rect(80, 60), BootstrapLayoutMode::Compact), 19);
    assert_eq!(target_mascot_rows(rect(120, 40), BootstrapLayoutMode::Standard), 33);
    assert_eq!(target_mascot_rows(rect(120, 10), BootstrapLayoutMode::Full), 20);
}

#[test]
fn wordmark_pulses_and_phases() {
    let mark = wordmark(13);
    assert_eq!(mark.lines.len(), 5);
    assert_eq!(mark.accent_phase, 3);
    let offsets: Vec<i16> = mark.lines.iter().map(|line| line.offset).collect();
    assert_eq!(offsets, vec![1, 0, 0, 0, 1]);
    let offsets: Vec<i16> = wordmark(2).lines.iter().map(|line| line.offset).collect();
    assert_eq!(offsets, vec![1, 1, 0, 1, 1]);
    let offsets: Vec<i16> = wordmark(0).lines.iter().map(|line| line.offset).collect();
    assert_eq!(offsets, vec![0, 0, 0, 0, 0]);
}

#[test]
fn frame_plan_holds_last_reveal_frame() {
    let plan = BootstrapLoader::frame_plan(rect(120, 40), 99, "Boot");
    assert_eq!(plan.frame_index, BOOTSTRAP_REVEAL_FRAMES - 1);
    assert_eq!(plan.layout_mode, BootstrapLayoutMode::Standard);
    assert_eq!(plan.mascot_rows, 33);
    assert_eq!(plan.wordmark.accent_phase, (17 + 4) % 10);
    assert_eq!(plan.phase_badge, "Boot");
}

#[test]
fn half_block_cells_from_pixel_pairs() {
    let clear = [0, 0, 0, 0];
    let red = [200, 10, 10, 255];
    let blue = [10, 10, 200, 255];
    assert_eq!(
        pixel_pair_to_cell(clear, clear),
        BrandArtCell { symbol: ' ', fg: ArtColor::Reset, bg: ArtColor::Reset }
    );
    assert_eq!(
        pixel_pair_to_cell(red, clear),
        BrandArtCell { symbol: '▀', fg: ArtColor::Rgb(200, 10, 10), bg: ArtColor::Reset }
    );
    assert_eq!(
        pixel_pair_to_cell(clear, blue),
        BrandArtCell { symbol: '▄', fg: ArtColor::Rgb(10, 10, 200), bg: ArtColor::Reset }
    );
    assert_eq!(
        pixel_pair_to_cell(red, blue),
        BrandArtCell {
            symbol: '▀',
            fg: ArtColor::Rgb(200, 10, 10),
            bg: ArtColor::Rgb(10, 10, 200)
        }
    );
}

#[test]
fn odd_height_image_gets_clear_bottom_half() {
    let image = Raster { width: 1, height: 3, data: vec![1, 2, 3, 255, 4, 5, 6, 255, 7, 8, 9, 255] };
    let rows = rgba_to_cells(&image);
    assert_eq!(rows.len(), 2);
    assert_eq!(rows[1][0], BrandArtCell { symbol: '▀', fg: ArtColor::Rgb(7, 8, 9), bg: ArtColor::Reset });
}

#[test]
fn generated_mascot_has_border_and_eyes() {
    let image = generated_fallback_mascot();
    assert_eq!((image.width, image.height), (96, 128));
    assert_eq!(&image.data[0..4], &[32, 38, 50, 255]);
    let eye = 4 * (40 * 96 + 25);
    assert_eq!(&image.data[eye..eye + 4], &[91, 155, 255, 255]);
    let middle = 4 * (60 * 96 + 48);
    assert_eq!(&image.data[middle..middle + 4], &[53, 67, 96, 255]);
}

#[test]
fn crop_takes_the_requested_window() {
    let image = generated_fallback_mascot();
    let window = crop(&image, 22, 34, 2, 1);
    assert_eq!((window.width, window.height), (2, 1));
    assert_eq!(window.data, vec![91, 155, 255, 255, 91, 155, 255, 255]);
}

#[test]
fn resampled_mascot_matches_requested_height() {
    let rows = mascot_source_rows_for_height(64);
    assert_eq!(rows.len(), 64);
    assert_eq!(rows[0].len(), 96);
    let rows = mascot_source_rows_for_height(3);
    assert_eq!(rows.len(), 8);
    assert_eq!(rows[0].len(), 12);
}

#[test]
fn reveal_noise_is_a_fixed_hash_of_the_position() {
    assert_eq!(reveal_noise_bits(3, 5, 17), 3724038890);
    assert_eq!(reveal_noise_bits(0, 0, 17), 3345653196);
    assert_eq!(reveal_noise_bits(120, 40, 17), 3790572808);
}

#[test]
fn base_mascot_is_the_cropped_generated_art() {
    let base = load_base_mascot();
    assert_eq!((base.width, base.height), (79, 107));
    let generated = generated_fallback_mascot();
    let px = |img: &Raster, x: u32, y: u32| {
        let i = 4 * (y * img.width + x) as usize;
        img.data[i..i + 4].to_vec()
    };
    assert_eq!(px(&base, 0, 0), vec![45, 54, 74, 255]);
    assert_eq!(px(&base, 0, 0), px(&generated, 11, 9));
    assert_eq!(px(&base, 78, 106), px(&generated, 89, 115));
}
