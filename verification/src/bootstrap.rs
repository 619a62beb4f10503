//! The start-up screen: its layout for the terminal size, the block-letter wordmark,
//! and the mascot art drawn with half-block characters.
use vstd::prelude::*;
use crate::chat::{byte_len, char_byte_index};

verus! {

/// A rectangle of terminal cells.
#[derive(Debug, Clone, Copy, PartialEq, Eq, Structural)]
pub struct Rect {
    pub x: u16,
    pub y: u16,
    pub width: u16,
    pub height: u16,
}

/// How much room the start-up screen has.
#[derive(Debug, Clone, Copy, PartialEq, Eq, Structural)]
pub enum BootstrapLayoutMode {
    Compact,
    Standard,
    Full,
    Cinema,
}

/// The layout for an area of `width` by `height` cells: compact up to 100 columns or
/// 30 rows, standard up to 139 or 39, full up to 179 or 49, cinema beyond.
pub open spec fn layout_mode_for(width: u16, height: u16) -> BootstrapLayoutMode {
    if width <= 100 || height <= 30 {
        BootstrapLayoutMode::Compact
    } else if width <= 139 || height <= 39 {
        BootstrapLayoutMode::Standard
    } else if width <= 179 || height <= 49 {
        BootstrapLayoutMode::Full
    } else {
        BootstrapLayoutMode::Cinema
    }
}

impl BootstrapLayoutMode {
    /// The layout for `area`.
    pub fn for_area(area: Rect) -> (r: BootstrapLayoutMode)
        ensures
            r == layout_mode_for(area.width, area.height),
    {
        if area.width <= 100 || area.height <= 30 {
            BootstrapLayoutMode::Compact
        } else if area.width <= 139 || area.height <= 39 {
            BootstrapLayoutMode::Standard
        } else if area.width <= 179 || area.height <= 49 {
            BootstrapLayoutMode::Full
        } else {
            BootstrapLayoutMode::Cinema
        }
    }
}

/// A line of the wordmark and how far it is shifted right.
#[derive(Debug, Clone)]
pub struct BootstrapWordmarkLine {
    pub text: String,
    pub offset: i16,
}

/// The wordmark of a frame: its lines, and the phase of its accent colour.
#[derive(Debug, Clone)]
pub struct BootstrapWordmark {
    pub lines: Vec<BootstrapWordmarkLine>,
    pub accent_phase: usize,
}

/// The five lines of the block-letter wordmark.
pub open spec fn wordmark_text() -> Seq<Seq<char>> {
    seq![
        " ██████  ██    ██  ██████  ██████  ██████"@,
        "██    ██ ██    ██ ██    ██ ██   ██ ██   ██"@,
        "██    ██ ██    ██ ██    ██ ██████  ██████"@,
        "██ ▄▄ ██ ██    ██ ██    ██ ██   ██ ██"@,
        " ██████   ██████   ██████  ██   ██ ██"@,
    ]
}

/// The shift of wordmark line `line` at frame `frame_index`: the outer lines move one
/// cell right on three frames of four, the second and fourth on two of four, the middle
/// one never.
pub open spec fn wordmark_offset(frame_index: nat, line: int) -> i16 {
    let pulse = frame_index % 4;
    if line == 0 || line == 4 {
        if pulse < 1 {
            pulse as i16
        } else {
            1
        }
    } else if line == 1 || line == 3 {
        if pulse / 2 < 1 {
            (pulse / 2) as i16
        } else {
            1
        }
    } else {
        0
    }
}

/// The wordmark shown at frame `frame_index`.
pub fn wordmark(frame_index: usize) -> (r: BootstrapWordmark)
    ensures
        r.accent_phase == frame_index % 10,
        r.lines@.len() == 5,
        forall|i: int|
            0 <= i < 5 ==> #[trigger] r.lines@[i].text@ == wordmark_text()[i]
                && r.lines@[i].offset == wordmark_offset(frame_index as nat, i),
{
    let pulse = (frame_index % 4) as i16;
    let outer: i16 = if pulse < 1 {
        pulse
    } else {
        1
    };
    let inner: i16 = if pulse / 2 < 1 {
        pulse / 2
    } else {
        1
    };
    let mut lines: Vec<BootstrapWordmarkLine> = Vec::new();
    lines.push(
        BootstrapWordmarkLine {
            text: " ██████  ██    ██  ██████  ██████  ██████".to_owned(),
            offset: outer,
        },
    );
    lines.push(
        BootstrapWordmarkLine {
            text: "██    ██ ██    ██ ██    ██ ██   ██ ██   ██".to_owned(),
            offset: inner,
        },
    );
    lines.push(
        BootstrapWordmarkLine {
            text: "██    ██ ██    ██ ██    ██ ██████  ██████".to_owned(),
            offset: 0,
        },
    );
    lines.push(
        BootstrapWordmarkLine { text: "██ ▄▄ ██ ██    ██ ██    ██ ██   ██ ██".to_owned(), offset: inner },
    );
    lines.push(
        BootstrapWordmarkLine { text: " ██████   ██████   ██████  ██   ██ ██".to_owned(), offset: outer },
    );
    BootstrapWordmark { lines, accent_phase: frame_index % 10 }
}

/// The number of the reveal animation's frames.
pub const BOOTSTRAP_REVEAL_FRAMES: usize = 18;

/// The height, in cell rows, of the mascot on the start-up screen: a third of the
/// area's height inside a one-row margin (at least ten rows) when compact; else the
/// height inside margins of a twelfth, less one row (at least twenty rows).
pub open spec fn mascot_rows_for(area: Rect, mode: BootstrapLayoutMode) -> u32 {
    let h = area.height as int;
    match mode {
        BootstrapLayoutMode::Compact => {
            let margin = if 1 < h / 12 {
                1
            } else {
                h / 12
            };
            let inner = if h > 2 * margin {
                h - 2 * margin
            } else {
                0
            };
            if inner / 3 > 10 {
                (inner / 3) as u32
            } else {
                10
            }
        },
        _ => {
            let margin = h / 12;
            let inner = if h > 2 * margin {
                h - 2 * margin
            } else {
                0
            };
            let less = if inner > 1 {
                inner - 1
            } else {
                0
            };
            if less > 20 {
                less as u32
            } else {
                20
            }
        },
    }
}

/// The mascot height for `area` in layout `layout_mode`.
pub fn target_mascot_rows(area: Rect, layout_mode: BootstrapLayoutMode) -> (r: u32)
    ensures
        r == mascot_rows_for(area, layout_mode),
{
    match layout_mode {
        BootstrapLayoutMode::Compact => {
            let margin_y: u16 = if 1 < area.height / 12 {
                1
            } else {
                area.height / 12
            };
            let inner_height = area.height.saturating_sub(margin_y * 2);
            let third = inner_height / 3;
            if third > 10 {
                third as u32
            } else {
                10
            }
        },
        _ => {
            let margin_y = area.height / 12;
            let inner = area.height.saturating_sub(margin_y * 2).saturating_sub(1);
            if inner > 20 {
                inner as u32
            } else {
                20
            }
        },
    }
}

/// What a frame of the start-up screen shows, before the mascot is revealed: the
/// layout, the frame index held at the last reveal frame, the mascot height, the
/// wordmark and the phase badge.
#[derive(Debug, Clone)]
pub struct BootstrapFramePlan {
    pub layout_mode: BootstrapLayoutMode,
    pub frame_index: usize,
    pub mascot_rows: u32,
    pub wordmark: BootstrapWordmark,
    pub phase_badge: String,
}

/// The frame index the reveal animation shows at frame `frame_index`: it stops at the
/// last reveal frame.
pub open spec fn clamped_frame(frame_index: nat) -> nat {
    if frame_index < BOOTSTRAP_REVEAL_FRAMES - 1 {
        frame_index
    } else {
        (BOOTSTRAP_REVEAL_FRAMES - 1) as nat
    }
}

/// The frame index after one tick of the start-up animation: one more, held at the last
/// reveal frame.
pub fn advance_bootstrap_tick(frame_index: usize) -> (r: usize)
    ensures
        r == clamped_frame(frame_index as nat + 1),
{
    let next = frame_index.saturating_add(1);
    if next < BOOTSTRAP_REVEAL_FRAMES - 1 {
        next
    } else {
        BOOTSTRAP_REVEAL_FRAMES - 1
    }
}

/// The start-up screen.
pub struct BootstrapLoader;

impl BootstrapLoader {
    /// The plan of frame `frame_index` in `area` for a phase labelled `phase_label`: the
    /// wordmark follows the clamped frame index plus the label's length in bytes.
    pub fn frame_plan(area: Rect, frame_index: usize, phase_label: &str) -> (r: BootstrapFramePlan)
        requires
            byte_len(phase_label@) <= usize::MAX - BOOTSTRAP_REVEAL_FRAMES,
        ensures
            r.layout_mode == layout_mode_for(area.width, area.height),
            r.frame_index == clamped_frame(frame_index as nat),
            r.mascot_rows == mascot_rows_for(area, r.layout_mode),
            r.wordmark.accent_phase == (r.frame_index + byte_len(phase_label@)) % 10,
            r.wordmark.lines@.len() == 5,
            forall|i: int|
                0 <= i < 5 ==> #[trigger] r.wordmark.lines@[i].text@ == wordmark_text()[i]
                    && r.wordmark.lines@[i].offset == wordmark_offset(
                    (r.frame_index + byte_len(phase_label@)) as nat,
                    i,
                ),
            r.phase_badge@ == phase_label@,
    {
        let layout_mode = BootstrapLayoutMode::for_area(area);
        let clamped = if frame_index < BOOTSTRAP_REVEAL_FRAMES - 1 {
            frame_index
        } else {
            BOOTSTRAP_REVEAL_FRAMES - 1
        };
        let mascot_rows = target_mascot_rows(area, layout_mode);
        proof {
            crate::chat::lemma_byte_len_monotone(phase_label@, 0, phase_label@.len() as int);
            assert(phase_label@.take(phase_label@.len() as int) =~= phase_label@);
        }
        let phase_len = char_byte_index(phase_label, usize::MAX);
        let mark = wordmark(clamped + phase_len);
        let r = BootstrapFramePlan {
            layout_mode,
            frame_index: clamped,
            mascot_rows,
            wordmark: mark,
            phase_badge: phase_label.to_owned(),
        };
        assert forall|i: int| 0 <= i < 5 implies #[trigger] r.wordmark.lines@[i].text@
            == wordmark_text()[i] && r.wordmark.lines@[i].offset == wordmark_offset(
            (r.frame_index + byte_len(phase_label@)) as nat,
            i,
        ) by {
            assert(mark.lines@[i].text@ == wordmark_text()[i]);
        }
        r
    }
}

/// Once the reveal has finished, later frames plan the same screen.
pub proof fn lemma_frames_freeze_after_reveal(i: nat, j: nat)
    requires
        i >= BOOTSTRAP_REVEAL_FRAMES - 1,
        j >= BOOTSTRAP_REVEAL_FRAMES - 1,
    ensures
        clamped_frame(i) == clamped_frame(j),
{
}

/// A larger area never gets a smaller layout class.
pub proof fn lemma_layout_monotone(w1: u16, h1: u16, w2: u16, h2: u16)
    requires
        w1 <= w2,
        h1 <= h2,
    ensures
        layout_rank(layout_mode_for(w1, h1)) <= layout_rank(layout_mode_for(w2, h2)),
{
}

/// The order of the layout classes, from compact to cinema.
pub open spec fn layout_rank(mode: BootstrapLayoutMode) -> int {
    match mode {
        BootstrapLayoutMode::Compact => 0,
        BootstrapLayoutMode::Standard => 1,
        BootstrapLayoutMode::Full => 2,
        BootstrapLayoutMode::Cinema => 3,
    }
}

} // verus!
