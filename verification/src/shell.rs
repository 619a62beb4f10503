//! The decisions the shell makes around drawing: which part shows the focus, how wide the
//! assistant's feed is laid out, what a change of the feed's content or of the terminal's
//! size does, and the split ratios a drag locks.
use vstd::prelude::*;
use crate::feed::FeedScroll;
use crate::panes::LeafId;

verus! {

/// The part of the shell that shows the keyboard focus.
#[derive(Debug, Clone, Copy, PartialEq, Eq, Structural)]
pub enum ShellFocus {
    Overlay,
    Files,
    Terminal,
    Main,
    Feed,
}

/// The part that shows the focus: an open overlay; else the files, the terminal, the
/// preview (main) or, for the assistant, the agent pane and anything else, the feed.
pub open spec fn shell_focus_of(focused: LeafId, overlay_active: bool) -> ShellFocus {
    if overlay_active {
        ShellFocus::Overlay
    } else if focused.0 == 0 {
        ShellFocus::Files
    } else if focused.0 == 2 {
        ShellFocus::Terminal
    } else if focused.0 == 1 {
        ShellFocus::Main
    } else {
        ShellFocus::Feed
    }
}

/// The part that shows the focus (see [`shell_focus_of`]).
pub fn shell_focus(focused: LeafId, overlay_active: bool) -> (r: ShellFocus)
    ensures
        r == shell_focus_of(focused, overlay_active),
{
    if overlay_active {
        ShellFocus::Overlay
    } else if focused.0 == 0 {
        ShellFocus::Files
    } else if focused.0 == 2 {
        ShellFocus::Terminal
    } else if focused.0 == 1 {
        ShellFocus::Main
    } else {
        ShellFocus::Feed
    }
}

/// The width to lay the feed out again at, after laying it out `width` columns wide gave
/// `rendered_lines` lines for a window of `viewport_lines`: one column narrower, to make
/// room for the scrollbar, when the lines overflow the window and a column can be spared.
pub fn narrower_feed_width(width: usize, rendered_lines: usize, viewport_lines: usize) -> (r: Option<usize>)
    ensures
        r == (if rendered_lines > viewport_lines && width > 1 {
            Some((width - 1) as usize)
        } else {
            None
        }),
{
    if rendered_lines > viewport_lines && width > 1 {
        Some(width - 1)
    } else {
        None
    }
}

impl FeedScroll {
    /// The feed laid out as `line_count` lines (at least one) for a window of
    /// `viewport_lines` (at least one), its scroll then kept within the feed.
    pub fn set_layout(&mut self, line_count: usize, viewport_lines: usize)
        ensures
            final(self).total_lines == (if line_count > 1 {
                line_count
            } else {
                1
            }),
            final(self).viewport_lines == (if viewport_lines > 1 {
                viewport_lines
            } else {
                1
            }),
            final(self).follow_latest == old(self).follow_latest,
            final(self).scroll_top == (if old(self).follow_latest || old(self).scroll_top
                > final(self).max_scroll_spec() {
                final(self).max_scroll_spec()
            } else {
                old(self).scroll_top as int
            }),
    {
        self.total_lines = if line_count > 1 {
            line_count
        } else {
            1
        };
        self.viewport_lines = if viewport_lines > 1 {
            viewport_lines
        } else {
            1
        };
        self.clamp();
    }

    /// The feed's content changed: it follows the latest line when `force_follow`, no link
    /// stays active, and the scroll is kept within the feed.
    pub fn content_changed(&mut self, active_link: &mut Option<usize>, force_follow: bool)
        ensures
            final(self).follow_latest == (old(self).follow_latest || force_follow),
            final(self).total_lines == old(self).total_lines,
            final(self).viewport_lines == old(self).viewport_lines,
            final(self).scroll_top == (if old(self).follow_latest || force_follow || old(
                self,
            ).scroll_top > old(self).max_scroll_spec() {
                old(self).max_scroll_spec()
            } else {
                old(self).scroll_top as int
            }),
            *final(active_link) is None,
    {
        if force_follow {
            self.follow_latest = true;
        }
        *active_link = None;
        self.clamp();
    }
}

/// The split ratios the layout uses, in basis points (vertical, horizontal): those a drag
/// locked, else those of a freshly computed layout.
pub fn split_ratios(lock: Option<(u16, u16)>, fresh: (u16, u16)) -> (r: (u16, u16))
    ensures
        r == (match lock {
            Some(l) => l,
            None => fresh,
        }),
{
    match lock {
        Some(l) => l,
        None => fresh,
    }
}

/// The ratios a drag of a splitter to `ratio_bp` locks: the vertical ratio for a vertical
/// splitter, else the horizontal one, the other kept from `current`.
pub fn lock_after_drag(current: (u16, u16), vertical: bool, ratio_bp: u16) -> (r: Option<(u16, u16)>)
    ensures
        r == Some(
            if vertical {
                (ratio_bp, current.1)
            } else {
                (current.0, ratio_bp)
            },
        ),
{
    if vertical {
        Some((ratio_bp, current.1))
    } else {
        Some((current.0, ratio_bp))
    }
}

/// The terminal was resized: the ratios a drag locked are let go, so the layout is
/// computed afresh, and the feed is treated as changed (without forcing it to follow).
pub fn handle_resize(lock: &mut Option<(u16, u16)>, feed: &mut FeedScroll, active_link: &mut Option<usize>)
    ensures
        *final(lock) is None,
        *final(active_link) is None,
        final(feed).follow_latest == old(feed).follow_latest,
        final(feed).total_lines == old(feed).total_lines,
        final(feed).viewport_lines == old(feed).viewport_lines,
        final(feed).scroll_top == (if old(feed).follow_latest || old(feed).scroll_top > old(
            feed,
        ).max_scroll_spec() {
            old(feed).max_scroll_spec()
        } else {
            old(feed).scroll_top as int
        }),
{
    *lock = None;
    feed.content_changed(active_link, false);
}

} // verus!
