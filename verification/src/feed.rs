//! Scrolling of the assistant feed: a window of `viewport_lines` lines over
//! `total_lines` lines, which may follow the latest line.
use vstd::prelude::*;

verus! {

/// The scroll state of the assistant feed.
#[derive(Debug, Clone, Copy, PartialEq, Eq, Structural)]
pub struct FeedScroll {
    pub scroll_top: usize,
    pub follow_latest: bool,
    pub total_lines: usize,
    pub viewport_lines: usize,
}

/// `a - b`, or 0 when `b` exceeds `a`.
pub open spec fn sat_sub(a: int, b: int) -> int {
    if a > b {
        a - b
    } else {
        0
    }
}

impl FeedScroll {
    /// The furthest the window can scroll: the lines beyond one viewport (of at least
    /// one line).
    pub open spec fn max_scroll_spec(self) -> int {
        sat_sub(self.total_lines as int, if self.viewport_lines > 1 { self.viewport_lines as int } else { 1 })
    }

    /// How far a page moves: a viewport less one line, at least one line.
    pub open spec fn page_step_spec(self) -> int {
        let s = sat_sub(self.viewport_lines as int, 1);
        if s > 1 {
            s
        } else {
            1
        }
    }

    /// How far the mouse wheel moves: three lines, or the viewport when it is smaller.
    pub open spec fn line_step_spec(self) -> int {
        let v = if self.viewport_lines > 1 {
            self.viewport_lines as int
        } else {
            1
        };
        if 3 < v {
            3
        } else {
            v
        }
    }

    pub fn max_scroll(&self) -> (r: usize)
        ensures
            r == self.max_scroll_spec(),
    {
        let v = if self.viewport_lines > 1 {
            self.viewport_lines
        } else {
            1
        };
        self.total_lines.saturating_sub(v)
    }

    pub fn page_step(&self) -> (r: usize)
        ensures
            r == self.page_step_spec(),
    {
        let s = self.viewport_lines.saturating_sub(1);
        if s > 1 {
            s
        } else {
            1
        }
    }

    pub fn line_step(&self) -> (r: usize)
        ensures
            r == self.line_step_spec(),
    {
        let v = if self.viewport_lines > 1 {
            self.viewport_lines
        } else {
            1
        };
        if 3 < v {
            3
        } else {
            v
        }
    }

    /// Keeps the window within the feed, and at its end while following the latest
    /// line.
    pub fn clamp(&mut self)
        ensures
            final(self).scroll_top == (if old(self).follow_latest || old(self).scroll_top
                > old(self).max_scroll_spec() {
                old(self).max_scroll_spec()
            } else {
                old(self).scroll_top as int
            }),
            final(self).scroll_top <= final(self).max_scroll_spec(),
            final(self).follow_latest == old(self).follow_latest,
            final(self).total_lines == old(self).total_lines,
            final(self).viewport_lines == old(self).viewport_lines,
    {
        let max = self.max_scroll();
        if self.follow_latest || self.scroll_top > max {
            self.scroll_top = max;
        }
    }

    /// Jumps to the end of the feed and follows the latest line.
    pub fn scroll_to_bottom(&mut self)
        ensures
            *final(self) == (FeedScroll {
                follow_latest: true,
                scroll_top: old(self).max_scroll_spec() as usize,
                ..*old(self)
            }),
    {
        self.follow_latest = true;
        self.scroll_top = self.max_scroll();
    }

    /// Scrolls up `delta` lines (not past the top) and stops following.
    pub fn scroll_up_lines(&mut self, delta: usize)
        ensures
            *final(self) == (FeedScroll {
                follow_latest: false,
                scroll_top: sat_sub(old(self).scroll_top as int, delta as int) as usize,
                ..*old(self)
            }),
    {
        self.follow_latest = false;
        self.scroll_top = self.scroll_top.saturating_sub(delta);
    }

    /// Scrolls down `delta` lines, not past the end; reaching the end follows the
    /// latest line again.
    pub fn scroll_down_lines(&mut self, delta: usize)
        ensures
            ({
                let top = if old(self).scroll_top + delta < old(self).max_scroll_spec() {
                    old(self).scroll_top + delta
                } else {
                    old(self).max_scroll_spec()
                };
                *final(self) == (FeedScroll {
                    scroll_top: top as usize,
                    follow_latest: old(self).follow_latest || top >= old(self).max_scroll_spec(),
                    ..*old(self)
                })
            }),
    {
        let max = self.max_scroll();
        let top = if delta > max || self.scroll_top > max - delta {
            max
        } else {
            self.scroll_top + delta
        };
        self.scroll_top = top;
        if top >= max {
            self.follow_latest = true;
        }
    }

    /// Scrolls up a page and stops following.
    pub fn page_up(&mut self)
        ensures
            *final(self) == (FeedScroll {
                follow_latest: false,
                scroll_top: sat_sub(old(self).scroll_top as int, old(self).page_step_spec()) as usize,
                ..*old(self)
            }),
    {
        let step = self.page_step();
        self.scroll_up_lines(step);
    }

    /// Scrolls down a page, not past the end.
    pub fn page_down(&mut self)
        ensures
            ({
                let top = if old(self).scroll_top + old(self).page_step_spec() < old(self).max_scroll_spec() {
                    old(self).scroll_top + old(self).page_step_spec()
                } else {
                    old(self).max_scroll_spec()
                };
                *final(self) == (FeedScroll {
                    scroll_top: top as usize,
                    follow_latest: old(self).follow_latest || top >= old(self).max_scroll_spec(),
                    ..*old(self)
                })
            }),
    {
        let step = self.page_step();
        self.scroll_down_lines(step);
    }

    /// Jumps to the point of the feed that screen row `row` of a scrollbar at rows
    /// `feed_y` to `feed_y + feed_height` stands for; the bottom row's point (or an empty
    /// feed) follows the latest line. A scrollbar of no height does nothing.
    pub fn jump_to_scrollbar_row(&mut self, row: u16, feed_y: u16, feed_height: u16)
        ensures
            feed_height == 0 ==> *final(self) == *old(self),
            feed_height > 0 && old(self).max_scroll_spec() == 0 ==> *final(self) == (FeedScroll {
                follow_latest: true,
                scroll_top: 0,
                ..*old(self)
            }),
            feed_height > 0 && old(self).max_scroll_spec() > 0 ==> ({
                let rel = {
                    let r = sat_sub(row as int, feed_y as int);
                    if r < feed_height - 1 {
                        r
                    } else {
                        feed_height - 1
                    }
                };
                let target = (if old(self).max_scroll_spec() * rel > usize::MAX {
                    usize::MAX as int
                } else {
                    old(self).max_scroll_spec() * rel
                }) / (feed_height as int);
                *final(self) == (FeedScroll {
                    follow_latest: target >= old(self).max_scroll_spec(),
                    scroll_top: (if target < old(self).max_scroll_spec() {
                        target
                    } else {
                        old(self).max_scroll_spec()
                    }) as usize,
                    ..*old(self)
                })
            }),
    {
        if feed_height == 0 {
            return;
        }
        let r = row.saturating_sub(feed_y);
        let last = feed_height - 1;
        let rel = if r < last {
            r
        } else {
            last
        } as usize;
        let max = self.max_scroll();
        if max == 0 {
            self.scroll_to_bottom();
            return;
        }
        let prod = if rel != 0 && max > usize::MAX / rel {
            usize::MAX
        } else {
            assert(max * rel <= usize::MAX) by (nonlinear_arith)
                requires
                    rel == 0 || max <= usize::MAX / rel,
            ;
            max * rel
        };
        assert(rel != 0 && max > usize::MAX / rel ==> max * rel > usize::MAX) by (nonlinear_arith);
        let target = prod / (feed_height as usize);
        self.follow_latest = target >= max;
        self.scroll_top = if target < max {
            target
        } else {
            max
        };
    }
}

} // verus!
