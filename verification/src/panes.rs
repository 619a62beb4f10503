//! The panes of the workbench, the overlays drawn over them, and the splitters
//! between them.
use vstd::prelude::*;

verus! {

/// A leaf of the workbench layout: one pane.
#[derive(Debug, Clone, Copy, PartialEq, Eq, Hash, Structural)]
pub struct LeafId(pub usize);

/// The label shown for a pane.
pub open spec fn pane_label(pane: LeafId) -> Seq<char> {
    if pane.0 == 1 {
        "Preview"@
    } else if pane.0 == 2 {
        "Terminal"@
    } else if pane.0 == 3 || pane.0 == 4 {
        "Assistant"@
    } else if pane.0 == 0 {
        "Files"@
    } else {
        "Unknown"@
    }
}

/// The pane focus moves to on `Tab`: Preview, Terminal, Assistant, Files, and back to
/// Preview; the agent pane leads to Files, an unknown pane stays put.
pub open spec fn pane_next(pane: LeafId) -> LeafId {
    if pane.0 == 1 {
        LeafId(2)
    } else if pane.0 == 2 {
        LeafId(3)
    } else if pane.0 == 3 || pane.0 == 4 {
        LeafId(0)
    } else if pane.0 == 0 {
        LeafId(1)
    } else {
        pane
    }
}

/// The pane focus moves to on `Shift+Tab`: the cycle of [`pane_next`] walked
/// backwards; the agent pane leads to the assistant, an unknown pane stays put.
pub open spec fn pane_prev(pane: LeafId) -> LeafId {
    if pane.0 == 1 {
        LeafId(0)
    } else if pane.0 == 2 {
        LeafId(1)
    } else if pane.0 == 3 {
        LeafId(2)
    } else if pane.0 == 0 || pane.0 == 4 {
        LeafId(3)
    } else {
        pane
    }
}

/// Label and `Tab` order of a pane.
pub trait PaneExt: Sized {
    fn display_label(self) -> &'static str;

    fn next(self) -> Self;

    fn prev(self) -> Self;
}

impl PaneExt for LeafId {
    fn display_label(self) -> (r: &'static str)
        ensures
            r@ == pane_label(self),
    {
        crate::pane::display_label(self)
    }

    fn next(self) -> (r: Self)
        ensures
            r == pane_next(self),
    {
        crate::pane::next(self)
    }

    fn prev(self) -> (r: Self)
        ensures
            r == pane_prev(self),
    {
        crate::pane::prev(self)
    }
}

/// `Shift+Tab` undoes `Tab`, and `Tab` undoes `Shift+Tab`, on every pane but the agent
/// pane (which `Tab` leaves for Files, and `Shift+Tab` for the assistant).
pub proof fn lemma_next_prev_inverse(pane: LeafId)
    requires
        pane.0 != 4,
    ensures
        pane_prev(pane_next(pane)) == pane,
        pane_next(pane_prev(pane)) == pane,
{
}

/// Four presses of `Tab`, or of `Shift+Tab`, come back to the pane they started from,
/// on every pane but the agent pane.
pub proof fn lemma_focus_cycle_has_four_panes(pane: LeafId)
    requires
        pane.0 != 4,
    ensures
        pane_next(pane_next(pane_next(pane_next(pane)))) == pane,
        pane_prev(pane_prev(pane_prev(pane_prev(pane)))) == pane,
{
}

/// Every pane leads by `Tab` to one of the four panes of the focus cycle, unless it is
/// unknown, and then it stays put.
pub proof fn lemma_next_enters_cycle(pane: LeafId)
    ensures
        pane.0 <= 4 ==> pane_next(pane).0 <= 3,
        pane.0 > 4 ==> pane_next(pane) == pane,
{
}

/// A floating surface drawn over the workbench.
#[derive(Debug, Clone, Copy, PartialEq, Eq, Structural)]
pub enum Overlay {
    /// No overlay is shown.
    Closed,
    Help,
    ModelPicker,
    Explorer,
    QuickOpen,
    NewThreadPrompt,
    SlashCommandDeck,
    ActionDeck,
}

impl Default for Overlay {
    fn default() -> (r: Overlay)
        ensures
            r == Overlay::Closed,
    {
        Overlay::Closed
    }
}

impl Overlay {
    /// Some overlay is shown.
    pub fn is_active(self) -> (r: bool)
        ensures
            r == !(self is Closed),
    {
        !matches!(self, Overlay::Closed)
    }

    /// The help overlay is shown.
    pub fn is_help(self) -> (r: bool)
        ensures
            r == (self is Help),
    {
        matches!(self, Overlay::Help)
    }
}

/// How a splitter between two panes is drawn.
#[derive(Debug, Clone, Copy, PartialEq, Eq, Structural)]
pub enum SplitterVisualState {
    Idle,
    Hover { index: usize },
    Dragging { index: usize },
}

impl Default for SplitterVisualState {
    fn default() -> (r: SplitterVisualState)
        ensures
            r == SplitterVisualState::Idle,
    {
        SplitterVisualState::Idle
    }
}

} // verus!
