//! The panes of the workbench by name, their labels and their `Tab` order.
use vstd::prelude::*;
use crate::panes::{pane_label, pane_next, pane_prev, LeafId};

verus! {

/// The preview pane.
pub fn editor_pane() -> (r: LeafId)
    ensures
        r == LeafId(1),
{
    LeafId(1)
}

/// The terminal pane.
pub fn terminal() -> (r: LeafId)
    ensures
        r == LeafId(2),
{
    LeafId(2)
}

/// The assistant pane.
pub fn chat() -> (r: LeafId)
    ensures
        r == LeafId(3),
{
    LeafId(3)
}

/// The agent status pane.
pub fn agent() -> (r: LeafId)
    ensures
        r == LeafId(4),
{
    LeafId(4)
}

/// The file tree.
pub fn file_tree() -> (r: LeafId)
    ensures
        r == LeafId(0),
{
    LeafId(0)
}

/// The label shown for `pane`.
pub fn display_label(pane: LeafId) -> (r: &'static str)
    ensures
        r@ == pane_label(pane),
{
    if pane.0 == 1 {
        "Preview"
    } else if pane.0 == 2 {
        "Terminal"
    } else if pane.0 == 3 || pane.0 == 4 {
        "Assistant"
    } else if pane.0 == 0 {
        "Files"
    } else {
        "Unknown"
    }
}

/// The pane `Tab` moves focus to.
pub fn next(pane: LeafId) -> (r: LeafId)
    ensures
        r == pane_next(pane),
{
    if pane.0 == 1 {
        terminal()
    } else if pane.0 == 2 {
        chat()
    } else if pane.0 == 3 || pane.0 == 4 {
        file_tree()
    } else if pane.0 == 0 {
        editor_pane()
    } else {
        pane
    }
}

/// The pane `Shift+Tab` moves focus to.
pub fn prev(pane: LeafId) -> (r: LeafId)
    ensures
        r == pane_prev(pane),
{
    if pane.0 == 1 {
        file_tree()
    } else if pane.0 == 2 {
        editor_pane()
    } else if pane.0 == 3 {
        terminal()
    } else if pane.0 == 0 || pane.0 == 4 {
        chat()
    } else {
        pane
    }
}

} // verus!
