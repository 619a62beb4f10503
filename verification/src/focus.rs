//! Which pane has the keyboard, and how the workbench's global keys move it: `Tab`,
//! the `Ctrl` + `h`/`j`/`k`/`l` moves, the `Alt` + digit jumps, and the explorer and
//! terminal toggles.
use vstd::prelude::*;
use crate::keys::{KeyCodeInput, KeyInput, KeyPhase};
use crate::panes::{pane_next, pane_prev, LeafId, Overlay};

verus! {

/// Whether the event loop goes on or the application quits.
#[derive(Debug, Clone, Copy, PartialEq, Eq, Structural)]
pub enum KeyFlow {
    Continue,
    Break,
}

/// What a key on the start-up screen does: a released key nothing; `Ctrl+c`, `q` and
/// `Esc` quit; anything else waits.
pub open spec fn bootstrap_flow(key: KeyInput) -> KeyFlow {
    if key.phase == KeyPhase::Release {
        KeyFlow::Continue
    } else if key.modifiers.control && key.code == KeyCodeInput::Char('c') {
        KeyFlow::Break
    } else if key.code == KeyCodeInput::Char('q') || key.code == KeyCodeInput::Esc {
        KeyFlow::Break
    } else {
        KeyFlow::Continue
    }
}

/// What a key on the start-up screen does.
pub fn bootstrap_key_flow(key: &KeyInput) -> (r: KeyFlow)
    ensures
        r == bootstrap_flow(*key),
{
    if key.phase == KeyPhase::Release {
        KeyFlow::Continue
    } else if key.modifiers.control && key.code == KeyCodeInput::Char('c') {
        KeyFlow::Break
    } else if key.code == KeyCodeInput::Char('q') || key.code == KeyCodeInput::Esc {
        KeyFlow::Break
    } else {
        KeyFlow::Continue
    }
}

/// What a change of focus asks of the terminal pane.
#[derive(Debug, Clone, Copy, PartialEq, Eq, Structural)]
pub struct TerminalEffect {
    /// The terminal takes the keyboard in capture mode.
    pub enter_capture: bool,
    /// The terminal leaves capture mode for navigation mode.
    pub enter_navigation: bool,
    /// The terminal gained (`Some(true)`) or lost (`Some(false)`) the focus.
    pub focus_notice: Option<bool>,
}

/// No effect on the terminal.
pub open spec fn no_effect() -> TerminalEffect {
    TerminalEffect { enter_capture: false, enter_navigation: false, focus_notice: None }
}

/// The panes that can be the last pane left of the files: preview, terminal, assistant.
pub open spec fn is_left_pane(pane: LeafId) -> bool {
    pane.0 == 1 || pane.0 == 2 || pane.0 == 3
}

/// The focus state of the workbench.
#[derive(Debug, Clone, Copy, PartialEq, Eq, Structural)]
pub struct FocusState {
    pub focused: LeafId,
    /// The pane whose tab strip has the keyboard, if any.
    pub tab_strip_focus: Option<LeafId>,
    pub compact_ui: bool,
    /// The pane focus returns to when it leaves the files to the right.
    pub last_left_pane: LeafId,
    /// The pane focus moves to on the right of the preview, terminal and agent panes.
    pub right_pane: LeafId,
    pub overlay: Overlay,
    pub explorer_collapsed: bool,
    pub terminal_dock_open: bool,
}

/// The state after focusing `pane`: a tab strip of another pane loses the keyboard;
/// in a compact layout the agent pane is shown as the assistant; the preview, terminal
/// and assistant become the last pane left of the files.
pub open spec fn focus_after(s: FocusState, pane: LeafId) -> FocusState {
    FocusState {
        tab_strip_focus: match s.tab_strip_focus {
            Some(leaf) => if leaf != pane {
                None
            } else {
                Some(leaf)
            },
            None => None,
        },
        focused: if s.compact_ui && pane.0 == 4 {
            LeafId(3)
        } else {
            pane
        },
        last_left_pane: if is_left_pane(pane) {
            pane
        } else {
            s.last_left_pane
        },
        ..s
    }
}

/// What focusing `pane` from state `s` asks of the terminal: capture when it gets the
/// focus, and a notice when it gains or loses it.
pub open spec fn focus_effect(s: FocusState, pane: LeafId) -> TerminalEffect {
    let now = focus_after(s, pane).focused;
    TerminalEffect {
        enter_capture: now.0 == 2,
        enter_navigation: false,
        focus_notice: if s.focused.0 == 2 && now.0 != 2 {
            Some(false)
        } else if s.focused.0 != 2 && now.0 == 2 {
            Some(true)
        } else {
            None
        },
    }
}

/// The state and terminal effect after the `Ctrl`-move `dir` (0 left, 1 right, 2 down,
/// 3 up); `None` when the move leaves the focus where it is.
pub open spec fn navigated(s: FocusState, dir: int) -> Option<(FocusState, TerminalEffect)> {
    let f = s.focused.0;
    let target: Option<LeafId> = if dir == 0 {
        if f == 1 || f == 2 || f == 3 {
            Some(LeafId(0))
        } else {
            None
        }
    } else if dir == 1 {
        if f == 0 {
            Some(s.last_left_pane)
        } else if f == 1 || f == 2 || f == 4 {
            Some(s.right_pane)
        } else {
            None
        }
    } else if dir == 2 {
        if f == 1 {
            Some(LeafId(2))
        } else if f == 2 {
            Some(LeafId(3))
        } else {
            None
        }
    } else {
        if f == 2 {
            Some(LeafId(1))
        } else if f == 3 {
            Some(LeafId(2))
        } else if f == 4 {
            Some(LeafId(3))
        } else {
            None
        }
    };
    match target {
        None => None,
        Some(p) => {
            let base = if dir == 0 {
                FocusState { last_left_pane: s.focused, ..s }
            } else {
                s
            };
            Some((focus_after(base, p), focus_effect(base, p)))
        },
    }
}

/// The direction of a `Ctrl`-move key: `h`/left, `l`/right, `j`/down, `k`/up.
pub open spec fn vim_direction(code: KeyCodeInput) -> Option<int> {
    match code {
        KeyCodeInput::Char(c) => if c == 'h' || c == 'H' {
            Some(0)
        } else if c == 'l' || c == 'L' {
            Some(1)
        } else if c == 'j' || c == 'J' {
            Some(2)
        } else if c == 'k' || c == 'K' {
            Some(3)
        } else {
            None
        },
        KeyCodeInput::Left => Some(0),
        KeyCodeInput::Right => Some(1),
        KeyCodeInput::Down => Some(2),
        KeyCodeInput::Up => Some(3),
        _ => None,
    }
}

impl FocusState {
    /// Focuses `pane` and answers what that asks of the terminal.
    pub fn set_focus(&mut self, pane: LeafId) -> (effect: TerminalEffect)
        ensures
            *final(self) == focus_after(*old(self), pane),
            effect == focus_effect(*old(self), pane),
    {
        let previous = self.focused;
        match self.tab_strip_focus {
            Some(leaf) => {
                if leaf != pane {
                    self.tab_strip_focus = None;
                }
            },
            None => {},
        }
        self.focused = if self.compact_ui && pane.0 == 4 {
            LeafId(3)
        } else {
            pane
        };
        if pane.0 == 1 || pane.0 == 2 || pane.0 == 3 {
            self.last_left_pane = pane;
        }
        let now = self.focused;
        TerminalEffect {
            enter_capture: now.0 == 2,
            enter_navigation: false,
            focus_notice: if previous.0 == 2 && now.0 != 2 {
                Some(false)
            } else if previous.0 != 2 && now.0 == 2 {
                Some(true)
            } else {
                None
            },
        }
    }

    /// Moves the focus in direction `dir` (0 left, 1 right, 2 down, 3 up); answers the
    /// terminal effect when the focus moved.
    pub fn navigate(&mut self, dir: u8) -> (r: Option<TerminalEffect>)
        requires
            dir < 4,
        ensures
            match navigated(*old(self), dir as int) {
                Some((s, e)) => r == Some(e) && *final(self) == s,
                None => r is None && *final(self) == *old(self),
            },
    {
        let f = self.focused.0;
        let target: Option<LeafId> = if dir == 0 {
            if f == 1 || f == 2 || f == 3 {
                Some(LeafId(0))
            } else {
                None
            }
        } else if dir == 1 {
            if f == 0 {
                Some(self.last_left_pane)
            } else if f == 1 || f == 2 || f == 4 {
                Some(self.right_pane)
            } else {
                None
            }
        } else if dir == 2 {
            if f == 1 {
                Some(LeafId(2))
            } else if f == 2 {
                Some(LeafId(3))
            } else {
                None
            }
        } else {
            if f == 2 {
                Some(LeafId(1))
            } else if f == 3 {
                Some(LeafId(2))
            } else if f == 4 {
                Some(LeafId(3))
            } else {
                None
            }
        };
        match target {
            None => None,
            Some(p) => {
                if dir == 0 {
                    self.last_left_pane = self.focused;
                }
                Some(self.set_focus(p))
            },
        }
    }

    /// Handles a `Ctrl`-move key; answers `None` when the key is not one (the state is
    /// then unchanged), else the effect of the move (no effect when the focus could not
    /// move that way).
    pub fn try_handle_vim_pane_navigation(&mut self, key: &KeyInput) -> (r: Option<TerminalEffect>)
        ensures
            !key.modifiers.control || vim_direction(key.code) is None ==> r is None && *final(self)
                == *old(self),
            key.modifiers.control ==> (vim_direction(key.code) matches Some(d) ==> match navigated(
                *old(self),
                d,
            ) {
                Some((s, e)) => r == Some(e) && *final(self) == s,
                None => r == Some(no_effect()) && *final(self) == *old(self),
            }),
    {
        if !key.modifiers.control {
            return None;
        }
        let dir: u8 = match key.code {
            KeyCodeInput::Char(c) => if c == 'h' || c == 'H' {
                0
            } else if c == 'l' || c == 'L' {
                1
            } else if c == 'j' || c == 'J' {
                2
            } else if c == 'k' || c == 'K' {
                3
            } else {
                return None;
            },
            KeyCodeInput::Left => 0,
            KeyCodeInput::Right => 1,
            KeyCodeInput::Down => 2,
            KeyCodeInput::Up => 3,
            _ => return None,
        };
        match self.navigate(dir) {
            Some(e) => Some(e),
            None => Some(TerminalEffect { enter_capture: false, enter_navigation: false, focus_notice: None }),
        }
    }

    /// `Alt` + `digit`: 1 focuses the files (shown as an overlay in a compact layout);
    /// 2 the preview, 3 the assistant and 4 the terminal (opening its dock), closing any
    /// overlay. Answers `None` for another digit.
    pub fn jump_with_alt(&mut self, digit: char) -> (r: Option<TerminalEffect>)
        ensures
            digit == '1' ==> ({
                let s = focus_after(*old(self), LeafId(0));
                &&& r == Some(focus_effect(*old(self), LeafId(0)))
                &&& *final(self) == (if old(self).compact_ui {
                    FocusState { overlay: Overlay::Explorer, ..s }
                } else {
                    s
                })
            }),
            digit == '2' ==> ({
                let base = FocusState { overlay: Overlay::Closed, ..*old(self) };
                r == Some(focus_effect(base, LeafId(1))) && *final(self) == focus_after(base, LeafId(1))
            }),
            digit == '3' ==> ({
                let base = FocusState { overlay: Overlay::Closed, ..*old(self) };
                r == Some(focus_effect(base, LeafId(3))) && *final(self) == focus_after(base, LeafId(3))
            }),
            digit == '4' ==> ({
                let base = FocusState { overlay: Overlay::Closed, terminal_dock_open: true, ..*old(self) };
                r == Some(focus_effect(base, LeafId(2))) && *final(self) == focus_after(base, LeafId(2))
            }),
            !(digit == '1' || digit == '2' || digit == '3' || digit == '4') ==> r is None
                && *final(self) == *old(self),
    {
        if digit == '1' {
            let e = self.set_focus(LeafId(0));
            if self.compact_ui {
                self.overlay = Overlay::Explorer;
            }
            Some(e)
        } else if digit == '2' {
            self.overlay = Overlay::Closed;
            Some(self.set_focus(LeafId(1)))
        } else if digit == '3' {
            self.overlay = Overlay::Closed;
            Some(self.set_focus(LeafId(3)))
        } else if digit == '4' {
            self.overlay = Overlay::Closed;
            self.terminal_dock_open = true;
            Some(self.set_focus(LeafId(2)))
        } else {
            None
        }
    }

    /// `Ctrl+b`: in a compact layout the explorer overlay opens or closes and the files
    /// take the focus; otherwise the explorer column collapses or expands, and focus on
    /// the files moves to the preview when it collapses.
    pub fn toggle_explorer(&mut self) -> (effect: TerminalEffect)
        ensures
            old(self).compact_ui ==> ({
                let base = FocusState {
                    overlay: if old(self).overlay == Overlay::Explorer {
                        Overlay::Closed
                    } else {
                        Overlay::Explorer
                    },
                    ..*old(self)
                };
                *final(self) == focus_after(base, LeafId(0)) && effect == focus_effect(base, LeafId(0))
            }),
            !old(self).compact_ui ==> ({
                let base = FocusState { explorer_collapsed: !old(self).explorer_collapsed, ..*old(self) };
                if base.explorer_collapsed && base.focused.0 == 0 {
                    *final(self) == focus_after(base, LeafId(1)) && effect == focus_effect(base, LeafId(1))
                } else {
                    *final(self) == base && effect == no_effect()
                }
            }),
    {
        if self.compact_ui {
            self.overlay = if self.overlay == Overlay::Explorer {
                Overlay::Closed
            } else {
                Overlay::Explorer
            };
            self.set_focus(LeafId(0))
        } else {
            self.explorer_collapsed = !self.explorer_collapsed;
            if self.explorer_collapsed && self.focused.0 == 0 {
                self.set_focus(LeafId(1))
            } else {
                TerminalEffect { enter_capture: false, enter_navigation: false, focus_notice: None }
            }
        }
    }

    /// ``Ctrl+` ``: the terminal dock opens (and the terminal takes the focus) or closes
    /// (and focus on the terminal moves to the preview). While the terminal captures
    /// keys, closing the dock also returns it to navigation mode.
    pub fn toggle_terminal_dock(&mut self, capturing: bool) -> (effect: TerminalEffect)
        ensures
            ({
                let base = FocusState { terminal_dock_open: !old(self).terminal_dock_open, ..*old(self) };
                if capturing {
                    if !base.terminal_dock_open {
                        *final(self) == focus_after(base, LeafId(1)) && effect == TerminalEffect {
                            enter_navigation: true,
                            ..focus_effect(base, LeafId(1))
                        }
                    } else {
                        *final(self) == base && effect == no_effect()
                    }
                } else if base.terminal_dock_open {
                    *final(self) == focus_after(base, LeafId(2)) && effect == focus_effect(base, LeafId(2))
                } else if base.focused.0 == 2 {
                    *final(self) == focus_after(base, LeafId(1)) && effect == focus_effect(base, LeafId(1))
                } else {
                    *final(self) == base && effect == no_effect()
                }
            }),
    {
        self.terminal_dock_open = !self.terminal_dock_open;
        if capturing {
            if !self.terminal_dock_open {
                let e = self.set_focus(LeafId(1));
                TerminalEffect { enter_navigation: true, ..e }
            } else {
                TerminalEffect { enter_capture: false, enter_navigation: false, focus_notice: None }
            }
        } else if self.terminal_dock_open {
            self.set_focus(LeafId(2))
        } else if self.focused.0 == 2 {
            self.set_focus(LeafId(1))
        } else {
            TerminalEffect { enter_capture: false, enter_navigation: false, focus_notice: None }
        }
    }

    /// `Tab` and `Shift+Tab` (or back-tab) when no other handler took them: focus moves
    /// to the next or previous pane, unless a tab strip has the keyboard. Answers
    /// `None` for another key.
    pub fn cycle_focus_with_tab(&mut self, key: &KeyInput) -> (r: Option<TerminalEffect>)
        ensures
            !(key.code == KeyCodeInput::Tab || key.code == KeyCodeInput::BackTab) ==> r is None
                && *final(self) == *old(self),
            (key.code == KeyCodeInput::Tab || key.code == KeyCodeInput::BackTab)
                && old(self).tab_strip_focus is Some ==> r == Some(no_effect()) && *final(self)
                == *old(self),
            (key.code == KeyCodeInput::Tab || key.code == KeyCodeInput::BackTab)
                && old(self).tab_strip_focus is None ==> ({
                let target = if key.code == KeyCodeInput::BackTab || key.modifiers.shift {
                    pane_prev(old(self).focused)
                } else {
                    pane_next(old(self).focused)
                };
                r == Some(focus_effect(*old(self), target)) && *final(self) == focus_after(
                    *old(self),
                    target,
                )
            }),
    {
        if !(key.code == KeyCodeInput::Tab || key.code == KeyCodeInput::BackTab) {
            return None;
        }
        if self.tab_strip_focus.is_some() {
            return Some(TerminalEffect { enter_capture: false, enter_navigation: false, focus_notice: None });
        }
        let target = if key.code == KeyCodeInput::BackTab || key.modifiers.shift {
            crate::pane::prev(self.focused)
        } else {
            crate::pane::next(self.focused)
        };
        Some(self.set_focus(target))
    }

    /// `Esc` when no other handler took it: a focused tab strip lets go of the
    /// keyboard; else, with no overlay open, a user-chosen rail view (outside the
    /// legacy workbench) is cleared; else the application quits. Answers the flow and
    /// whether to clear the rail view.
    pub fn escape(&mut self, rail_override: bool, legacy_workbench: bool) -> (r: (KeyFlow, bool))
        ensures
            old(self).tab_strip_focus is Some ==> r == (KeyFlow::Continue, false) && *final(self)
                == (FocusState { tab_strip_focus: None, ..*old(self) }),
            old(self).tab_strip_focus is None ==> *final(self) == *old(self) && r == (if old(
                self,
            ).overlay == Overlay::Closed && rail_override && !legacy_workbench {
                (KeyFlow::Continue, true)
            } else {
                (KeyFlow::Break, false)
            }),
    {
        if self.tab_strip_focus.is_some() {
            self.tab_strip_focus = None;
            return (KeyFlow::Continue, false);
        }
        if self.overlay == Overlay::Closed && rail_override && !legacy_workbench {
            return (KeyFlow::Continue, true);
        }
        (KeyFlow::Break, false)
    }
}

/// `Ctrl+h` then `Ctrl+l` from the preview, the terminal or the assistant comes back to
/// it, whatever the layout.
pub proof fn lemma_left_then_right_returns(s: FocusState)
    requires
        is_left_pane(s.focused),
    ensures
        navigated(s, 0) matches Some((left, _)) && (navigated(left, 1) matches Some((back, _))
            && back.focused == s.focused),
{
}

/// Focus changes keep the last pane left of the files among the preview, the
/// terminal and the assistant, and in a compact layout never land on the agent pane.
pub proof fn lemma_focus_invariants(s: FocusState, pane: LeafId)
    requires
        is_left_pane(s.last_left_pane),
    ensures
        is_left_pane(focus_after(s, pane).last_left_pane),
        s.compact_ui ==> focus_after(s, pane).focused.0 != 4,
{
}

/// `Tab` then `Shift+Tab` comes back to the focused pane on every pane but the agent
/// pane, when no tab strip has the keyboard and the layout does not map panes.
pub proof fn lemma_tab_then_shift_tab(s: FocusState)
    requires
        s.focused.0 != 4,
        s.tab_strip_focus is None,
    ensures
        focus_after(focus_after(s, pane_next(s.focused)), pane_prev(
            focus_after(s, pane_next(s.focused)).focused,
        )).focused == s.focused,
{
}

} // verus!
