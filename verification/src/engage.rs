//! Which link of the assistant's feed is active, and which engage target: the keys that
//! move them step through what is on screen, and stop at either end.
use vstd::prelude::*;
use crate::action_discovery::views;
use crate::patch::chars_eq;
use crate::text::chars_of;

verus! {

/// The indices of the links whose rows lie in `[top, end)`, in order.
pub open spec fn visible_links(rows: Seq<usize>, top: int, end: int) -> Seq<usize>
    decreases rows.len(),
{
    if rows.len() == 0 {
        seq![]
    } else {
        let before = visible_links(rows.drop_last(), top, end);
        if top <= rows.last() < end {
            before.push((rows.len() - 1) as usize)
        } else {
            before
        }
    }
}

/// Where `a` first occurs in `s`.
pub open spec fn position_of(s: Seq<usize>, a: usize) -> Option<int>
    decreases s.len(),
{
    if s.len() == 0 {
        None
    } else {
        match position_of(s.drop_last(), a) {
            Some(k) => Some(k),
            None => if s.last() == a {
                Some(s.len() - 1)
            } else {
                None
            },
        }
    }
}

/// The end of the feed's window: its top plus its height, capped at the largest row.
pub open spec fn window_end(top: usize, viewport: usize) -> int {
    if top + viewport > usize::MAX {
        usize::MAX as int
    } else {
        top + viewport
    }
}

/// `a - b`, or 0 when `b` exceeds `a`.
pub open spec fn sat_sub(a: int, b: int) -> int {
    if a > b {
        a - b
    } else {
        0
    }
}

/// The link that becomes active when the selection moves forward (`delta` > 0) or back
/// through the visible links `vis`: from the active one when it is visible, else from
/// the first (forward) or the last; it stops at either end; with one link visible,
/// moving back selects it.
pub open spec fn moved_link(vis: Seq<usize>, active: Option<usize>, delta: int) -> Option<usize> {
    if vis.len() == 0 {
        None
    } else if delta < 0 && vis.len() == 1 {
        Some(vis[0])
    } else {
        let start: int = if delta > 0 {
            0
        } else {
            vis.len() - 1
        };
        let pos: int = match active {
            Some(a) => match position_of(vis, a) {
                Some(k) => k,
                None => start,
            },
            None => start,
        };
        let next: int = if delta > 0 {
            if pos + 1 < vis.len() {
                pos + 1
            } else {
                vis.len() - 1
            }
        } else {
            sat_sub(pos, 1)
        };
        Some(vis[next])
    }
}

/// The link that stays or becomes active after the feed changed: none without links;
/// the active link while it is visible, else the first visible one.
pub open spec fn default_link(rows: Seq<usize>, top: int, end: int, active: Option<usize>) -> Option<usize> {
    let vis = visible_links(rows, top, end);
    let first = if vis.len() > 0 {
        Some(vis[0])
    } else {
        None
    };
    if rows.len() == 0 {
        None
    } else {
        match active {
            None => first,
            Some(a) => if a < rows.len() && top <= rows[a as int] < end {
                Some(a)
            } else {
                first
            },
        }
    }
}

/// The engage target that becomes active when the selection moves forward (`delta` at
/// least 0) or back among `count` targets, from the one at `current`: it stops at either
/// end; without a current one it starts at the first (forward) or the last.
pub open spec fn moved_target(count: int, current: Option<int>, delta: int) -> Option<int> {
    if count == 0 {
        None
    } else {
        match current {
            Some(i) => if delta >= 0 {
                if i + 1 < count {
                    Some(i + 1)
                } else {
                    Some(count - 1)
                }
            } else {
                Some(sat_sub(i, 1))
            },
            None => if delta >= 0 {
                Some(0)
            } else {
                Some(count - 1)
            },
        }
    }
}

/// Where the key `k` first occurs among `keys`.
pub open spec fn key_position(keys: Seq<Seq<char>>, k: Seq<char>) -> Option<int>
    decreases keys.len(),
{
    if keys.len() == 0 {
        None
    } else {
        match key_position(keys.drop_last(), k) {
            Some(i) => Some(i),
            None => if keys.last() == k {
                Some(keys.len() - 1)
            } else {
                None
            },
        }
    }
}

proof fn lemma_visible_links_bounded(rows: Seq<usize>, top: int, end: int)
    ensures
        forall|k: int| 0 <= k < visible_links(rows, top, end).len() ==> visible_links(rows, top, end)[k]
            < rows.len(),
        visible_links(rows, top, end).len() <= rows.len(),
    decreases rows.len(),
{
    if rows.len() > 0 {
        lemma_visible_links_bounded(rows.drop_last(), top, end);
    }
}

/// The indices of the links whose rows lie in `[top, end)`.
fn visible_link_indices(rows: &Vec<usize>, top: usize, end: usize) -> (r: Vec<usize>)
    ensures
        r@ == visible_links(rows@, top as int, end as int),
{
    let mut out: Vec<usize> = Vec::new();
    let mut i: usize = 0;
    while i < rows.len()
        invariant
            i <= rows.len(),
            out@ == visible_links(rows@.take(i as int), top as int, end as int),
        decreases rows.len() - i,
    {
        assert(rows@.take(i as int + 1).drop_last() =~= rows@.take(i as int));
        if top <= rows[i] && rows[i] < end {
            out.push(i);
        }
        i += 1;
    }
    assert(rows@.take(rows.len() as int) =~= rows@);
    out
}

/// Where `a` first occurs in `s`.
fn find_position(s: &Vec<usize>, a: usize) -> (r: Option<usize>)
    ensures
        match position_of(s@, a) {
            Some(k) => r == Some(k as usize),
            None => r is None,
        },
        r matches Some(k) ==> k < s.len(),
        position_of(s@, a) matches Some(k) ==> 0 <= k < s.len(),
{
    proof {
        lemma_position_of_bounded(s@, a);
    }
    let mut i: usize = 0;
    while i < s.len()
        invariant
            i <= s.len(),
            position_of(s@.take(i as int), a) is None,
        decreases s.len() - i,
    {
        assert(s@.take(i as int + 1).drop_last() =~= s@.take(i as int));
        if s[i] == a {
            proof {
                lemma_position_of_prefix(s@, a, i as int + 1);
            }
            return Some(i);
        }
        i += 1;
    }
    assert(s@.take(s.len() as int) =~= s@);
    None
}

proof fn lemma_position_of_bounded(s: Seq<usize>, a: usize)
    ensures
        position_of(s, a) matches Some(k) ==> 0 <= k < s.len(),
    decreases s.len(),
{
    if s.len() > 0 {
        lemma_position_of_bounded(s.drop_last(), a);
    }
}

/// The first position of `a` in `s` is found in any prefix that holds it.
proof fn lemma_position_of_prefix(s: Seq<usize>, a: usize, n: int)
    requires
        0 < n <= s.len(),
        position_of(s.take(n - 1), a) is None,
        s[n - 1] == a,
    ensures
        position_of(s, a) == Some(n - 1),
    decreases s.len(),
{
    assert(s.take(n).drop_last() =~= s.take(n - 1));
    if n < s.len() {
        assert(s.drop_last().take(n) =~= s.take(n));
        assert(s.drop_last().take(n - 1) =~= s.take(n - 1));
        lemma_position_of_prefix(s.drop_last(), a, n);
    } else {
        assert(s.take(n) =~= s);
    }
}

/// Moves the active link of the assistant's feed forward (`delta` > 0) or back through
/// the links visible in the window of `viewport` rows from `scroll_top`; `rows` holds the
/// row of each link. Answers the new active link.
pub fn move_active_assistant_feed_link(
    rows: &Vec<usize>,
    scroll_top: usize,
    viewport: usize,
    active: Option<usize>,
    delta: isize,
) -> (r: Option<usize>)
    ensures
        r == moved_link(visible_links(rows@, scroll_top as int, window_end(scroll_top, viewport)), active, delta as int),
{
    let end = scroll_top.saturating_add(viewport);
    let vis = visible_link_indices(rows, scroll_top, end);
    if vis.len() == 0 {
        return None;
    }
    if delta < 0 && vis.len() == 1 {
        return Some(vis[0]);
    }
    let start: usize = if delta > 0 {
        0
    } else {
        vis.len() - 1
    };
    let pos: usize = match active {
        Some(a) => match find_position(&vis, a) {
            Some(k) => k,
            None => start,
        },
        None => start,
    };
    let next: usize = if delta > 0 {
        if pos + 1 < vis.len() {
            pos + 1
        } else {
            vis.len() - 1
        }
    } else if pos > 1 {
        pos - 1
    } else {
        0
    };
    Some(vis[next])
}

/// The link that stays or becomes active after the feed changed.
pub fn set_default_active_assistant_feed_link(
    rows: &Vec<usize>,
    scroll_top: usize,
    viewport: usize,
    active: Option<usize>,
) -> (r: Option<usize>)
    requires
        scroll_top + viewport <= usize::MAX,
    ensures
        r == default_link(rows@, scroll_top as int, scroll_top + viewport, active),
{
    let end = scroll_top + viewport;
    if rows.len() == 0 {
        return None;
    }
    match active {
        Some(a) => {
            if a < rows.len() && scroll_top <= rows[a] && rows[a] < end {
                return Some(a);
            }
        },
        None => {},
    }
    let vis = visible_link_indices(rows, scroll_top, end);
    if vis.len() > 0 {
        Some(vis[0])
    } else {
        None
    }
}

/// Where the key `k` first occurs among `keys`.
fn find_key(keys: &Vec<String>, k: &str) -> (r: Option<usize>)
    ensures
        match key_position(views(keys@), k@) {
            Some(i) => r == Some(i as usize),
            None => r is None,
        },
{
    let kc = chars_of(k);
    let mut i: usize = 0;
    while i < keys.len()
        invariant
            i <= keys.len(),
            kc@ == k@,
            key_position(views(keys@.take(i as int)), k@) is None,
        decreases keys.len() - i,
    {
        assert(views(keys@.take(i as int + 1)).drop_last() =~= views(keys@.take(i as int)));
        let c = chars_of(keys[i].as_str());
        if chars_eq(&c, &kc) {
            proof {
                assert(views(keys@).take(i as int) =~= views(keys@.take(i as int)));
                lemma_key_position_prefix(views(keys@), k@, i as int + 1);
            }
            return Some(i);
        }
        i += 1;
    }
    assert(keys@.take(keys.len() as int) =~= keys@);
    None
}

/// The first position of `k` among `keys` is found in any prefix that holds it.
proof fn lemma_key_position_prefix(keys: Seq<Seq<char>>, k: Seq<char>, n: int)
    requires
        0 < n <= keys.len(),
        key_position(keys.take(n - 1), k) is None,
        keys[n - 1] == k,
    ensures
        key_position(keys, k) == Some(n - 1),
    decreases keys.len(),
{
    assert(keys.take(n).drop_last() =~= keys.take(n - 1));
    if n < keys.len() {
        assert(keys.drop_last().take(n) =~= keys.take(n));
        assert(keys.drop_last().take(n - 1) =~= keys.take(n - 1));
        lemma_key_position_prefix(keys.drop_last(), k, n);
    } else {
        assert(keys.take(n) =~= keys);
    }
}

/// Moves the active engage target forward (`delta` at least 0) or back among the targets
/// with keys `keys`, from the one whose key is `active`. Answers the index of the new
/// active target, `None` when there are no targets.
pub fn move_active_engage_target(keys: &Vec<String>, active: Option<&str>, delta: isize) -> (r: Option<usize>)
    ensures
        r == (match moved_target(
            keys.len() as int,
            match active {
                Some(k) => key_position(views(keys@), k@),
                None => None,
            },
            delta as int,
        ) {
            Some(i) => Some(i as usize),
            None => None,
        }),
{
    let count = keys.len();
    if count == 0 {
        return None;
    }
    let current = match active {
        Some(k) => find_key(keys, k),
        None => None,
    };
    proof {
        if active is Some {
            lemma_key_position_bounded(views(keys@), active->0@);
        }
    }
    match current {
        Some(i) => if delta >= 0 {
            if i + 1 < count {
                Some(i + 1)
            } else {
                Some(count - 1)
            }
        } else if i > 1 {
            Some(i - 1)
        } else {
            Some(0)
        },
        None => if delta >= 0 {
            Some(0)
        } else {
            Some(count - 1)
        },
    }
}

proof fn lemma_key_position_bounded(keys: Seq<Seq<char>>, k: Seq<char>)
    ensures
        key_position(keys, k) matches Some(i) ==> 0 <= i < keys.len() && keys[i] == k,
    decreases keys.len(),
{
    if keys.len() > 0 {
        lemma_key_position_bounded(keys.drop_last(), k);
    }
}

/// The active link after a move is always one of the visible links, and a move finds
/// one whenever a link is visible.
pub proof fn lemma_moved_link_is_visible(vis: Seq<usize>, active: Option<usize>, delta: int)
    ensures
        moved_link(vis, active, delta) is Some <==> vis.len() > 0,
        moved_link(vis, active, delta) matches Some(l) ==> vis.contains(l),
{
    if vis.len() > 0 {
        if let Some(a) = active {
            lemma_position_of_bounded(vis, a);
        }
        let r = moved_link(vis, active, delta);
        if let Some(l) = r {
            let start: int = if delta > 0 {
                0
            } else {
                vis.len() - 1
            };
            let pos: int = match active {
                Some(a) => match position_of(vis, a) {
                    Some(k) => k,
                    None => start,
                },
                None => start,
            };
            if delta < 0 && vis.len() == 1 {
                assert(vis[0] == l);
            } else {
                let next: int = if delta > 0 {
                    if pos + 1 < vis.len() {
                        pos + 1
                    } else {
                        vis.len() - 1
                    }
                } else {
                    sat_sub(pos, 1)
                };
                assert(vis[next] == l);
            }
        }
    }
}

/// Moving the engage target forward and then back returns to it, unless it was the
/// last; the target chosen is always one of the targets.
pub proof fn lemma_engage_forward_then_back(count: int, i: int)
    requires
        0 <= i,
        i + 1 < count,
    ensures
        moved_target(count, moved_target(count, Some(i), 1), -1) == Some(i),
        forall|c: Option<int>, d: int|
            (c matches Some(j) ==> 0 <= j < count) ==> (#[trigger] moved_target(count, c, d) matches Some(
                k,
            ) && 0 <= k < count),
{
}

} // verus!
