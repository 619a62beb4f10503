//! Which files a patch touches, for the confirmation line shown before it is applied.
use vstd::prelude::*;
use crate::text::{
    chars_of, decimal, decimal_exec, join, push_chars, push_str, find_in, find_in_exec, lemma_find_in_some, matches_at, matches_at_exec, string_of,
    is_ws, trim, trim_bounds, trim_start,
};

verus! {

// ---------------------------------------------------------------------------
// Lines and line endings.
// ---------------------------------------------------------------------------

/// A line without the `\r` of a `\r\n` ending.
pub open spec fn strip_cr(l: Seq<char>) -> Seq<char> {
    if l.len() > 0 && l.last() == '\r' {
        l.drop_last()
    } else {
        l
    }
}

/// The lines of `s[pos..]`, as `str::lines` yields them.
pub open spec fn lines_from(s: Seq<char>, pos: int) -> Seq<Seq<char>>
    decreases s.len() - pos,
{
    if pos < 0 || pos >= s.len() {
        seq![]
    } else {
        proof {
            lemma_find_in_some(s, seq!['\n'], pos, s.len() as int);
        }
        match find_in(s, seq!['\n'], pos, s.len() as int) {
            Some(i) => seq![strip_cr(s.subrange(pos, i))] + lines_from(s, i + 1),
            None => seq![s.subrange(pos, s.len() as int)],
        }
    }
}

/// The lines of `s`, as `str::lines` yields them.
pub open spec fn lines(s: Seq<char>) -> Seq<Seq<char>> {
    lines_from(s, 0)
}

/// `s[pos..]` with every `\r\n` and every other `\r` turned into `\n`.
pub open spec fn normalize_from(s: Seq<char>, pos: int) -> Seq<char>
    decreases s.len() - pos,
{
    if pos < 0 || pos >= s.len() {
        seq![]
    } else if s[pos] == '\r' && pos + 1 < s.len() && s[pos + 1] == '\n' {
        seq!['\n'] + normalize_from(s, pos + 2)
    } else if s[pos] == '\r' {
        seq!['\n'] + normalize_from(s, pos + 1)
    } else {
        seq![s[pos]] + normalize_from(s, pos + 1)
    }
}

/// `s.replace("\r\n", "\n").replace('\r', "\n")`.
pub open spec fn normalize_newlines(s: Seq<char>) -> Seq<char> {
    normalize_from(s, 0)
}

pub open spec fn lines_view(v: Seq<Vec<char>>) -> Seq<Seq<char>> {
    v.map_values(|l: Vec<char>| l@)
}

/// The lines of `s`.
pub fn split_lines(s: &Vec<char>) -> (r: Vec<Vec<char>>)
    ensures
        lines_view(r@) == lines(s@),
{
    let mut out: Vec<Vec<char>> = Vec::new();
    let mut pos: usize = 0;
    let newline = vec!['\n'];
    assert(newline@ =~= seq!['\n']);
    while pos < s.len()
        invariant
            pos <= s.len(),
            newline@ == seq!['\n'],
            lines_view(out@) + lines_from(s@, pos as int) == lines(s@),
        decreases s.len() - pos,
    {
        let ghost old_out = out@;
        proof {
            lemma_find_in_some(s@, seq!['\n'], pos as int, s.len() as int);
        }
        match find_in_exec(s, &newline, pos, s.len()) {
            Some(i) => {
                let mut line = slice_chars(s, pos, i);
                if line.len() > 0 && line[line.len() - 1] == '\r' {
                    line.pop();
                }
                proof {
                    assert(line@ == strip_cr(s@.subrange(pos as int, i as int)));
                }
                out.push(line);
                pos = i + 1;
            },
            None => {
                out.push(slice_chars(s, pos, s.len()));
                pos = s.len();
            },
        }
        assert(lines_view(out@) =~= lines_view(old_out).push(out@.last()@));
    }
    out
}

/// `s[lo..hi]` as a vector.
pub fn slice_chars(s: &Vec<char>, lo: usize, hi: usize) -> (r: Vec<char>)
    requires
        lo <= hi <= s.len(),
    ensures
        r@ == s@.subrange(lo as int, hi as int),
{
    let mut out: Vec<char> = Vec::new();
    let mut i = lo;
    while i < hi
        invariant
            lo <= i <= hi <= s.len(),
            out@ == s@.subrange(lo as int, i as int),
        decreases hi - i,
    {
        out.push(s[i]);
        i += 1;
        assert(out@ =~= s@.subrange(lo as int, i as int));
    }
    out
}

/// `s` with its line endings normalized to `\n`.
pub fn normalize_newlines_exec(s: &Vec<char>) -> (r: Vec<char>)
    ensures
        r@ == normalize_newlines(s@),
{
    let mut out: Vec<char> = Vec::new();
    let mut pos: usize = 0;
    while pos < s.len()
        invariant
            pos <= s.len(),
            out@ + normalize_from(s@, pos as int) == normalize_newlines(s@),
        decreases s.len() - pos,
    {
        let ghost old_out = out@;
        let ghost old_pos = pos as int;
        if s[pos] == '\r' && pos + 1 < s.len() && s[pos + 1] == '\n' {
            out.push('\n');
            pos = pos + 2;
        } else if s[pos] == '\r' {
            out.push('\n');
            pos = pos + 1;
        } else {
            out.push(s[pos]);
            pos = pos + 1;
        }
        assert(normalize_from(s@, old_pos) == seq![out@.last()] + normalize_from(s@, pos as int));
        assert(old_out + normalize_from(s@, old_pos) =~= out@ + normalize_from(s@, pos as int));
    }
    out
}

// ---------------------------------------------------------------------------
// Touched paths.
// ---------------------------------------------------------------------------

/// `ps` with `p` appended, unless `p` is empty or already listed.
pub open spec fn push_unique(ps: Seq<Seq<char>>, p: Seq<char>) -> Seq<Seq<char>> {
    if p.len() == 0 || ps.contains(p) {
        ps
    } else {
        ps.push(p)
    }
}

/// `s` with `prefix` removed from its front, when it starts with it.
pub open spec fn strip_prefix(s: Seq<char>, prefix: Seq<char>) -> Option<Seq<char>> {
    if matches_at(s, prefix, 0) {
        Some(s.subrange(prefix.len() as int, s.len() as int))
    } else {
        None
    }
}

/// A path from a `---` or `+++` header: trimmed, with a leading `a/` or `b/` removed
/// (but `/dev/null` kept as it is).
pub open spec fn strip_patch_prefix(path: Seq<char>) -> Seq<char> {
    let t = trim(path);
    if t == "/dev/null"@ {
        t
    } else {
        match strip_prefix(t, "a/"@) {
            Some(rest) => rest,
            None => match strip_prefix(t, "b/"@) {
                Some(rest) => rest,
                None => t,
            },
        }
    }
}

/// What a reader of a unified diff has seen so far.
pub struct UnifiedScan {
    pub touched: Seq<Seq<char>>,
    pub old_path: Option<Seq<char>>,
    pub rename_from: Option<Seq<char>>,
    pub rename_to: Option<Seq<char>>,
}

pub open spec fn unified_start() -> UnifiedScan {
    UnifiedScan { touched: seq![], old_path: None, rename_from: None, rename_to: None }
}

/// One line of a unified diff.
pub open spec fn unified_step(st: UnifiedScan, line: Seq<char>) -> UnifiedScan {
    if matches_at(line, "diff --git "@, 0) || matches_at(line, "diff -"@, 0) {
        UnifiedScan { touched: st.touched, old_path: None, rename_from: None, rename_to: None }
    } else if let Some(p) = strip_prefix(line, "rename from "@) {
        UnifiedScan { rename_from: Some(trim(p)), ..st }
    } else if let Some(p) = strip_prefix(line, "rename to "@) {
        UnifiedScan { rename_to: Some(trim(p)), ..st }
    } else if let Some(p) = strip_prefix(line, "--- "@) {
        UnifiedScan { old_path: Some(strip_patch_prefix(p)), ..st }
    } else if let Some(p) = strip_prefix(line, "+++ "@) {
        let new_path = strip_patch_prefix(p);
        let touched = if st.rename_from is Some && st.rename_to is Some {
            push_unique(push_unique(st.touched, st.rename_from->0), st.rename_to->0)
        } else if st.old_path == Some("/dev/null"@) {
            push_unique(st.touched, new_path)
        } else if new_path == "/dev/null"@ {
            match st.old_path {
                Some(previous) => push_unique(st.touched, previous),
                None => st.touched,
            }
        } else {
            push_unique(st.touched, new_path)
        };
        UnifiedScan { touched, ..st }
    } else {
        st
    }
}

/// The scan after the given lines.
pub open spec fn unified_scan(ls: Seq<Seq<char>>) -> UnifiedScan
    decreases ls.len(),
{
    if ls.len() == 0 {
        unified_start()
    } else {
        unified_step(unified_scan(ls.drop_last()), ls.last())
    }
}

/// The paths a unified diff touches, in the order they first appear: the new path of
/// each file, the old path of a deleted file, and both sides of a rename.
pub open spec fn unified_touched(patch: Seq<char>) -> Seq<Seq<char>> {
    unified_scan(lines(patch)).touched
}

/// What a reader of a `*** Begin Patch` envelope has seen so far.
pub struct ModelScan {
    pub touched: Seq<Seq<char>>,
    pub in_file: bool,
    pub done: bool,
}

/// One line of a `*** Begin Patch` envelope.
pub open spec fn model_step(st: ModelScan, line: Seq<char>) -> ModelScan {
    if st.done {
        st
    } else if let Some(p) = strip_prefix(line, "*** Begin File: "@) {
        ModelScan { touched: push_unique(st.touched, trim(p)), in_file: true, done: false }
    } else if let Some(p) = strip_prefix(line, "*** Delete File: "@) {
        ModelScan { touched: push_unique(st.touched, trim(p)), in_file: false, done: false }
    } else if let Some(p) = strip_prefix(line, "*** Move To: "@) {
        ModelScan { touched: push_unique(st.touched, trim(p)), ..st }
    } else if line == "*** End File"@ {
        ModelScan { in_file: false, ..st }
    } else if !st.in_file && line == "*** End Patch"@ {
        ModelScan { done: true, ..st }
    } else {
        st
    }
}

pub open spec fn model_scan(ls: Seq<Seq<char>>) -> ModelScan
    decreases ls.len(),
{
    if ls.len() == 0 {
        ModelScan { touched: seq![], in_file: false, done: false }
    } else {
        model_step(model_scan(ls.drop_last()), ls.last())
    }
}

/// The paths a `*** Begin Patch` envelope touches: each begun, deleted or moved-to
/// file, up to the `*** End Patch` line outside a file.
pub open spec fn model_touched(patch: Seq<char>) -> Seq<Seq<char>> {
    model_scan(lines(patch)).touched
}

/// The paths a patch touches: the envelope format when the patch (with its line
/// endings normalized) starts with `*** Begin Patch` after leading whitespace, else
/// the unified diff format.
pub open spec fn touched_paths(patch: Seq<char>) -> Seq<Seq<char>> {
    let n = normalize_newlines(patch);
    if matches_at(trim(n), "*** Begin Patch"@, 0) {
        model_touched(n)
    } else {
        unified_touched(n)
    }
}

// ---------------------------------------------------------------------------
// Executable scans.
// ---------------------------------------------------------------------------

pub fn chars_eq(a: &Vec<char>, b: &Vec<char>) -> (r: bool)
    ensures
        r == (a@ == b@),
{
    if a.len() != b.len() {
        return false;
    }
    let mut i: usize = 0;
    while i < a.len()
        invariant
            a.len() == b.len(),
            i <= a.len(),
            forall|k: int| 0 <= k < i ==> a@[k] == b@[k],
        decreases a.len() - i,
    {
        if a[i] != b[i] {
            return false;
        }
        i += 1;
    }
    assert(a@ =~= b@);
    true
}

pub fn chars_eq_str(a: &Vec<char>, b: &str) -> (r: bool)
    ensures
        r == (a@ == b@),
{
    let bv = chars_of(b);
    chars_eq(a, &bv)
}

fn contains_path(ps: &Vec<Vec<char>>, p: &Vec<char>) -> (r: bool)
    ensures
        r == lines_view(ps@).contains(p@),
{
    let mut i: usize = 0;
    while i < ps.len()
        invariant
            i <= ps.len(),
            forall|k: int| 0 <= k < i ==> ps@[k]@ != p@,
        decreases ps.len() - i,
    {
        if chars_eq(&ps[i], p) {
            assert(lines_view(ps@)[i as int] == p@);
            return true;
        }
        i += 1;
    }
    assert forall|k: int| 0 <= k < lines_view(ps@).len() implies lines_view(ps@)[k] != p@ by {
        assert(lines_view(ps@)[k] == ps@[k]@);
    }
    false
}

/// Appends `p` to `ps` unless it is empty or already listed.
fn push_unique_path(ps: &mut Vec<Vec<char>>, p: &Vec<char>)
    ensures
        lines_view(final(ps)@) == push_unique(lines_view(old(ps)@), p@),
{
    if p.len() == 0 {
        return;
    }
    if contains_path(ps, p) {
        return;
    }
    let ghost before = lines_view(ps@);
    ps.push(p.clone());
    assert(lines_view(ps@) =~= before.push(p@));
}

fn strip_prefix_exec(s: &Vec<char>, prefix: &str) -> (r: Option<Vec<char>>)
    ensures
        match r {
            Some(v) => strip_prefix(s@, prefix@) == Some(v@),
            None => strip_prefix(s@, prefix@) is None,
        },
{
    let p = chars_of(prefix);
    if matches_at_exec(s, &p, 0) {
        Some(slice_chars(s, p.len(), s.len()))
    } else {
        None
    }
}

fn trim_vec(s: &Vec<char>) -> (r: Vec<char>)
    ensures
        r@ == trim(s@),
{
    let (a, b) = trim_bounds(s, 0, s.len());
    assert(s@.subrange(0, s.len() as int) =~= s@);
    slice_chars(s, a, b)
}

fn strip_patch_prefix_exec(path: &Vec<char>) -> (r: Vec<char>)
    ensures
        r@ == strip_patch_prefix(path@),
{
    let t = trim_vec(path);
    if chars_eq_str(&t, "/dev/null") {
        return t;
    }
    match strip_prefix_exec(&t, "a/") {
        Some(rest) => rest,
        None => match strip_prefix_exec(&t, "b/") {
            Some(rest) => rest,
            None => t,
        },
    }
}

pub open spec fn opt_chars(o: Option<Vec<char>>) -> Option<Seq<char>> {
    match o {
        Some(v) => Some(v@),
        None => None,
    }
}

fn collect_unified(lines_v: &Vec<Vec<char>>) -> (r: Vec<Vec<char>>)
    ensures
        lines_view(r@) == unified_scan(lines_view(lines_v@)).touched,
{
    let mut touched: Vec<Vec<char>> = Vec::new();
    let mut old_path: Option<Vec<char>> = None;
    let mut rename_from: Option<Vec<char>> = None;
    let mut rename_to: Option<Vec<char>> = None;
    let mut k: usize = 0;
    assert(lines_view(lines_v@).take(0) =~= seq![]);
    assert(lines_view(touched@) =~= seq![]);
    while k < lines_v.len()
        invariant
            k <= lines_v.len(),
            unified_scan(lines_view(lines_v@).take(k as int)) == (UnifiedScan {
                touched: lines_view(touched@),
                old_path: opt_chars(old_path),
                rename_from: opt_chars(rename_from),
                rename_to: opt_chars(rename_to),
            }),
        decreases lines_v.len() - k,
    {
        let line = &lines_v[k];
        proof {
            let ls = lines_view(lines_v@);
            assert(ls.take(k + 1).drop_last() =~= ls.take(k as int));
            assert(ls.take(k + 1).last() == line@);
        }
        let diff_git = chars_of("diff --git ");
        let diff_dash = chars_of("diff -");
        if matches_at_exec(line, &diff_git, 0) || matches_at_exec(line, &diff_dash, 0) {
            old_path = None;
            rename_from = None;
            rename_to = None;
        } else if let Some(p) = strip_prefix_exec(line, "rename from ") {
            rename_from = Some(trim_vec(&p));
        } else if let Some(p) = strip_prefix_exec(line, "rename to ") {
            rename_to = Some(trim_vec(&p));
        } else if let Some(p) = strip_prefix_exec(line, "--- ") {
            old_path = Some(strip_patch_prefix_exec(&p));
        } else if let Some(p) = strip_prefix_exec(line, "+++ ") {
            let new_path = strip_patch_prefix_exec(&p);
            let old_is_null = match &old_path {
                Some(o) => chars_eq_str(o, "/dev/null"),
                None => false,
            };
            if rename_from.is_some() && rename_to.is_some() {
                let from = rename_from.clone().unwrap();
                let to = rename_to.clone().unwrap();
                push_unique_path(&mut touched, &from);
                push_unique_path(&mut touched, &to);
            } else if old_is_null {
                push_unique_path(&mut touched, &new_path);
            } else if chars_eq_str(&new_path, "/dev/null") {
                match &old_path {
                    Some(previous) => push_unique_path(&mut touched, previous),
                    None => {},
                }
            } else {
                push_unique_path(&mut touched, &new_path);
            }
        }
        k += 1;
    }
    assert(lines_view(lines_v@).take(lines_v.len() as int) =~= lines_view(lines_v@));
    touched
}

fn collect_model(lines_v: &Vec<Vec<char>>) -> (r: Vec<Vec<char>>)
    ensures
        lines_view(r@) == model_scan(lines_view(lines_v@)).touched,
{
    let mut touched: Vec<Vec<char>> = Vec::new();
    let mut in_file = false;
    let mut k: usize = 0;
    assert(lines_view(lines_v@).take(0) =~= seq![]);
    assert(lines_view(touched@) =~= seq![]);
    while k < lines_v.len()
        invariant
            k <= lines_v.len(),
            model_scan(lines_view(lines_v@).take(k as int)) == (ModelScan {
                touched: lines_view(touched@),
                in_file,
                done: false,
            }),
        decreases lines_v.len() - k,
    {
        let line = &lines_v[k];
        proof {
            let ls = lines_view(lines_v@);
            assert(ls.take(k + 1).drop_last() =~= ls.take(k as int));
            assert(ls.take(k + 1).last() == line@);
        }
        if let Some(p) = strip_prefix_exec(line, "*** Begin File: ") {
            let t = trim_vec(&p);
            push_unique_path(&mut touched, &t);
            in_file = true;
        } else if let Some(p) = strip_prefix_exec(line, "*** Delete File: ") {
            let t = trim_vec(&p);
            push_unique_path(&mut touched, &t);
            in_file = false;
        } else if let Some(p) = strip_prefix_exec(line, "*** Move To: ") {
            let t = trim_vec(&p);
            push_unique_path(&mut touched, &t);
        } else if chars_eq_str(line, "*** End File") {
            in_file = false;
        } else if !in_file && chars_eq_str(line, "*** End Patch") {
            proof {
                lemma_model_scan_done(lines_view(lines_v@), k as int + 1);
            }
            return touched;
        }
        k += 1;
    }
    assert(lines_view(lines_v@).take(lines_v.len() as int) =~= lines_view(lines_v@));
    touched
}

/// Once the envelope is closed, later lines change nothing.
pub proof fn lemma_model_scan_done(ls: Seq<Seq<char>>, k: int)
    requires
        0 <= k <= ls.len(),
        model_scan(ls.take(k)).done,
    ensures
        model_scan(ls) == model_scan(ls.take(k)),
    decreases ls.len() - k,
{
    if k < ls.len() {
        assert(ls.take(k + 1).drop_last() =~= ls.take(k));
        lemma_model_scan_done(ls, k + 1);
    } else {
        assert(ls.take(k) =~= ls);
    }
}

fn strings_of(v: &Vec<Vec<char>>) -> (r: Vec<String>)
    ensures
        r@.map_values(|x: String| x@) == lines_view(v@),
{
    let mut out: Vec<String> = Vec::new();
    let mut i: usize = 0;
    while i < v.len()
        invariant
            i <= v.len(),
            out@.map_values(|x: String| x@) == lines_view(v@).take(i as int),
        decreases v.len() - i,
    {
        let ghost old_out = out@;
        out.push(string_of(v[i].as_slice()));
        i += 1;
        assert(out@.map_values(|x: String| x@) =~= old_out.map_values(|x: String| x@).push(
            v@[i - 1]@,
        ));
        assert(out@.map_values(|x: String| x@) =~= lines_view(v@).take(i as int));
    }
    assert(lines_view(v@).take(v.len() as int) =~= lines_view(v@));
    out
}

/// The paths that a patch touches, in the order they first appear, each once.
pub fn collect_patch_touched_paths(patch: &str) -> (r: Vec<String>)
    ensures
        r@.map_values(|x: String| x@) == touched_paths(patch@),
{
    let raw = chars_of(patch);
    let normalized = normalize_newlines_exec(&raw);
    let t = trim_vec(&normalized);
    let begin = chars_of("*** Begin Patch");
    let ls = split_lines(&normalized);
    let paths = if matches_at_exec(&t, &begin, 0) {
        collect_model(&ls)
    } else {
        collect_unified(&ls)
    };
    strings_of(&paths)
}


/// The line that asks to confirm an `apply_patch` of `patch` declared for `path`: the
/// single touched path, or the count and the first three touched paths, or the
/// declared path when the patch names none.
pub open spec fn apply_patch_summary(path: Seq<char>, patch: Seq<char>) -> Seq<char> {
    let t = touched_paths(patch);
    if t.len() == 0 {
        "apply_patch "@ + path
    } else if t.len() == 1 {
        "apply_patch "@ + t[0]
    } else {
        let shown = if t.len() > 3 {
            t.take(3)
        } else {
            t
        };
        let remaining = t.len() - shown.len();
        "apply_patch "@ + decimal(t.len()) + " files: "@ + join(shown, ", "@) + (if remaining
            > 0 {
            ", +"@ + decimal(remaining as nat) + " more"@
        } else {
            seq![]
        })
    }
}

/// The confirmation line for applying `patch`, declared for `path`.
pub fn summarize_apply_patch_confirmation(path: &str, patch: &str) -> (r: String)
    ensures
        r@ == apply_patch_summary(path@, patch@),
{
    let touched = collect_patch_touched_paths(patch);
    let ghost t = touched_paths(patch@);
    assert(touched@.len() == t.len());
    let mut out: Vec<char> = Vec::new();
    push_str(&mut out, "apply_patch ");
    if touched.len() == 0 {
        push_str(&mut out, path);
    } else if touched.len() == 1 {
        assert(touched@[0]@ == t[0]);
        push_str(&mut out, touched[0].as_str());
    } else {
        let total = touched.len();
        let shown_n: usize = if total > 3 {
            3
        } else {
            total
        };
        let ghost shown = if t.len() > 3 {
            t.take(3)
        } else {
            t
        };
        push_chars(&mut out, &decimal_exec(total));
        push_str(&mut out, " files: ");
        let ghost head = out@;
        let mut i: usize = 0;
        while i < shown_n
            invariant
                shown_n <= touched@.len() == t.len(),
                shown.len() == shown_n,
                forall|k: int| 0 <= k < shown_n ==> shown[k] == t[k],
                forall|k: int| 0 <= k < t.len() ==> touched@[k]@ == #[trigger] t[k],
                i <= shown_n,
                out@ == head + join(shown.take(i as int), ", "@),
            decreases shown_n - i,
        {
            let ghost before = out@;
            if i > 0 {
                push_str(&mut out, ", ");
            }
            push_str(&mut out, touched[i].as_str());
            proof {
                let p = shown.take(i + 1);
                assert(p.drop_last() =~= shown.take(i as int));
                assert(p.last() == t[i as int]);
                if i == 0 {
                    assert(join(p, ", "@) == p[0]);
                    assert(shown.take(0) =~= seq![]);
                }
            }
            i += 1;
        }
        assert(shown.take(shown_n as int) =~= shown);
        let remaining = total - shown_n;
        if remaining > 0 {
            push_str(&mut out, ", +");
            push_chars(&mut out, &decimal_exec(remaining));
            push_str(&mut out, " more");
        }
    }
    proof {
        if t.len() > 1 {
            assert(out@ =~= apply_patch_summary(path@, patch@));
        }
    }
    string_of(out.as_slice())
}

/// No `*** End Patch` line before line `j` leaves the envelope open at `j`.
proof fn lemma_model_open_before_end(ls: Seq<Seq<char>>, j: int)
    requires
        0 <= j <= ls.len(),
        forall|i: int| 0 <= i < j ==> ls[i] != "*** End Patch"@,
    ensures
        !model_scan(ls.take(j)).done,
    decreases j,
{
    if j > 0 {
        assert(ls.take(j).drop_last() =~= ls.take(j - 1));
        lemma_model_open_before_end(ls, j - 1);
    }
}

/// A path once listed stays listed through the lines after it.
proof fn lemma_model_touched_kept(ls: Seq<Seq<char>>, k: int, x: Seq<char>)
    requires
        0 <= k <= ls.len(),
        model_scan(ls.take(k)).touched.contains(x),
    ensures
        model_scan(ls).touched.contains(x),
    decreases ls.len() - k,
{
    if k < ls.len() {
        assert(ls.take(k + 1).drop_last() =~= ls.take(k));
        let st = model_scan(ls.take(k));
        assert forall|q: Seq<char>| #[trigger] push_unique(st.touched, q).contains(x) by {
            if !(q.len() == 0 || st.touched.contains(q)) {
                let idx = choose|i: int| 0 <= i < st.touched.len() && st.touched[i] == x;
                assert(st.touched.push(q)[idx] == x);
            }
        }
        lemma_model_touched_kept(ls, k + 1, x);
    } else {
        assert(ls.take(k) =~= ls);
    }
}

/// In a `*** Begin Patch` envelope, every path named on a `*** Begin File: `,
/// `*** Delete File: ` or `*** Move To: ` line before the closing `*** End Patch` is among
/// the touched paths (trimmed; an empty name names nothing).
pub proof fn lemma_envelope_lists_named_paths(patch: Seq<char>, j: int, path: Seq<char>)
    requires
        matches_at(trim(normalize_newlines(patch)), "*** Begin Patch"@, 0),
        0 <= j < lines(normalize_newlines(patch)).len(),
        lines(normalize_newlines(patch))[j] == "*** Begin File: "@ + path
            || lines(normalize_newlines(patch))[j] == "*** Delete File: "@ + path
            || lines(normalize_newlines(patch))[j] == "*** Move To: "@ + path,
        trim(path).len() > 0,
        forall|i: int| 0 <= i < j ==> lines(normalize_newlines(patch))[i] != "*** End Patch"@,
    ensures
        touched_paths(patch).contains(trim(path)),
{
    let ls = lines(normalize_newlines(patch));
    let line = ls[j];
    reveal_strlit("*** Begin File: ");
    reveal_strlit("*** Delete File: ");
    reveal_strlit("*** Move To: ");
    lemma_model_open_before_end(ls, j);
    let st = model_scan(ls.take(j));
    assert(ls.take(j + 1).drop_last() =~= ls.take(j));
    assert(ls.take(j + 1).last() == line);
    let begin = "*** Begin File: "@;
    let delete = "*** Delete File: "@;
    let moved = "*** Move To: "@;
    if line == begin + path {
        assert(line.subrange(0, begin.len() as int) =~= begin);
        assert(line.subrange(begin.len() as int, line.len() as int) =~= path);
    } else if line == delete + path {
        assert(line[4] != begin[4]);
        assert(line.subrange(0, delete.len() as int) =~= delete);
        assert(line.subrange(delete.len() as int, line.len() as int) =~= path);
    } else {
        assert(line[4] != begin[4]);
        assert(line[4] != delete[4]);
        assert(line.subrange(0, moved.len() as int) =~= moved);
        assert(line.subrange(moved.len() as int, line.len() as int) =~= path);
    }
    let after = model_scan(ls.take(j + 1));
    if !st.touched.contains(trim(path)) {
        assert(after.touched.last() == trim(path));
        assert(after.touched[after.touched.len() - 1] == trim(path));
    }
    assert(after.touched.contains(trim(path)));
    lemma_model_touched_kept(ls, j + 1, trim(path));
}

/// A path with no whitespace at either end is its own trim, also after a prefix that
/// starts with no whitespace.
proof fn lemma_trim_keeps(prefix: Seq<char>, path: Seq<char>)
    requires
        path.len() > 0,
        !is_ws(path[0]),
        !is_ws(path.last()),
        prefix.len() == 0 || !is_ws(prefix[0]),
    ensures
        trim(prefix + path) == prefix + path,
{
    let t = prefix + path;
    assert(t[0] == if prefix.len() == 0 { path[0] } else { prefix[0] });
    assert(trim_start(t) == t);
    assert(t.last() == path.last());
}

/// The path a `---` or `+++` header names after `a/` or `b/`.
proof fn lemma_header_path(side: Seq<char>, path: Seq<char>)
    requires
        side == "a/"@ || side == "b/"@,
        path.len() > 0,
        !is_ws(path[0]),
        !is_ws(path.last()),
    ensures
        strip_patch_prefix(side + path) == path,
{
    reveal_strlit("a/");
    reveal_strlit("b/");
    reveal_strlit("/dev/null");
    lemma_trim_keeps(side, path);
    let t = side + path;
    assert(t[0] != "/dev/null"@[0]);
    assert(t.subrange(0, 2) =~= side);
    assert(t.subrange(2, t.len() as int) =~= path);
    if side == "b/"@ {
        assert(t[0] != "a/"@[0]);
    }
}

/// Which branch of a unified-diff reader a `--- ` or `+++ ` line takes.
proof fn lemma_header_line(marker: Seq<char>, rest: Seq<char>)
    requires
        marker == "--- "@ || marker == "+++ "@,
    ensures
        !matches_at(marker + rest, "diff --git "@, 0),
        !matches_at(marker + rest, "diff -"@, 0),
        strip_prefix(marker + rest, "rename from "@) is None,
        strip_prefix(marker + rest, "rename to "@) is None,
        marker == "--- "@ ==> strip_prefix(marker + rest, "--- "@) == Some(rest),
        marker == "+++ "@ ==> strip_prefix(marker + rest, "--- "@) is None,
        marker == "+++ "@ ==> strip_prefix(marker + rest, "+++ "@) == Some(rest),
{
    reveal_strlit("--- ");
    reveal_strlit("+++ ");
    reveal_strlit("diff --git ");
    reveal_strlit("diff -");
    reveal_strlit("rename from ");
    reveal_strlit("rename to ");
    let l = marker + rest;
    assert(l[0] == marker[0]);
    if matches_at(l, "diff --git "@, 0) {
        assert(l.subrange(0, 11)[0] == l[0]);
    }
    if matches_at(l, "diff -"@, 0) {
        assert(l.subrange(0, 6)[0] == l[0]);
    }
    if matches_at(l, "rename from "@, 0) {
        assert(l.subrange(0, 12)[0] == l[0]);
    }
    if matches_at(l, "rename to "@, 0) {
        assert(l.subrange(0, 10)[0] == l[0]);
    }
    assert(l.subrange(0, 4) =~= marker);
    assert(l.subrange(4, l.len() as int) =~= rest);
    if marker == "+++ "@ && matches_at(l, "--- "@, 0) {
        assert(l.subrange(0, 4)[0] == l[0]);
    }
}

/// The header lines split into their marker and what follows it.
proof fn lemma_header_literals(old_path: Seq<char>, new_path: Seq<char>)
    ensures
        "--- a/"@ + old_path == "--- "@ + ("a/"@ + old_path),
        "+++ b/"@ + new_path == "+++ "@ + ("b/"@ + new_path),
        "--- /dev/null"@ == "--- "@ + "/dev/null"@,
        "+++ /dev/null"@ == "+++ "@ + "/dev/null"@,
        strip_patch_prefix("/dev/null"@) == "/dev/null"@,
        "a/"@ != "b/"@,
{
    reveal_strlit("--- a/");
    reveal_strlit("+++ b/");
    reveal_strlit("--- /dev/null");
    reveal_strlit("+++ /dev/null");
    reveal_strlit("--- ");
    reveal_strlit("+++ ");
    reveal_strlit("a/");
    reveal_strlit("b/");
    reveal_strlit("/dev/null");
    assert("--- a/"@ + old_path =~= "--- "@ + ("a/"@ + old_path));
    assert("+++ b/"@ + new_path =~= "+++ "@ + ("b/"@ + new_path));
    assert("--- /dev/null"@ =~= "--- "@ + "/dev/null"@);
    assert("+++ /dev/null"@ =~= "+++ "@ + "/dev/null"@);
    lemma_trim_keeps(Seq::<char>::empty(), "/dev/null"@);
    assert(Seq::<char>::empty() + "/dev/null"@ =~= "/dev/null"@);
    assert("a/"@[0] != "b/"@[0]);
}

/// A `--- ` line records the old path it names.
proof fn lemma_minus_step(st: UnifiedScan, rest: Seq<char>)
    ensures
        unified_step(st, "--- "@ + rest) == (UnifiedScan { old_path: Some(strip_patch_prefix(rest)), ..st }),
{
    lemma_header_line("--- "@, rest);
}

/// A `+++ ` line with no rename pending touches the new path, or the old one when the
/// new is `/dev/null` and the old is not.
proof fn lemma_plus_step(st: UnifiedScan, rest: Seq<char>)
    requires
        st.rename_from is None,
    ensures
        unified_step(st, "+++ "@ + rest).touched == (if st.old_path == Some("/dev/null"@) {
            push_unique(st.touched, strip_patch_prefix(rest))
        } else if strip_patch_prefix(rest) == "/dev/null"@ {
            match st.old_path {
                Some(previous) => push_unique(st.touched, previous),
                None => st.touched,
            }
        } else {
            push_unique(st.touched, strip_patch_prefix(rest))
        }),
{
    lemma_header_line("+++ "@, rest);
}

/// In a unified diff, a file's header names the path it touches: `--- a/OLD` then
/// `+++ b/NEW` touches NEW, a new file (`--- /dev/null` then `+++ b/NEW`) touches NEW, and
/// a deleted file (`--- a/OLD` then `+++ /dev/null`) touches OLD. The paths have no
/// whitespace at either end and are not `/dev/null` themselves.
pub proof fn lemma_unified_header_touches(old_path: Seq<char>, new_path: Seq<char>)
    requires
        old_path.len() > 0 && !is_ws(old_path[0]) && !is_ws(old_path.last()),
        new_path.len() > 0 && !is_ws(new_path[0]) && !is_ws(new_path.last()),
        old_path != "/dev/null"@,
        new_path != "/dev/null"@,
    ensures
        unified_scan(seq!["--- a/"@ + old_path, "+++ b/"@ + new_path]).touched == seq![new_path],
        unified_scan(seq!["--- /dev/null"@, "+++ b/"@ + new_path]).touched == seq![new_path],
        unified_scan(seq!["--- a/"@ + old_path, "+++ /dev/null"@]).touched == seq![old_path],
{
    lemma_header_literals(old_path, new_path);
    lemma_header_path("a/"@, old_path);
    lemma_header_path("b/"@, new_path);
    let old_line = "--- a/"@ + old_path;
    let new_line = "+++ b/"@ + new_path;
    let e = Seq::<Seq<char>>::empty();
    assert(push_unique(e, new_path) =~= seq![new_path]);
    assert(push_unique(e, old_path) =~= seq![old_path]);
    assert(seq![old_line].drop_last() =~= e);
    assert(seq!["--- /dev/null"@].drop_last() =~= e);
    lemma_minus_step(unified_start(), "a/"@ + old_path);
    lemma_minus_step(unified_start(), "/dev/null"@);
    assert(unified_scan(e) == unified_start());
    assert(seq![old_line].last() == old_line);
    assert(unified_scan(seq![old_line]) == unified_step(unified_start(), old_line));
    let s_old = unified_scan(seq![old_line]);
    let s_null = unified_scan(seq!["--- /dev/null"@]);
    assert(s_old == UnifiedScan { old_path: Some(old_path), ..unified_start() });
    assert(s_null == UnifiedScan { old_path: Some("/dev/null"@), ..unified_start() });
    lemma_plus_step(s_old, "b/"@ + new_path);
    lemma_plus_step(s_null, "b/"@ + new_path);
    lemma_plus_step(s_old, "/dev/null"@);
    let l1 = seq![old_line, new_line];
    assert(l1.drop_last() =~= seq![old_line]);
    let l2 = seq!["--- /dev/null"@, new_line];
    assert(l2.drop_last() =~= seq!["--- /dev/null"@]);
    let l3 = seq![old_line, "+++ /dev/null"@];
    assert(l3.drop_last() =~= seq![old_line]);
}

} // verus!
