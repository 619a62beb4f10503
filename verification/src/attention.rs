//! Attention leases: requests for the user's decision, with the options offered.
use vstd::prelude::*;
use crate::action_discovery::views;
use crate::text::{chars_of, decimal, decimal_exec, push_chars, push_str, string_of};

verus! {

/// How urgent a lease is.
#[derive(Debug, Clone, Copy, PartialEq, Eq, Structural)]
pub enum LeaseSeverity {
    Info,
    Warning,
    Critical,
}

/// A request for the user's decision.
#[derive(Debug, Clone)]
pub struct AttentionLease {
    pub title: String,
    pub description: String,
    pub severity: LeaseSeverity,
    pub options: Vec<String>,
}

/// The text of the line that offers option `i` (counted from zero).
pub open spec fn option_line(i: nat, option: Seq<char>) -> Seq<char> {
    "│ ["@ + decimal(i + 1) + "] "@ + option
}

/// The text lines of a lease card: a heading, the title, the description, the options
/// numbered from one, and a closing rule.
pub open spec fn lease_lines(title: Seq<char>, description: Seq<char>, options: Seq<Seq<char>>) -> Seq<
    Seq<char>,
> {
    seq!["ATTENTION LEASE"@, "? "@ + title, "│ "@ + description, "├─ OPTIONS"@] + Seq::new(
        options.len(),
        |i: int| option_line(i as nat, options[i]),
    ) + seq!["└────────────"@]
}

impl AttentionLease {
    /// A lease that offers to accept, reject or modify.
    pub fn new(title: String, desc: String, severity: LeaseSeverity) -> (r: AttentionLease)
        ensures
            r.title@ == title@,
            r.description@ == desc@,
            r.severity == severity,
            views(r.options@) == seq!["Accept"@, "Reject"@, "Modify"@],
    {
        let mut options: Vec<String> = Vec::new();
        options.push("Accept".to_owned());
        options.push("Reject".to_owned());
        options.push("Modify".to_owned());
        assert(views(options@) =~= seq!["Accept"@, "Reject"@, "Modify"@]);
        AttentionLease { title, description: desc, severity, options }
    }

    /// The text lines of the lease card, top to bottom.
    pub fn render_text(&self) -> (r: Vec<String>)
        requires
            self.options@.len() < usize::MAX,
        ensures
            views(r@) == lease_lines(self.title@, self.description@, views(self.options@)),
    {
        let mut lines: Vec<String> = Vec::new();
        lines.push("ATTENTION LEASE".to_owned());
        let mut t = chars_of("? ");
        push_str(&mut t, self.title.as_str());
        lines.push(string_of(t.as_slice()));
        let mut d = chars_of("│ ");
        push_str(&mut d, self.description.as_str());
        lines.push(string_of(d.as_slice()));
        lines.push("├─ OPTIONS".to_owned());
        let ghost head = views(lines@);
        assert(head =~= seq![
            "ATTENTION LEASE"@,
            "? "@ + self.title@,
            "│ "@ + self.description@,
            "├─ OPTIONS"@,
        ]);
        let mut i: usize = 0;
        while i < self.options.len()
            invariant
                i <= self.options@.len() < usize::MAX,
                views(lines@) == head + Seq::new(
                    i as nat,
                    |j: int| option_line(j as nat, views(self.options@)[j]),
                ),
            decreases self.options.len() - i,
        {
            let mut l = chars_of("│ [");
            let n = decimal_exec(i + 1);
            push_chars(&mut l, &n);
            push_str(&mut l, "] ");
            push_str(&mut l, self.options[i].as_str());
            let line = string_of(l.as_slice());
            proof {
                crate::action_discovery::lemma_views_push(lines@, line);
            }
            lines.push(line);
            i += 1;
            assert(views(lines@) =~= head + Seq::new(
                i as nat,
                |j: int| option_line(j as nat, views(self.options@)[j]),
            ));
        }
        let last = "└────────────".to_owned();
        proof {
            crate::action_discovery::lemma_views_push(lines@, last);
        }
        lines.push(last);
        assert(views(lines@) =~= lease_lines(self.title@, self.description@, views(self.options@)));
        lines
    }
}

} // verus!
