//! The per-component emission policy: a fixed table from component name to
//! minimum severity, applied to the first segment of a record's target.

use vstd::prelude::*;

use crate::severity::{Filter, Severity};

verus! {

/// The character that ends the component segment of a record target.
pub open spec fn delimiter() -> char {
    ':'
}

/// Index of the first delimiter in `s`, or `s.len()` when there is none.
pub open spec fn first_delim(s: Seq<char>) -> int
    decreases s.len(),
{
    if s.len() == 0 {
        0
    } else if s[0] == delimiter() {
        0
    } else {
        1 + first_delim(s.drop_first())
    }
}

/// The component that owns a record target: its first segment, everything
/// before the first delimiter, or the whole target when there is none.
pub open spec fn component_of(target: Seq<char>) -> Seq<char> {
    target.subrange(0, first_delim(target))
}

/// `first_delim` is pinned by what a scan establishes: no delimiter before
/// `i`, and one at `i` unless `i` is the length.
pub proof fn lemma_first_delim_is(s: Seq<char>, i: int)
    requires
        0 <= i <= s.len(),
        forall|j: int| 0 <= j < i ==> s[j] != delimiter(),
        i < s.len() ==> s[i] == delimiter(),
    ensures
        first_delim(s) == i,
    decreases s.len(),
{
    if i == 0 {
    } else {
        assert(s[0] != delimiter());
        let t = s.drop_first();
        assert forall|j: int| 0 <= j < i - 1 implies t[j] != delimiter() by {
            assert(t[j] == s[j + 1]);
        }
        assert(i - 1 < t.len() ==> t[i - 1] == s[i]);
        lemma_first_delim_is(t, i - 1);
    }
}

/// Whether two string slices hold the same characters.
fn str_eq(a: &str, b: &str) -> (r: bool)
    ensures
        r == (a@ == b@),
{
    let na: usize = a.unicode_len();
    let nb: usize = b.unicode_len();
    if na != nb {
        return false;
    }
    let mut i: usize = 0;
    while i < na
        invariant
            0 <= i <= na,
            na == a@.len(),
            na == b@.len(),
            forall|j: int| 0 <= j < i ==> a@[j] == b@[j],
        decreases na - i,
    {
        if a.get_char(i) != b.get_char(i) {
            return false;
        }
        i = i + 1;
    }
    proof {
        assert(a@ =~= b@);
    }
    true
}

/// The compiled-in policy table: the filter configured for `component`, or
/// `None` for a component with no entry. The general-purpose components run
/// under the caller's default filter; the GTK frontend is always on.
pub open spec fn policy_spec(default: Filter, component: Seq<char>) -> Option<Filter> {
    if component == "pop_upgrade"@ {
        Some(default)
    } else if component == "pop_upgrade_gtk"@ {
        Some(Filter::Trace)
    } else if component == "apt_fetcher"@ {
        Some(default)
    } else if component == "apt_cmd"@ {
        Some(default)
    } else if component == "async_fetcher"@ {
        Some(default)
    } else {
        None
    }
}

/// Executable form of `policy_spec`.
pub fn lookup_policy(default: Filter, component: &str) -> (r: Option<Filter>)
    ensures
        r == policy_spec(default, component@),
{
    if str_eq(component, "pop_upgrade") {
        Some(default)
    } else if str_eq(component, "pop_upgrade_gtk") {
        Some(Filter::Trace)
    } else if str_eq(component, "apt_fetcher") {
        Some(default)
    } else if str_eq(component, "apt_cmd") {
        Some(default)
    } else if str_eq(component, "async_fetcher") {
        Some(default)
    } else {
        None
    }
}

/// Whether a record is emitted: its owning component must have a table entry
/// whose filter admits the record's severity.
pub open spec fn should_emit_spec(default: Filter, target: Seq<char>, sev: Severity) -> bool {
    match policy_spec(default, component_of(target)) {
        Some(f) => f.admits(sev),
        None => false,
    }
}

/// The first segment of `target`, before any delimiter.
pub fn component_segment(target: &str) -> (r: &str)
    ensures
        r@ == component_of(target@),
{
    let n: usize = target.unicode_len();
    let mut i: usize = 0;
    while i < n
        invariant
            0 <= i <= n,
            n == target@.len(),
            forall|j: int| 0 <= j < i ==> target@[j] != delimiter(),
        decreases n - i,
    {
        if target.get_char(i) == ':' {
            proof {
                lemma_first_delim_is(target@, i as int);
            }
            return target.substring_char(0, i);
        }
        i = i + 1;
    }
    proof {
        lemma_first_delim_is(target@, n as int);
    }
    target.substring_char(0, n)
}

/// The emission gate: decides from the default filter, the record's target
/// and its severity whether the record is written at all.
pub fn should_emit(default: Filter, target: &str, severity: Severity) -> (r: bool)
    ensures
        r == should_emit_spec(default, target@, severity),
{
    let component = component_segment(target);
    match lookup_policy(default, component) {
        Some(f) => f.admits_exec(severity),
        None => false,
    }
}

/// A component absent from the policy table never has a record emitted,
/// whatever the record's severity and whatever the default filter.
pub proof fn lemma_unknown_component_suppressed(default: Filter, target: Seq<char>, sev: Severity)
    requires
        policy_spec(default, component_of(target)) is None,
    ensures
        !should_emit_spec(default, target, sev),
{
}

/// A component whose table entry is the threshold `t` has exactly the records
/// of severity at least `t` emitted, and the rest suppressed.
pub proof fn lemma_threshold_gate(default: Filter, target: Seq<char>, t: Severity, sev: Severity)
    requires
        policy_spec(default, component_of(target)) == Some(Filter::at_threshold(t)),
    ensures
        should_emit_spec(default, target, sev) == (sev.rank() >= t.rank()),
{
}

/// The GTK frontend component is always on: every record under its name is
/// emitted, whatever its severity and whatever the default filter.
pub proof fn lemma_always_on(default: Filter, sev: Severity)
    ensures
        should_emit_spec(default, "pop_upgrade_gtk"@, sev),
{
    let t = "pop_upgrade_gtk"@;
    reveal_strlit("pop_upgrade_gtk");
    reveal_strlit("pop_upgrade");
    assert forall|j: int| 0 <= j < t.len() implies t[j] != delimiter() by {
        assert(t.len() == 15);
    }
    lemma_first_delim_is(t, t.len() as int);
    assert(component_of(t) =~= t);
    assert(t != "pop_upgrade"@);
}

} // verus!
