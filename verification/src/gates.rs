//! Compatibility gates: classify the difference between a golden snapshot of
//! a contract's interface and the current one as unchanged, additive,
//! semantic or breaking.
//!
//! Removing a function, storage key or event is breaking; adding one is
//! additive. Removing an error code, or giving an error name a different code,
//! is breaking; adding an error is semantic.

use vstd::prelude::*;
use vstd::string::StringSliceAdditionalSpecFns;
use crate::storage_namespaces::str_equal;

verus! {

/// Result of a compatibility check.
#[derive(Clone, Copy, Debug, PartialEq, Eq, Structural)]
pub enum ChangeClass {
    /// No change.
    Unchanged,
    /// A purely additive change.
    Additive,
    /// A change with possible behavioural effect but no interface break.
    Semantic,
    /// A change that breaks existing callers.
    Breaking,
}

/// Detailed report on a compatibility check.
#[derive(Clone, Debug)]
pub struct CompatibilityReport {
    pub contract_name: &'static str,
    pub class: ChangeClass,
    pub added: Vec<String>,
    pub removed: Vec<String>,
    pub changed: Vec<String>,
}

impl CompatibilityReport {
    /// Whether the change breaks existing callers.
    pub fn is_breaking(&self) -> (r: bool)
        ensures
            r == (self.class == ChangeClass::Breaking),
    {
        self.class == ChangeClass::Breaking
    }

    /// Whether the change is purely additive.
    pub fn is_additive(&self) -> (r: bool)
        ensures
            r == (self.class == ChangeClass::Additive),
    {
        self.class == ChangeClass::Additive
    }
}

/// `s` holds a name with the same bytes as `x`.
pub open spec fn holds_name(s: Seq<&'static str>, x: &'static str) -> bool {
    exists|j: int| 0 <= j < s.len() && (#[trigger] s[j]).spec_bytes() == x.spec_bytes()
}

/// The names of `a[..upto]` that `b` does not hold, in order.
pub open spec fn spec_names_minus(a: Seq<&'static str>, b: Seq<&'static str>, upto: int) -> Seq<&'static str>
    decreases upto,
{
    if upto <= 0 {
        Seq::empty()
    } else {
        let prev = spec_names_minus(a, b, upto - 1);
        if holds_name(b, a[upto - 1]) {
            prev
        } else {
            prev.push(a[upto - 1])
        }
    }
}

/// Whether `s` holds a name with the bytes of `x`.
pub fn contains_name(s: &Vec<&'static str>, x: &'static str) -> (r: bool)
    ensures
        r == holds_name(s@, x),
{
    let mut j: usize = 0;
    while j < s.len()
        invariant
            j <= s@.len(),
            forall|k: int| 0 <= k < j ==> (#[trigger] s@[k]).spec_bytes() != x.spec_bytes(),
        decreases s@.len() - j,
    {
        if str_equal(s[j], x) {
            assert(s@[j as int].spec_bytes() == x.spec_bytes());
            return true;
        }
        j = j + 1;
    }
    false
}

/// The names of `a` that `b` does not hold, in the order of `a`.
pub fn names_minus(a: &Vec<&'static str>, b: &Vec<&'static str>) -> (r: Vec<&'static str>)
    ensures
        r@ == spec_names_minus(a@, b@, a@.len() as int),
{
    let mut out: Vec<&'static str> = Vec::new();
    let mut i: usize = 0;
    while i < a.len()
        invariant
            i <= a@.len(),
            out@ == spec_names_minus(a@, b@, i as int),
        decreases a@.len() - i,
    {
        if !contains_name(b, a[i]) {
            out.push(a[i]);
        }
        i = i + 1;
    }
    out
}

/// The names of `a[..upto]` missing from `b` are none exactly when `b` holds
/// each of them.
proof fn lemma_names_minus_empty_iff(a: Seq<&'static str>, b: Seq<&'static str>, upto: int)
    requires
        0 <= upto <= a.len(),
    ensures
        (spec_names_minus(a, b, upto).len() == 0) <==> (forall|k: int|
            0 <= k < upto ==> holds_name(b, #[trigger] a[k])),
    decreases upto,
{
    if upto > 0 {
        lemma_names_minus_empty_iff(a, b, upto - 1);
    }
}

/// A change of a name set is reported as a removal, and so as breaking,
/// exactly when some golden name is missing from the current snapshot; a
/// change that only adds names never is.
pub proof fn lemma_removal_iff_a_golden_name_is_missing(golden: Seq<&'static str>, current: Seq<&'static str>)
    ensures
        (spec_names_minus(golden, current, golden.len() as int).len() == 0) <==> (forall|k: int|
            0 <= k < golden.len() ==> holds_name(current, #[trigger] golden[k])),
        (forall|k: int| 0 <= k < golden.len() ==> holds_name(current, #[trigger] golden[k]))
            ==> spec_set_class(spec_names_minus(current, golden, current.len() as int).len(), spec_names_minus(golden, current, golden.len() as int).len()) != ChangeClass::Breaking,
{
    lemma_names_minus_empty_iff(golden, current, golden.len() as int);
}

/// Comparing a snapshot of names with itself reports nothing added, nothing
/// removed, and the change as unchanged.
pub proof fn lemma_snapshot_against_itself_is_unchanged(names: Seq<&'static str>)
    ensures
        spec_names_minus(names, names, names.len() as int).len() == 0,
        spec_set_class(
            spec_names_minus(names, names, names.len() as int).len(),
            spec_names_minus(names, names, names.len() as int).len(),
        ) == ChangeClass::Unchanged,
{
    assert forall|k: int| 0 <= k < names.len() implies holds_name(names, #[trigger] names[k]) by {
        assert(names[k].spec_bytes() == names[k].spec_bytes());
    }
    lemma_names_minus_empty_iff(names, names, names.len() as int);
}

/// The owned strings with the same text as `names`, in order.
pub fn to_strings(names: &Vec<&'static str>) -> (r: Vec<String>)
    ensures
        r@.len() == names@.len(),
        forall|i: int| 0 <= i < names@.len() ==> #[trigger] r@[i]@ == names@[i]@,
{
    let mut out: Vec<String> = Vec::new();
    let mut i: usize = 0;
    while i < names.len()
        invariant
            i <= names@.len(),
            out@.len() == i,
            forall|k: int| 0 <= k < i ==> #[trigger] out@[k]@ == names@[k]@,
        decreases names@.len() - i,
    {
        out.push(names[i].to_owned());
        i = i + 1;
    }
    out
}

/// Breaking when something was removed, additive when something was only
/// added, unchanged otherwise.
pub open spec fn spec_set_class(added: nat, removed: nat) -> ChangeClass {
    if removed > 0 {
        ChangeClass::Breaking
    } else if added > 0 {
        ChangeClass::Additive
    } else {
        ChangeClass::Unchanged
    }
}

/// Classifies a change of a name set: functions, storage keys or events.
fn check_names(contract_name: &'static str, golden: &Vec<&'static str>, current: &Vec<&'static str>) -> (r:
    CompatibilityReport)
    ensures
        r.contract_name == contract_name,
        r.added@.len() == spec_names_minus(current@, golden@, current@.len() as int).len(),
        forall|i: int| 0 <= i < r.added@.len() ==> #[trigger] r.added@[i]@ == spec_names_minus(current@, golden@, current@.len() as int)[i]@,
        r.removed@.len() == spec_names_minus(golden@, current@, golden@.len() as int).len(),
        forall|i: int| 0 <= i < r.removed@.len() ==> #[trigger] r.removed@[i]@ == spec_names_minus(golden@, current@, golden@.len() as int)[i]@,
        r.changed@.len() == 0,
        r.class == spec_set_class(r.added@.len(), r.removed@.len()),
{
    let added = names_minus(current, golden);
    let removed = names_minus(golden, current);
    let class = if removed.len() > 0 {
        ChangeClass::Breaking
    } else if added.len() > 0 {
        ChangeClass::Additive
    } else {
        ChangeClass::Unchanged
    };
    CompatibilityReport {
        contract_name,
        class,
        added: to_strings(&added),
        removed: to_strings(&removed),
        changed: Vec::new(),
    }
}

/// Gate for function ABI compatibility: removing a function is breaking,
/// adding one is additive.
pub fn check_abi(contract_name: &'static str, golden: &Vec<&'static str>, current: &Vec<&'static str>) -> (r:
    CompatibilityReport)
    ensures
        r.contract_name == contract_name,
        r.added@.len() == spec_names_minus(current@, golden@, current@.len() as int).len(),
        forall|i: int| 0 <= i < r.added@.len() ==> #[trigger] r.added@[i]@ == spec_names_minus(current@, golden@, current@.len() as int)[i]@,
        r.removed@.len() == spec_names_minus(golden@, current@, golden@.len() as int).len(),
        forall|i: int| 0 <= i < r.removed@.len() ==> #[trigger] r.removed@[i]@ == spec_names_minus(golden@, current@, golden@.len() as int)[i]@,
        r.changed@.len() == 0,
        r.class == spec_set_class(r.added@.len(), r.removed@.len()),
{
    check_names(contract_name, golden, current)
}

/// Gate for storage key compatibility: removing a key is breaking, adding one
/// is additive.
pub fn check_storage(contract_name: &'static str, golden: &Vec<&'static str>, current: &Vec<&'static str>) -> (r:
    CompatibilityReport)
    ensures
        r.contract_name == contract_name,
        r.added@.len() == spec_names_minus(current@, golden@, current@.len() as int).len(),
        forall|i: int| 0 <= i < r.added@.len() ==> #[trigger] r.added@[i]@ == spec_names_minus(current@, golden@, current@.len() as int)[i]@,
        r.removed@.len() == spec_names_minus(golden@, current@, golden@.len() as int).len(),
        forall|i: int| 0 <= i < r.removed@.len() ==> #[trigger] r.removed@[i]@ == spec_names_minus(golden@, current@, golden@.len() as int)[i]@,
        r.changed@.len() == 0,
        r.class == spec_set_class(r.added@.len(), r.removed@.len()),
{
    check_names(contract_name, golden, current)
}

/// Gate for event compatibility: removing an event is breaking, adding one is
/// additive.
pub fn check_events(contract_name: &'static str, golden: &Vec<&'static str>, current: &Vec<&'static str>) -> (r:
    CompatibilityReport)
    ensures
        r.contract_name == contract_name,
        r.added@.len() == spec_names_minus(current@, golden@, current@.len() as int).len(),
        forall|i: int| 0 <= i < r.added@.len() ==> #[trigger] r.added@[i]@ == spec_names_minus(current@, golden@, current@.len() as int)[i]@,
        r.removed@.len() == spec_names_minus(golden@, current@, golden@.len() as int).len(),
        forall|i: int| 0 <= i < r.removed@.len() ==> #[trigger] r.removed@[i]@ == spec_names_minus(golden@, current@, golden@.len() as int)[i]@,
        r.changed@.len() == 0,
        r.class == spec_set_class(r.added@.len(), r.removed@.len()),
{
    check_names(contract_name, golden, current)
}

/// Two published errors are the same entry: same code and same name bytes.
pub open spec fn same_error(x: (u32, &'static str), y: (u32, &'static str)) -> bool {
    x.0 == y.0 && x.1.spec_bytes() == y.1.spec_bytes()
}

/// `s` holds the entry `x`.
pub open spec fn holds_error(s: Seq<(u32, &'static str)>, x: (u32, &'static str)) -> bool {
    exists|j: int| 0 <= j < s.len() && same_error(#[trigger] s[j], x)
}

/// The entries of `a[..upto]` that `b` does not hold, in order.
pub open spec fn spec_errors_minus(a: Seq<(u32, &'static str)>, b: Seq<(u32, &'static str)>, upto: int) -> Seq<
    (u32, &'static str),
>
    decreases upto,
{
    if upto <= 0 {
        Seq::empty()
    } else {
        let prev = spec_errors_minus(a, b, upto - 1);
        if holds_error(b, a[upto - 1]) {
            prev
        } else {
            prev.push(a[upto - 1])
        }
    }
}

fn contains_error(s: &Vec<(u32, &'static str)>, x: (u32, &'static str)) -> (r: bool)
    ensures
        r == holds_error(s@, x),
{
    let mut j: usize = 0;
    while j < s.len()
        invariant
            j <= s@.len(),
            forall|k: int| 0 <= k < j ==> !same_error(#[trigger] s@[k], x),
        decreases s@.len() - j,
    {
        if s[j].0 == x.0 && str_equal(s[j].1, x.1) {
            assert(same_error(s@[j as int], x));
            return true;
        }
        j = j + 1;
    }
    false
}

/// The entries of `a` that `b` does not hold, in the order of `a`.
pub fn errors_minus(a: &Vec<(u32, &'static str)>, b: &Vec<(u32, &'static str)>) -> (r: Vec<(u32, &'static str)>)
    ensures
        r@ == spec_errors_minus(a@, b@, a@.len() as int),
{
    let mut out: Vec<(u32, &'static str)> = Vec::new();
    let mut i: usize = 0;
    while i < a.len()
        invariant
            i <= a@.len(),
            out@ == spec_errors_minus(a@, b@, i as int),
        decreases a@.len() - i,
    {
        if !contains_error(b, a[i]) {
            out.push(a[i]);
        }
        i = i + 1;
    }
    out
}

/// Position of the first entry of `s` named like `name`, if any.
#[verifier::opaque]
pub open spec fn spec_first_named(s: Seq<(u32, &'static str)>, name: &'static str) -> Option<int> {
    if exists|j: int| 0 <= j < s.len() && (#[trigger] s[j]).1.spec_bytes() == name.spec_bytes() {
        Some(
            choose|j: int|
                0 <= j < s.len() && (#[trigger] s[j]).1.spec_bytes() == name.spec_bytes() && forall|k: int|
                    0 <= k < j ==> s[k].1.spec_bytes() != name.spec_bytes(),
        )
    } else {
        None
    }
}

/// For `golden[..upto]` in order, each name whose first namesake in `current`
/// has another code, with its old and new codes.
pub open spec fn spec_changed_codes(
    golden: Seq<(u32, &'static str)>,
    current: Seq<(u32, &'static str)>,
    upto: int,
) -> Seq<(&'static str, u32, u32)>
    decreases upto,
{
    if upto <= 0 {
        Seq::empty()
    } else {
        let prev = spec_changed_codes(golden, current, upto - 1);
        let g = golden[upto - 1];
        match spec_first_named(current, g.1) {
            Some(j) => if current[j].0 != g.0 {
                prev.push((g.1, g.0, current[j].0))
            } else {
                prev
            },
            None => prev,
        }
    }
}

fn first_named(s: &Vec<(u32, &'static str)>, name: &'static str) -> (r: Option<usize>)
    ensures
        match r {
            Some(j) => j < s@.len() && spec_first_named(s@, name) == Some(j as int),
            None => spec_first_named(s@, name) is None,
        },
{
    let mut j: usize = 0;
    while j < s.len()
        invariant
            j <= s@.len(),
            forall|k: int| 0 <= k < j ==> (#[trigger] s@[k]).1.spec_bytes() != name.spec_bytes(),
        decreases s@.len() - j,
    {
        if str_equal(s[j].1, name) {
            let ghost jj = j as int;
            assert(s@[jj].1.spec_bytes() == name.spec_bytes());
            proof {
                reveal(spec_first_named);
                let c = choose|c: int|
                    0 <= c < s@.len() && (#[trigger] s@[c]).1.spec_bytes() == name.spec_bytes() && forall|k: int|
                        0 <= k < c ==> s@[k].1.spec_bytes() != name.spec_bytes();
                assert(0 <= jj < s@.len() && s@[jj].1.spec_bytes() == name.spec_bytes() && forall|k: int|
                    0 <= k < jj ==> s@[k].1.spec_bytes() != name.spec_bytes());
                if c < jj {
                    assert(s@[c].1.spec_bytes() != name.spec_bytes());
                } else if jj < c {
                    assert(s@[jj].1.spec_bytes() != name.spec_bytes());
                }
            }
            return Some(j);
        }
        j = j + 1;
    }
    proof {
        reveal(spec_first_named);
    }
    None
}

/// Error names whose code changed between `golden` and `current`: for each
/// golden entry, in order, whose name the current list also holds (first
/// occurrence) under another code, the name with its old and new codes.
pub fn changed_error_codes(golden: &Vec<(u32, &'static str)>, current: &Vec<(u32, &'static str)>) -> (r: Vec<
    (&'static str, u32, u32),
>)
    ensures
        r@ == spec_changed_codes(golden@, current@, golden@.len() as int),
{
    let mut out: Vec<(&'static str, u32, u32)> = Vec::new();
    let mut i: usize = 0;
    while i < golden.len()
        invariant
            i <= golden@.len(),
            out@ == spec_changed_codes(golden@, current@, i as int),
        decreases golden@.len() - i,
    {
        let g = golden[i];
        match first_named(current, g.1) {
            Some(j) => {
                if current[j].0 != g.0 {
                    out.push((g.1, g.0, current[j].0));
                }
            },
            None => {},
        }
        i = i + 1;
    }
    out
}

/// Breaking when an error was removed or renumbered, semantic when errors
/// were only added, unchanged otherwise.
pub open spec fn spec_error_class(added: nat, removed: nat, changed: nat) -> ChangeClass {
    if removed > 0 || changed > 0 {
        ChangeClass::Breaking
    } else if added > 0 {
        ChangeClass::Semantic
    } else {
        ChangeClass::Unchanged
    }
}

/// Gate for error code compatibility.
pub fn check_errors(
    contract_name: &'static str,
    golden: &Vec<(u32, &'static str)>,
    current: &Vec<(u32, &'static str)>,
) -> (r: CompatibilityReport)
    ensures
        r.contract_name == contract_name,
        r.added@.len() == spec_errors_minus(current@, golden@, current@.len() as int).len(),
        r.removed@.len() == spec_errors_minus(golden@, current@, golden@.len() as int).len(),
        r.changed@.len() == spec_changed_codes(golden@, current@, golden@.len() as int).len(),
        r.class == spec_error_class(r.added@.len(), r.removed@.len(), r.changed@.len()),
        forall|i: int| 0 <= i < r.added@.len() ==> #[trigger] r.added@[i]@ == spec_error_label(
            spec_errors_minus(current@, golden@, current@.len() as int)[i],
        ),
        forall|i: int| 0 <= i < r.removed@.len() ==> #[trigger] r.removed@[i]@ == spec_error_label(
            spec_errors_minus(golden@, current@, golden@.len() as int)[i],
        ),
        forall|i: int| 0 <= i < r.changed@.len() ==> #[trigger] r.changed@[i]@ == spec_change_label(
            spec_changed_codes(golden@, current@, golden@.len() as int)[i],
        ),
{
    let added = errors_minus(current, golden);
    let removed = errors_minus(golden, current);
    let changed = changed_error_codes(golden, current);
    let class = if removed.len() > 0 || changed.len() > 0 {
        ChangeClass::Breaking
    } else if added.len() > 0 {
        ChangeClass::Semantic
    } else {
        ChangeClass::Unchanged
    };
    CompatibilityReport {
        contract_name,
        class,
        added: error_labels(&added),
        removed: error_labels(&removed),
        changed: change_labels(&changed),
    }
}

/// The decimal digits of `n`.
pub open spec fn spec_decimal(n: u32) -> Seq<char>
    decreases n,
{
    if n < 10 {
        seq![((48 + n) as u8) as char]
    } else {
        spec_decimal(n / 10).push(((48 + n % 10) as u8) as char)
    }
}

/// `Name (code)`.
pub open spec fn spec_error_label(e: (u32, &'static str)) -> Seq<char> {
    e.1@ + seq![' ', '('] + spec_decimal(e.0) + seq![')']
}

/// `Name: old -> new`.
pub open spec fn spec_change_label(c: (&'static str, u32, u32)) -> Seq<char> {
    c.0@ + seq![':', ' '] + spec_decimal(c.1) + seq![' ', '-', '>', ' '] + spec_decimal(c.2)
}

/// The one-character text of decimal digit `d`.
fn digit_text(d: u32) -> (r: &'static str)
    requires
        d < 10,
    ensures
        r@ == seq![((48 + d) as u8) as char],
{
    proof {
        reveal_strlit("0");
        reveal_strlit("1");
        reveal_strlit("2");
        reveal_strlit("3");
        reveal_strlit("4");
        reveal_strlit("5");
        reveal_strlit("6");
        reveal_strlit("7");
        reveal_strlit("8");
        reveal_strlit("9");
    }
    if d == 0 {
        "0"
    } else if d == 1 {
        "1"
    } else if d == 2 {
        "2"
    } else if d == 3 {
        "3"
    } else if d == 4 {
        "4"
    } else if d == 5 {
        "5"
    } else if d == 6 {
        "6"
    } else if d == 7 {
        "7"
    } else if d == 8 {
        "8"
    } else {
        "9"
    }
}

/// Appends the decimal digits of `n`, most significant first.
fn push_decimal(out: &mut String, n: u32)
    ensures
        final(out)@ == old(out)@ + spec_decimal(n),
    decreases n,
{
    if n >= 10 {
        push_decimal(out, n / 10);
    }
    let digit = digit_text(n % 10);
    let ghost before = out@;
    out.append(digit);
    proof {
        if n >= 10 {
            assert(before + digit@ =~= old(out)@ + spec_decimal(n / 10).push(((48 + n % 10) as u8) as char));
        } else {
            assert(before + digit@ =~= old(out)@ + spec_decimal(n));
        }
    }
}

/// `Name (code)`.
fn error_label(code: u32, name: &'static str) -> (r: String)
    ensures
        r@ == spec_error_label((code, name)),
{
    proof {
        reveal_strlit(" (");
        reveal_strlit(")");
    }
    let mut out = String::from_str(name);
    out.append(" (");
    push_decimal(&mut out, code);
    out.append(")");
    assert(out@ =~= spec_error_label((code, name)));
    out
}

/// `Name: old -> new`.
fn change_label(name: &'static str, prior: u32, next: u32) -> (r: String)
    ensures
        r@ == spec_change_label((name, prior, next)),
{
    proof {
        reveal_strlit(": ");
        reveal_strlit(" -> ");
    }
    let mut out = String::from_str(name);
    out.append(": ");
    push_decimal(&mut out, prior);
    out.append(" -> ");
    push_decimal(&mut out, next);
    assert(out@ =~= spec_change_label((name, prior, next)));
    out
}

fn error_labels(es: &Vec<(u32, &'static str)>) -> (r: Vec<String>)
    ensures
        r@.len() == es@.len(),
        forall|i: int| 0 <= i < es@.len() ==> #[trigger] r@[i]@ == spec_error_label(es@[i]),
{
    let mut out: Vec<String> = Vec::new();
    let mut i: usize = 0;
    while i < es.len()
        invariant
            i <= es@.len(),
            out@.len() == i,
            forall|k: int| 0 <= k < i ==> #[trigger] out@[k]@ == spec_error_label(es@[k]),
        decreases es@.len() - i,
    {
        out.push(error_label(es[i].0, es[i].1));
        i = i + 1;
    }
    out
}

fn change_labels(cs: &Vec<(&'static str, u32, u32)>) -> (r: Vec<String>)
    ensures
        r@.len() == cs@.len(),
        forall|i: int| 0 <= i < cs@.len() ==> #[trigger] r@[i]@ == spec_change_label(cs@[i]),
{
    let mut out: Vec<String> = Vec::new();
    let mut i: usize = 0;
    while i < cs.len()
        invariant
            i <= cs@.len(),
            out@.len() == i,
            forall|k: int| 0 <= k < i ==> #[trigger] out@[k]@ == spec_change_label(cs@[k]),
        decreases cs@.len() - i,
    {
        out.push(change_label(cs[i].0, cs[i].1, cs[i].2));
        i = i + 1;
    }
    out
}

/// Position of the first pair of `s` whose key is like `key`, if any.
#[verifier::opaque]
pub open spec fn spec_first_key(s: Seq<(&'static str, &'static str)>, key: &'static str) -> Option<int> {
    if exists|j: int| 0 <= j < s.len() && (#[trigger] s[j]).0.spec_bytes() == key.spec_bytes() {
        Some(
            choose|j: int|
                0 <= j < s.len() && (#[trigger] s[j]).0.spec_bytes() == key.spec_bytes() && forall|k: int|
                    0 <= k < j ==> s[k].0.spec_bytes() != key.spec_bytes(),
        )
    } else {
        None
    }
}

fn first_key(s: &Vec<(&'static str, &'static str)>, key: &'static str) -> (r: Option<usize>)
    ensures
        match r {
            Some(j) => j < s@.len() && spec_first_key(s@, key) == Some(j as int),
            None => spec_first_key(s@, key) is None,
        },
{
    let mut j: usize = 0;
    while j < s.len()
        invariant
            j <= s@.len(),
            forall|k: int| 0 <= k < j ==> (#[trigger] s@[k]).0.spec_bytes() != key.spec_bytes(),
        decreases s@.len() - j,
    {
        if str_equal(s[j].0, key) {
            let ghost jj = j as int;
            assert(s@[jj].0.spec_bytes() == key.spec_bytes());
            proof {
                reveal(spec_first_key);
                let c = choose|c: int|
                    0 <= c < s@.len() && (#[trigger] s@[c]).0.spec_bytes() == key.spec_bytes() && forall|k: int|
                        0 <= k < c ==> s@[k].0.spec_bytes() != key.spec_bytes();
                assert(0 <= jj < s@.len() && s@[jj].0.spec_bytes() == key.spec_bytes() && forall|k: int|
                    0 <= k < jj ==> s@[k].0.spec_bytes() != key.spec_bytes());
                if c < jj {
                    assert(s@[c].0.spec_bytes() != key.spec_bytes());
                } else if jj < c {
                    assert(s@[jj].0.spec_bytes() != key.spec_bytes());
                }
            }
            return Some(j);
        }
        j = j + 1;
    }
    proof {
        reveal(spec_first_key);
    }
    None
}

/// Storage keys whose value type changed: for each golden `(key, type)` in
/// order, whose key the current list also holds (first occurrence) with
/// another type, the key with its old and new types.
pub open spec fn spec_changed_types(
    golden: Seq<(&'static str, &'static str)>,
    current: Seq<(&'static str, &'static str)>,
    upto: int,
) -> Seq<(&'static str, &'static str, &'static str)>
    decreases upto,
{
    if upto <= 0 {
        Seq::empty()
    } else {
        let prev = spec_changed_types(golden, current, upto - 1);
        let g = golden[upto - 1];
        match spec_first_key(current, g.0) {
            Some(j) => if current[j].1.spec_bytes() != g.1.spec_bytes() {
                prev.push((g.0, g.1, current[j].1))
            } else {
                prev
            },
            None => prev,
        }
    }
}

/// Storage keys whose value type changed between `golden` and `current`.
pub fn changed_storage_types(
    golden: &Vec<(&'static str, &'static str)>,
    current: &Vec<(&'static str, &'static str)>,
) -> (r: Vec<(&'static str, &'static str, &'static str)>)
    ensures
        r@ == spec_changed_types(golden@, current@, golden@.len() as int),
{
    let mut out: Vec<(&'static str, &'static str, &'static str)> = Vec::new();
    let mut i: usize = 0;
    while i < golden.len()
        invariant
            i <= golden@.len(),
            out@ == spec_changed_types(golden@, current@, i as int),
        decreases golden@.len() - i,
    {
        let g = golden[i];
        match first_key(current, g.0) {
            Some(j) => {
                if !str_equal(current[j].1, g.1) {
                    out.push((g.0, g.1, current[j].1));
                }
            },
            None => {},
        }
        i = i + 1;
    }
    out
}

} // verus!
