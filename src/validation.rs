use vstd::prelude::*;

use crate::pattern::{pattern_matches, Pattern};
use crate::text::chars_of;

verus! {

/// Whether the `validator` crate's e-mail syntax check accepts `s`.
pub uninterp spec fn email_accepted(s: Seq<char>) -> bool;

/// Relies on `validator::ValidateEmail::validate_email` for `&str`, the HTML5
/// e-mail syntax check; it answers `false` for text without an `@`.
#[verifier::external_body]
fn validator_accepts_email(s: &str) -> (r: bool)
    ensures
        r == email_accepted(s@),
        r ==> s@.contains('@'),
{
    validator::ValidateEmail::validate_email(&s)
}

/// The kind of rule that a violation comes from.
#[derive(Clone, Copy, Debug, PartialEq, Eq, Structural)]
pub enum RuleKind {
    Length,
    Email,
    Pattern,
    Match,
}

/// A predicate on the value of one field.
pub enum Check {
    /// The number of code points lies in `[min, max]`; a missing bound is no bound.
    Length { min: Option<usize>, max: Option<usize> },
    /// Syntactic e-mail address whose domain holds at least one dot.
    Email,
    /// The value matches a regular expression anywhere.
    Pattern(Pattern),
}

/// A check on a field, with the message reported when it fails.
pub struct Rule {
    pub check: Check,
    pub message: String,
}

/// The rules that apply to one named field, evaluated in order.
pub struct FieldRules {
    pub name: String,
    pub rules: Vec<Rule>,
}

/// A cross-field rule: the fields at positions `first` and `second` must hold
/// identical values. It is symmetric, and a mismatch yields one violation,
/// reported under the name of the field at `second`.
pub struct MatchRule {
    pub first: usize,
    pub second: usize,
    pub message: String,
}

/// The rules of a payload: one entry per field position, then the cross-field
/// rules.
pub struct RuleSet {
    pub fields: Vec<FieldRules>,
    pub matches: Vec<MatchRule>,
}

/// One broken rule: the field, the kind of rule, and the rule's message.
#[derive(Debug)]
pub struct Violation {
    pub field: String,
    pub rule: RuleKind,
    pub message: String,
}

/// A violation as plain values.
pub struct ViolationView {
    pub field: Seq<char>,
    pub rule: RuleKind,
    pub message: Seq<char>,
}

impl View for Violation {
    type V = ViolationView;

    open spec fn view(&self) -> ViolationView {
        ViolationView { field: self.field@, rule: self.rule, message: self.message@ }
    }
}

pub open spec fn views(vs: Seq<Violation>) -> Seq<ViolationView> {
    vs.map_values(|v: Violation| v@)
}

/// After the last `@` of `s` comes a `.`.
pub open spec fn dotted_domain(s: Seq<char>) -> bool {
    exists|j: int|
        #![trigger s[j]]
        0 <= j < s.len() && s[j] == '.' && (exists|i: int| 0 <= i < j && s[i] == '@') && (
        forall|k: int| j < k < s.len() ==> s[k] != '@')
}

pub open spec fn email_valid(s: Seq<char>) -> bool {
    email_accepted(s) && dotted_domain(s)
}

pub open spec fn check_holds(c: Check, s: Seq<char>) -> bool {
    match c {
        Check::Length { min, max } => (min matches Some(lo) ==> lo <= s.len()) && (
        max matches Some(hi) ==> s.len() <= hi),
        Check::Email => email_valid(s),
        Check::Pattern(p) => pattern_matches(p@, s),
    }
}

pub open spec fn kind_of(c: Check) -> RuleKind {
    match c {
        Check::Length { .. } => RuleKind::Length,
        Check::Email => RuleKind::Email,
        Check::Pattern(_) => RuleKind::Pattern,
    }
}

/// The violations of `rules` by the value `s` of the field `name`, in rule order.
pub open spec fn rule_violations(name: Seq<char>, rules: Seq<Rule>, s: Seq<char>) -> Seq<
    ViolationView,
>
    decreases rules.len(),
{
    if rules.len() == 0 {
        Seq::empty()
    } else {
        let prior = rule_violations(name, rules.drop_last(), s);
        let r = rules.last();
        if check_holds(r.check, s) {
            prior
        } else {
            prior.push(ViolationView { field: name, rule: kind_of(r.check), message: r.message@ })
        }
    }
}

/// The value at position `i`; a position past the end is an absent field.
pub open spec fn value_at(values: Seq<Option<Seq<char>>>, i: int) -> Option<Seq<char>> {
    if 0 <= i < values.len() {
        values[i]
    } else {
        None
    }
}

pub open spec fn field_name(fields: Seq<FieldRules>, i: int) -> Seq<char> {
    if 0 <= i < fields.len() {
        fields[i].name@
    } else {
        Seq::empty()
    }
}

/// The per-field violations, field by field; an absent field is skipped.
pub open spec fn field_violations(fields: Seq<FieldRules>, values: Seq<Option<Seq<char>>>) -> Seq<
    ViolationView,
>
    decreases fields.len(),
{
    if fields.len() == 0 {
        Seq::empty()
    } else {
        let prior = field_violations(fields.drop_last(), values);
        match value_at(values, fields.len() - 1) {
            None => prior,
            Some(s) => prior + rule_violations(fields.last().name@, fields.last().rules@, s),
        }
    }
}

/// The cross-field violations, one per rule whose two values differ.
pub open spec fn match_violations(
    fields: Seq<FieldRules>,
    matches: Seq<MatchRule>,
    values: Seq<Option<Seq<char>>>,
) -> Seq<ViolationView>
    decreases matches.len(),
{
    if matches.len() == 0 {
        Seq::empty()
    } else {
        let prior = match_violations(fields, matches.drop_last(), values);
        let m = matches.last();
        if value_at(values, m.first as int) == value_at(values, m.second as int) {
            prior
        } else {
            prior.push(
                ViolationView {
                    field: field_name(fields, m.second as int),
                    rule: RuleKind::Match,
                    message: m.message@,
                },
            )
        }
    }
}

/// Every violation of `rules` by `values`: the per-field ones, then the
/// cross-field ones. Empty means the payload is accepted.
pub open spec fn violations(rules: RuleSet, values: Seq<Option<Seq<char>>>) -> Seq<ViolationView> {
    field_violations(rules.fields@, values) + match_violations(
        rules.fields@,
        rules.matches@,
        values,
    )
}

/// Whether the domain part of `s` (after its last `@`) holds a dot.
pub fn has_dotted_domain(s: &str) -> (r: bool)
    ensures
        r == dotted_domain(s@),
{
    let v = chars_of(s);
    let mut k: usize = v.len();
    let mut seen_dot = false;
    while k > 0
        invariant
            v@ == s@,
            k <= v.len(),
            seen_dot <==> exists|j: int| k <= j < v.len() && v@[j] == '.',
            forall|m: int| k <= m < v.len() ==> v@[m] != '@',
        decreases k,
    {
        k = k - 1;
        if v[k] == '@' {
            if seen_dot {
                let ghost j = choose|j: int| k < j < v.len() && v@[j] == '.';
                assert(0 <= k < j && s@[k as int] == '@');
                assert(s@[j] == '.');
            } else {
                assert forall|j: int| 0 <= j < s@.len() && s@[j] == '.' && (exists|i: int|
                    0 <= i < j && s@[i] == '@') implies exists|m: int|
                    j < m < s@.len() && s@[m] == '@' by {
                    assert(j < k);
                    assert(s@[k as int] == '@');
                }
            }
            return seen_dot;
        }
        if v[k] == '.' {
            seen_dot = true;
        }
    }
    assert(forall|i: int| 0 <= i < s@.len() ==> s@[i] != '@');
    false
}

/// The e-mail rule: accepted by the `validator` crate's syntax check, with a
/// dot in the domain.
pub fn is_valid_email(s: &str) -> (r: bool)
    ensures
        r == email_valid(s@),
{
    let accepted = validator_accepts_email(s);
    accepted && has_dotted_domain(s)
}

impl Check {
    pub fn kind(&self) -> (r: RuleKind)
        ensures
            r == kind_of(*self),
    {
        match self {
            Check::Length { .. } => RuleKind::Length,
            Check::Email => RuleKind::Email,
            Check::Pattern(_) => RuleKind::Pattern,
        }
    }

    /// Whether `s` satisfies the check.
    pub fn holds(&self, s: &str) -> (r: bool)
        ensures
            r == check_holds(*self, s@),
    {
        match self {
            Check::Length { min, max } => {
                let n = s.unicode_len();
                let lo_ok = match min {
                    Some(lo) => *lo <= n,
                    None => true,
                };
                let hi_ok = match max {
                    Some(hi) => n <= *hi,
                    None => true,
                };
                lo_ok && hi_ok
            },
            Check::Email => is_valid_email(s),
            Check::Pattern(p) => p.is_match(s),
        }
    }
}

proof fn lemma_views_push(vs: Seq<Violation>, v: Violation)
    ensures
        views(vs.push(v)) == views(vs).push(v@),
{
    assert(views(vs.push(v)) =~= views(vs).push(v@));
}

/// Appends to `out` the violations of the field's rules by the value `s`.
fn push_field_violations(field: &FieldRules, s: &str, out: &mut Vec<Violation>)
    ensures
        views(final(out)@) == views(old(out)@) + rule_violations(field.name@, field.rules@, s@),
{
    let ghost start = views(old(out)@);
    let mut i: usize = 0;
    while i < field.rules.len()
        invariant
            i <= field.rules.len(),
            views(out@) == start + rule_violations(field.name@, field.rules@.take(i as int), s@),
        decreases field.rules.len() - i,
    {
        let rule = &field.rules[i];
        assert(field.rules@.take(i + 1).drop_last() =~= field.rules@.take(i as int));
        assert(field.rules@.take(i + 1).last() == *rule);
        if !rule.check.holds(s) {
            let v = Violation {
                field: field.name.clone(),
                rule: rule.check.kind(),
                message: rule.message.clone(),
            };
            proof {
                lemma_views_push(out@, v);
            }
            out.push(v);
            assert(views(out@) =~= start + rule_violations(
                field.name@,
                field.rules@.take(i + 1),
                s@,
            ));
        }
        i = i + 1;
    }
    assert(field.rules@.take(i as int) =~= field.rules@);
}

/// Evaluates every rule of `rules` against `values` (the value of the field
/// at each position, `None` for an absent field) and returns all violations,
/// in order. No rule is skipped because an earlier one failed.
pub fn validate(rules: &RuleSet, values: &Vec<Option<String>>) -> (r: Vec<Violation>)
    ensures
        views(r@) == violations(*rules, values.deep_view()),
{
    let ghost vals = values.deep_view();
    let mut out: Vec<Violation> = Vec::new();
    assert(views(out@) =~= Seq::<ViolationView>::empty());
    let mut i: usize = 0;
    while i < rules.fields.len()
        invariant
            i <= rules.fields.len(),
            vals == values.deep_view(),
            views(out@) == field_violations(rules.fields@.take(i as int), vals),
        decreases rules.fields.len() - i,
    {
        let field = &rules.fields[i];
        assert(rules.fields@.take(i + 1).drop_last() =~= rules.fields@.take(i as int));
        assert(rules.fields@.take(i + 1).last() == *field);
        if i < values.len() {
            match &values[i] {
                Some(s) => {
                    push_field_violations(field, s.as_str(), &mut out);
                },
                None => {},
            }
        }
        i = i + 1;
    }
    assert(rules.fields@.take(i as int) =~= rules.fields@);
    let ghost fields_part = views(out@);
    let mut j: usize = 0;
    while j < rules.matches.len()
        invariant
            j <= rules.matches.len(),
            vals == values.deep_view(),
            fields_part == field_violations(rules.fields@, vals),
            views(out@) == fields_part + match_violations(
                rules.fields@,
                rules.matches@.take(j as int),
                vals,
            ),
        decreases rules.matches.len() - j,
    {
        let m = &rules.matches[j];
        assert(rules.matches@.take(j + 1).drop_last() =~= rules.matches@.take(j as int));
        assert(rules.matches@.take(j + 1).last() == *m);
        let a = if m.first < values.len() {
            values[m.first].as_ref()
        } else {
            None
        };
        let b = if m.second < values.len() {
            values[m.second].as_ref()
        } else {
            None
        };
        let same = match (a, b) {
            (Some(x), Some(y)) => *x == *y,
            (None, None) => true,
            _ => false,
        };
        if !same {
            let name = if m.second < rules.fields.len() {
                rules.fields[m.second].name.clone()
            } else {
                String::new()
            };
            let v = Violation { field: name, rule: RuleKind::Match, message: m.message.clone() };
            proof {
                lemma_views_push(out@, v);
            }
            out.push(v);
        }
        assert(views(out@) =~= fields_part + match_violations(
            rules.fields@,
            rules.matches@.take(j + 1),
            vals,
        ));
        j = j + 1;
    }
    assert(rules.matches@.take(j as int) =~= rules.matches@);
    out
}

} // verus!
