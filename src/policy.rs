use vstd::prelude::*;

use crate::pattern::{pattern_compiles, pattern_matches, Pattern};
use crate::validation::{
    check_holds, email_valid, field_violations, value_at, match_violations, rule_violations, violations,
    Check, FieldRules, MatchRule, Rule, RuleKind, RuleSet, ViolationView,
};

verus! {

pub const UPPERCASE_PATTERN: &'static str = ".*[A-Z].*";

pub const LOWERCASE_PATTERN: &'static str = ".*[a-z].*";

pub const DIGIT_PATTERN: &'static str = ".*[0-9].*";

pub const USERNAME_MESSAGE: &'static str = "username must be between 3 and 30 characters";

pub const EMAIL_FORMAT_MESSAGE: &'static str = "email must be a valid email address";

pub const EMAIL_LENGTH_MESSAGE: &'static str = "email must be at most 50 characters";

pub const PASSWORD_LENGTH_MESSAGE: &'static str = "password must be at least 6 characters";

pub const UPPERCASE_MESSAGE: &'static str = "passwords must contain at least one upper case letter";

pub const LOWERCASE_MESSAGE: &'static str = "passwords must contain at least one lower case letter";

pub const DIGIT_MESSAGE: &'static str = "passwords must contain at least one digit";

pub const MISMATCH_MESSAGE: &'static str = "passwords do not match";

pub const LOGIN_PASSWORD_MESSAGE: &'static str = "password must not be empty";

pub open spec fn is_length_rule(r: Rule, min: Option<usize>, max: Option<usize>, message: Seq<char>) -> bool {
    r.check == (Check::Length { min, max }) && r.message@ == message
}

pub open spec fn is_pattern_rule(r: Rule, pattern: Seq<char>, message: Seq<char>) -> bool {
    &&& r.check matches Check::Pattern(p) && p@ == pattern
    &&& r.message@ == message
}

pub open spec fn is_email_rule(r: Rule, message: Seq<char>) -> bool {
    r.check == Check::Email && r.message@ == message
}

/// The registration rules. Fields, by position: `username` (3 to 30
/// characters), `email` (an e-mail address of at most 50 characters),
/// `password` (at least 6 characters, with an upper case letter, a lower case
/// letter and a digit, each checked on its own), `confirm_password`; and
/// `password` must equal `confirm_password`.
pub open spec fn is_register_policy(rs: RuleSet) -> bool {
    let f = rs.fields@;
    &&& f.len() == 4
    &&& f[0].name@ == "username"@
    &&& f[0].rules@.len() == 1
    &&& is_length_rule(f[0].rules@[0], Some(3), Some(30), USERNAME_MESSAGE@)
    &&& f[1].name@ == "email"@
    &&& f[1].rules@.len() == 2
    &&& is_email_rule(f[1].rules@[0], EMAIL_FORMAT_MESSAGE@)
    &&& is_length_rule(f[1].rules@[1], None, Some(50), EMAIL_LENGTH_MESSAGE@)
    &&& f[2].name@ == "password"@
    &&& f[2].rules@.len() == 4
    &&& is_length_rule(f[2].rules@[0], Some(6), None, PASSWORD_LENGTH_MESSAGE@)
    &&& is_pattern_rule(f[2].rules@[1], UPPERCASE_PATTERN@, UPPERCASE_MESSAGE@)
    &&& is_pattern_rule(f[2].rules@[2], LOWERCASE_PATTERN@, LOWERCASE_MESSAGE@)
    &&& is_pattern_rule(f[2].rules@[3], DIGIT_PATTERN@, DIGIT_MESSAGE@)
    &&& f[3].name@ == "confirm_password"@
    &&& f[3].rules@.len() == 0
    &&& rs.matches@.len() == 1
    &&& rs.matches@[0].first == 2
    &&& rs.matches@[0].second == 3
    &&& rs.matches@[0].message@ == MISMATCH_MESSAGE@
}

/// The login rules. Fields, by position: `username` (3 to 30 characters) and
/// `password` (not empty). The password policy of registration is not
/// applied at login: a password that breaks it is simply a wrong password.
pub open spec fn is_login_policy(rs: RuleSet) -> bool {
    let f = rs.fields@;
    &&& f.len() == 2
    &&& f[0].name@ == "username"@
    &&& f[0].rules@.len() == 1
    &&& is_length_rule(f[0].rules@[0], Some(3), Some(30), USERNAME_MESSAGE@)
    &&& f[1].name@ == "password"@
    &&& f[1].rules@.len() == 1
    &&& is_length_rule(f[1].rules@[0], Some(1), None, LOGIN_PASSWORD_MESSAGE@)
    &&& rs.matches@.len() == 0
}

/// The three character-class patterns of the password policy compile.
pub open spec fn policy_patterns_compile() -> bool {
    &&& pattern_compiles(UPPERCASE_PATTERN@)
    &&& pattern_compiles(LOWERCASE_PATTERN@)
    &&& pattern_compiles(DIGIT_PATTERN@)
}

fn length_rule(min: Option<usize>, max: Option<usize>, message: &str) -> (r: Rule)
    ensures
        is_length_rule(r, min, max, message@),
{
    Rule { check: Check::Length { min, max }, message: message.to_owned() }
}

fn pattern_rule(pattern: Pattern, message: &str) -> (r: Rule)
    ensures
        is_pattern_rule(r, pattern@, message@),
{
    Rule { check: Check::Pattern(pattern), message: message.to_owned() }
}

/// Builds the registration rules; `None` exactly when one of the policy's
/// patterns does not compile.
pub fn register_policy() -> (r: Option<RuleSet>)
    ensures
        r is Some <==> policy_patterns_compile(),
        r matches Some(rs) ==> is_register_policy(rs),
{
    let upper = match Pattern::new(UPPERCASE_PATTERN) {
        Some(p) => p,
        None => return None,
    };
    let lower = match Pattern::new(LOWERCASE_PATTERN) {
        Some(p) => p,
        None => return None,
    };
    let digit = match Pattern::new(DIGIT_PATTERN) {
        Some(p) => p,
        None => return None,
    };
    let mut username_rules: Vec<Rule> = Vec::new();
    username_rules.push(length_rule(Some(3), Some(30), USERNAME_MESSAGE));
    let mut email_rules: Vec<Rule> = Vec::new();
    email_rules.push(Rule { check: Check::Email, message: EMAIL_FORMAT_MESSAGE.to_owned() });
    email_rules.push(length_rule(None, Some(50), EMAIL_LENGTH_MESSAGE));
    let mut password_rules: Vec<Rule> = Vec::new();
    password_rules.push(length_rule(Some(6), None, PASSWORD_LENGTH_MESSAGE));
    password_rules.push(pattern_rule(upper, UPPERCASE_MESSAGE));
    password_rules.push(pattern_rule(lower, LOWERCASE_MESSAGE));
    password_rules.push(pattern_rule(digit, DIGIT_MESSAGE));
    let mut fields: Vec<FieldRules> = Vec::new();
    fields.push(FieldRules { name: "username".to_owned(), rules: username_rules });
    fields.push(FieldRules { name: "email".to_owned(), rules: email_rules });
    fields.push(FieldRules { name: "password".to_owned(), rules: password_rules });
    fields.push(FieldRules { name: "confirm_password".to_owned(), rules: Vec::new() });
    let mut matches: Vec<MatchRule> = Vec::new();
    matches.push(MatchRule { first: 2, second: 3, message: MISMATCH_MESSAGE.to_owned() });
    Some(RuleSet { fields, matches })
}

/// Builds the login rules.
pub fn login_policy() -> (rs: RuleSet)
    ensures
        is_login_policy(rs),
{
    let mut username_rules: Vec<Rule> = Vec::new();
    username_rules.push(length_rule(Some(3), Some(30), USERNAME_MESSAGE));
    let mut password_rules: Vec<Rule> = Vec::new();
    password_rules.push(length_rule(Some(1), None, LOGIN_PASSWORD_MESSAGE));
    let mut fields: Vec<FieldRules> = Vec::new();
    fields.push(FieldRules { name: "username".to_owned(), rules: username_rules });
    fields.push(FieldRules { name: "password".to_owned(), rules: password_rules });
    RuleSet { fields, matches: Vec::new() }
}

/// The registration payload as field values, in rule order.
pub open spec fn registration_values(
    username: Seq<char>,
    email: Seq<char>,
    password: Seq<char>,
    confirm_password: Seq<char>,
) -> Seq<Option<Seq<char>>> {
    seq![Some(username), Some(email), Some(password), Some(confirm_password)]
}

/// A per-field rule never reports a cross-field mismatch.
proof fn lemma_no_match_kind_in_rules(name: Seq<char>, rules: Seq<Rule>, s: Seq<char>)
    ensures
        forall|i: int|
            0 <= i < rule_violations(name, rules, s).len() ==> rule_violations(name, rules, s)[i].rule
                != RuleKind::Match,
    decreases rules.len(),
{
    if rules.len() > 0 {
        lemma_no_match_kind_in_rules(name, rules.drop_last(), s);
    }
}

proof fn lemma_no_match_kind_in_fields(fields: Seq<FieldRules>, values: Seq<Option<Seq<char>>>)
    ensures
        forall|i: int|
            0 <= i < field_violations(fields, values).len() ==> field_violations(fields, values)[i].rule
                != RuleKind::Match,
    decreases fields.len(),
{
    if fields.len() > 0 {
        lemma_no_match_kind_in_fields(fields.drop_last(), values);
        lemma_no_match_kind_in_rules(fields.last().name@, fields.last().rules@, present_value(values, fields.len() - 1));
    }
}

/// The value at position `i`, or the empty text when it is absent.
spec fn present_value(values: Seq<Option<Seq<char>>>, i: int) -> Seq<char> {
    if 0 <= i < values.len() && values[i] is Some {
        values[i]->Some_0
    } else {
        Seq::empty()
    }
}

/// The confirmation rule is symmetric and fires once: under the registration
/// rules, the result holds a mismatch violation exactly when the password and
/// its confirmation differ, and then exactly one, reported under
/// `confirm_password`.
pub proof fn lemma_confirmation_mismatch(
    rs: RuleSet,
    username: Seq<char>,
    email: Seq<char>,
    password: Seq<char>,
    confirm_password: Seq<char>,
)
    requires
        is_register_policy(rs),
    ensures
        ({
            let vs = violations(rs, registration_values(username, email, password, confirm_password));
            &&& (exists|i: int| 0 <= i < vs.len() && vs[i].rule == RuleKind::Match) <==> password
                != confirm_password
            &&& password != confirm_password ==> vs.last() == (ViolationView {
                field: "confirm_password"@,
                rule: RuleKind::Match,
                message: MISMATCH_MESSAGE@,
            })
            &&& password != confirm_password ==> forall|i: int|
                0 <= i < vs.len() - 1 ==> vs[i].rule != RuleKind::Match
        }),
{
    let values = registration_values(username, email, password, confirm_password);
    let fv = field_violations(rs.fields@, values);
    let mv = match_violations(rs.fields@, rs.matches@, values);
    let vs = violations(rs, values);
    lemma_no_match_kind_in_fields(rs.fields@, values);
    reveal_with_fuel(match_violations, 2);
    assert(rs.matches@.drop_last() =~= Seq::<MatchRule>::empty());
    assert(rs.matches@.last() == rs.matches@[0]);
    assert(value_at(values, 2) == Some(password));
    assert(value_at(values, 3) == Some(confirm_password));
    assert(vs == fv + mv);
    if password == confirm_password {
        assert(mv =~= Seq::<ViolationView>::empty());
        assert(vs =~= fv);
    } else {
        assert(values[2] != values[3]);
        assert(mv.len() == 1);
        assert(vs[vs.len() - 1] == mv[0]);
        assert(vs[vs.len() - 1].rule == RuleKind::Match);
        assert forall|i: int| 0 <= i < vs.len() - 1 implies vs[i].rule != RuleKind::Match by {
            assert(vs[i] == fv[i]);
        }
    }
}

/// Rules are evaluated independently and all violations are kept: a
/// registration whose only faults are a password with neither an upper case
/// letter nor a digit yields exactly two violations, the upper-case one and
/// then the digit one.
pub proof fn lemma_password_failures_aggregate(
    rs: RuleSet,
    username: Seq<char>,
    email: Seq<char>,
    password: Seq<char>,
)
    requires
        is_register_policy(rs),
        3 <= username.len() <= 30,
        email_valid(email),
        email.len() <= 50,
        password.len() >= 6,
        pattern_matches(LOWERCASE_PATTERN@, password),
        !pattern_matches(UPPERCASE_PATTERN@, password),
        !pattern_matches(DIGIT_PATTERN@, password),
    ensures
        violations(rs, registration_values(username, email, password, password)) == seq![
            ViolationView { field: "password"@, rule: RuleKind::Pattern, message: UPPERCASE_MESSAGE@ },
            ViolationView { field: "password"@, rule: RuleKind::Pattern, message: DIGIT_MESSAGE@ },
        ],
{
    let values = registration_values(username, email, password, password);
    let f = rs.fields@;
    reveal_with_fuel(rule_violations, 5);
    reveal_with_fuel(field_violations, 5);
    reveal_with_fuel(match_violations, 2);
    let r0 = f[0].rules@;
    assert(r0.drop_last() =~= Seq::<Rule>::empty());
    assert(rule_violations(f[0].name@, r0, username) =~= Seq::<ViolationView>::empty());
    let r1 = f[1].rules@;
    assert(r1.drop_last().drop_last() =~= Seq::<Rule>::empty());
    assert(rule_violations(f[1].name@, r1, email) =~= Seq::<ViolationView>::empty());
    let r2 = f[2].rules@;
    assert(check_holds(r2[0].check, password));
    assert(!check_holds(r2[1].check, password));
    assert(check_holds(r2[2].check, password));
    assert(!check_holds(r2[3].check, password));
    assert(r2.drop_last().drop_last().drop_last().drop_last() =~= Seq::<Rule>::empty());
    assert(r2.drop_last().drop_last().drop_last().last() == r2[0]);
    assert(r2.drop_last().drop_last().last() == r2[1]);
    assert(r2.drop_last().last() == r2[2]);
    assert(r2.last() == r2[3]);
    let r3 = f[3].rules@;
    assert(f.drop_last().drop_last().drop_last().drop_last() =~= Seq::<FieldRules>::empty());
    assert(f.drop_last().drop_last().drop_last().last() == f[0]);
    assert(f.drop_last().drop_last().last() == f[1]);
    assert(f.drop_last().last() == f[2]);
    assert(f.last() == f[3]);
    assert(rs.matches@.drop_last() =~= Seq::<MatchRule>::empty());
    assert(violations(rs, values) =~= seq![
        ViolationView { field: "password"@, rule: RuleKind::Pattern, message: UPPERCASE_MESSAGE@ },
        ViolationView { field: "password"@, rule: RuleKind::Pattern, message: DIGIT_MESSAGE@ },
    ]);
}

} // verus!
