//! The password rules: one variant per checkable condition, each with an
//! optional caller-supplied violation message, together with the
//! specification of when a rule is satisfied and which message a violated
//! rule contributes.

use vstd::prelude::*;

use crate::text::byte_len;
use crate::text::contains_digit;
use crate::text::contains_lowercase;
use crate::text::contains_special;
use crate::text::contains_uppercase;
use crate::text::decimal_rep;
use crate::text::decimal_string;
use crate::text::has_digit;
use crate::text::has_lowercase;
use crate::text::has_special;
use crate::text::has_uppercase;

verus! {

/// Password validation rules with optional custom error messages.
#[derive(Debug)]
pub enum Rule<'a> {
    MinLength(usize, Option<&'a str>),
    RequireUpperLower(Option<&'a str>),
    RequireNumber(Option<&'a str>),
    RequireSpecialChar(Option<&'a str>),
}

/// `password` satisfies `rule`:
/// - `MinLength(n, _)`: the password is at least `n` bytes long;
/// - `RequireUpperLower(_)`: it contains an ASCII uppercase letter and an
///   ASCII lowercase letter;
/// - `RequireNumber(_)`: it contains an ASCII decimal digit;
/// - `RequireSpecialChar(_)`: it contains a special character.
pub open spec fn rule_satisfied<'a>(rule: Rule<'a>, password: Seq<char>) -> bool {
    match rule {
        Rule::MinLength(n, _) => byte_len(password) >= n,
        Rule::RequireUpperLower(_) => has_uppercase(password) && has_lowercase(password),
        Rule::RequireNumber(_) => has_digit(password),
        Rule::RequireSpecialChar(_) => has_special(password),
    }
}

/// The default message for a violated `MinLength(threshold, _)` rule,
/// with the threshold rendered in decimal.
pub open spec fn default_min_length_message(threshold: nat) -> Seq<char> {
    "Password must be at least "@ + decimal_rep(threshold) + " characters long."@
}

/// The default message for a violated `RequireUpperLower` rule.
pub open spec fn default_upper_lower_message() -> Seq<char> {
    "Password must include both uppercase and lowercase letters."@
}

/// The default message for a violated `RequireNumber` rule.
pub open spec fn default_digit_message() -> Seq<char> {
    "Password must include at least one number."@
}

/// The default message for a violated `RequireSpecialChar` rule.
pub open spec fn default_special_char_message() -> Seq<char> {
    "Password must include at least one special character."@
}

/// The message a violated rule contributes: the custom message supplied at
/// configuration time if there is one, the rule's default message otherwise.
pub open spec fn rule_message<'a>(rule: Rule<'a>) -> Seq<char> {
    match rule {
        Rule::MinLength(n, msg) => match msg {
            Some(m) => m@,
            None => default_min_length_message(n as nat),
        },
        Rule::RequireUpperLower(msg) => match msg {
            Some(m) => m@,
            None => default_upper_lower_message(),
        },
        Rule::RequireNumber(msg) => match msg {
            Some(m) => m@,
            None => default_digit_message(),
        },
        Rule::RequireSpecialChar(msg) => match msg {
            Some(m) => m@,
            None => default_special_char_message(),
        },
    }
}

/// Decides `rule_satisfied` for a rule and a candidate password.
pub(crate) fn rule_holds(rule: &Rule, password: &str) -> (b: bool)
    ensures
        b == rule_satisfied(*rule, password@),
{
    match rule {
        Rule::MinLength(n, _) => password.as_bytes().len() >= *n,
        Rule::RequireUpperLower(_) => {
            contains_uppercase(password) && contains_lowercase(password)
        },
        Rule::RequireNumber(_) => contains_digit(password),
        Rule::RequireSpecialChar(_) => contains_special(password),
    }
}

fn min_length_message(threshold: usize) -> (s: String)
    ensures
        s@ == default_min_length_message(threshold as nat),
{
    let mut s = "Password must be at least ".to_owned();
    let digits = decimal_string(threshold);
    s.append(digits.as_str());
    s.append(" characters long.");
    proof {
        assert(s@ =~= default_min_length_message(threshold as nat));
    }
    s
}

/// Builds the message a violated rule contributes, as `rule_message`
/// describes. Called only for violated rules, so an unused default message
/// is never constructed.
pub(crate) fn resolved_message(rule: &Rule) -> (s: String)
    ensures
        s@ == rule_message(*rule),
{
    match rule {
        Rule::MinLength(n, msg) => match *msg {
            Some(m) => m.to_owned(),
            None => min_length_message(*n),
        },
        Rule::RequireUpperLower(msg) => match *msg {
            Some(m) => m.to_owned(),
            None => "Password must include both uppercase and lowercase letters.".to_owned(),
        },
        Rule::RequireNumber(msg) => match *msg {
            Some(m) => m.to_owned(),
            None => "Password must include at least one number.".to_owned(),
        },
        Rule::RequireSpecialChar(msg) => match *msg {
            Some(m) => m.to_owned(),
            None => "Password must include at least one special character.".to_owned(),
        },
    }
}

} // verus!
