//! The password checker: an ordered sequence of rules, a fluent
//! configuration surface that appends one rule per call, and the
//! validation algorithm that applies every rule to a candidate password
//! and aggregates the violation messages in configuration order.

use vstd::prelude::*;

use crate::rules::resolved_message;
use crate::rules::rule_holds;
use crate::rules::rule_message;
use crate::rules::rule_satisfied;
use crate::rules::Rule;
use crate::text::byte_len;

verus! {

/// The messages a single rule contributes: none when the rule is
/// satisfied, its resolved message when it is violated.
pub open spec fn rule_violation<'a>(rule: Rule<'a>, password: Seq<char>) -> Seq<Seq<char>> {
    if rule_satisfied(rule, password) {
        Seq::empty()
    } else {
        seq![rule_message(rule)]
    }
}

/// All violation messages for `password` under `rules`, one per violated
/// rule, in rule order.
pub open spec fn violation_messages<'a>(rules: Seq<Rule<'a>>, password: Seq<char>) -> Seq<
    Seq<char>,
>
    decreases rules.len(),
{
    if rules.len() == 0 {
        Seq::empty()
    } else {
        violation_messages(rules.drop_last(), password) + rule_violation(rules.last(), password)
    }
}

/// The outcome of validating `password` against `rules`: `Ok` when no
/// rule is violated, otherwise `Err` with every violation message, in
/// rule order.
pub open spec fn validate_result<'a>(rules: Seq<Rule<'a>>, password: Seq<char>) -> Result<
    (),
    Seq<Seq<char>>,
> {
    if violation_messages(rules, password).len() == 0 {
        Ok(())
    } else {
        Err(violation_messages(rules, password))
    }
}

/// The mathematical value of an executable validation result: the message
/// strings replaced by their character sequences.
pub open spec fn result_view(r: Result<(), Vec<String>>) -> Result<(), Seq<Seq<char>>> {
    match r {
        Ok(_) => Ok(()),
        Err(v) => Err(v.deep_view()),
    }
}

/// The subsequence of `rules` that `password` violates, in rule order.
pub open spec fn violated_rules<'a>(rules: Seq<Rule<'a>>, password: Seq<char>) -> Seq<Rule<'a>>
    decreases rules.len(),
{
    if rules.len() == 0 {
        Seq::empty()
    } else {
        violated_rules(rules.drop_last(), password) + (if rule_satisfied(
            rules.last(),
            password,
        ) {
            Seq::empty()
        } else {
            seq![rules.last()]
        })
    }
}

/// The resolved message of each rule of `rules`, in order.
pub open spec fn messages_of<'a>(rules: Seq<Rule<'a>>) -> Seq<Seq<char>>
    decreases rules.len(),
{
    if rules.len() == 0 {
        Seq::empty()
    } else {
        messages_of(rules.drop_last()).push(rule_message(rules.last()))
    }
}

/// A checker with no rules accepts every password.
pub proof fn lemma_no_rules_validates<'a>(rules: Seq<Rule<'a>>, password: Seq<char>)
    requires
        rules.len() == 0,
    ensures
        validate_result(rules, password) == Ok::<(), Seq<Seq<char>>>(()),
{
}

/// A failed validation carries exactly one message per violated rule —
/// never more, never fewer — and the messages appear in rule
/// configuration order: they are the resolved messages of the violated
/// rules, which form a subsequence of the configured rules.
pub proof fn lemma_messages_are_violated_rules_in_order<'a>(
    rules: Seq<Rule<'a>>,
    password: Seq<char>,
)
    ensures
        violation_messages(rules, password) == messages_of(violated_rules(rules, password)),
        violation_messages(rules, password).len() == violated_rules(rules, password).len(),
        forall|i: int|
            0 <= i < violated_rules(rules, password).len() ==> !rule_satisfied(
                #[trigger] violated_rules(rules, password)[i],
                password,
            ),
    decreases rules.len(),
{
    if rules.len() == 0 {
        assert(violation_messages(rules, password) =~= messages_of(
            violated_rules(rules, password),
        ));
    } else {
        let rest = rules.drop_last();
        let last = rules.last();
        lemma_messages_are_violated_rules_in_order(rest, password);
        if rule_satisfied(last, password) {
            assert(violated_rules(rules, password) =~= violated_rules(rest, password));
            assert(violation_messages(rules, password) =~= violation_messages(rest, password));
        } else {
            let violated = violated_rules(rules, password);
            assert(violated =~= violated_rules(rest, password).push(last));
            assert(violated.drop_last() =~= violated_rules(rest, password));
            assert(messages_of(violated) == messages_of(violated_rules(rest, password)).push(
                rule_message(last),
            ));
            assert(violation_messages(rules, password) =~= messages_of(
                violated_rules(rules, password),
            ));
        }
    }
}

/// A minimum-length rule is satisfied by exactly the passwords of at
/// least `threshold` bytes; a password of exactly `threshold` bytes
/// passes.
pub proof fn lemma_min_length_rule<'a>(
    threshold: usize,
    msg: Option<&'a str>,
    password: Seq<char>,
)
    ensures
        rule_satisfied(Rule::MinLength(threshold, msg), password) <==> byte_len(password)
            >= threshold,
{
}

/// Validation is deterministic: its contract pins the observable result,
/// so two results of validating the same password against the same rules
/// are identical.
pub proof fn lemma_validate_deterministic<'a>(
    rules: Seq<Rule<'a>>,
    password: Seq<char>,
    r1: Result<(), Vec<String>>,
    r2: Result<(), Vec<String>>,
)
    requires
        result_view(r1) == validate_result(rules, password),
        result_view(r2) == validate_result(rules, password),
    ensures
        result_view(r1) == result_view(r2),
{
}

/// PasswordChecker holds the rules and validates passwords.
pub struct PasswordChecker<'a> {
    rules: Vec<Rule<'a>>,
}

impl<'a> View for PasswordChecker<'a> {
    type V = Seq<Rule<'a>>;

    closed spec fn view(&self) -> Seq<Rule<'a>> {
        self.rules@
    }
}

impl<'a> PasswordChecker<'a> {
    /// Creates a new empty PasswordChecker.
    pub fn new() -> (checker: Self)
        ensures
            checker@ == Seq::<Rule<'a>>::empty(),
    {
        PasswordChecker { rules: vec![] }
    }

    /// Adds a minimum length rule with an optional custom message.
    ///
    /// # Arguments
    ///
    /// * `len` - Minimum required length in bytes.
    /// * `msg` - Optional custom error message.
    pub fn min_length(self, len: usize, msg: Option<&'a str>) -> (checker: Self)
        ensures
            checker@ == self@.push(Rule::MinLength(len, msg)),
    {
        let mut updated = self;
        updated.rules.push(Rule::MinLength(len, msg));
        updated
    }

    /// Adds a rule requiring both uppercase and lowercase letters.
    pub fn require_upper_lower(self, msg: Option<&'a str>) -> (checker: Self)
        ensures
            checker@ == self@.push(Rule::RequireUpperLower(msg)),
    {
        let mut updated = self;
        updated.rules.push(Rule::RequireUpperLower(msg));
        updated
    }

    /// Adds a rule requiring at least one digit.
    pub fn require_number(self, msg: Option<&'a str>) -> (checker: Self)
        ensures
            checker@ == self@.push(Rule::RequireNumber(msg)),
    {
        let mut updated = self;
        updated.rules.push(Rule::RequireNumber(msg));
        updated
    }

    /// Adds a rule requiring at least one special character.
    pub fn require_special_char(self, msg: Option<&'a str>) -> (checker: Self)
        ensures
            checker@ == self@.push(Rule::RequireSpecialChar(msg)),
    {
        let mut updated = self;
        updated.rules.push(Rule::RequireSpecialChar(msg));
        updated
    }

    /// Validates the given password against all configured rules.
    ///
    /// Returns:
    /// - `Ok(())` if all rules pass.
    /// - `Err(messages)` with all error messages, in rule order, if
    ///   validation fails.
    pub fn validate(&self, password: &str) -> (r: Result<(), Vec<String>>)
        ensures
            result_view(r) == validate_result(self@, password@),
    {
        let mut errors: Vec<String> = Vec::new();
        let n = self.rules.len();
        let mut i: usize = 0;
        while i < n
            invariant
                i <= n,
                n == self.rules@.len(),
                errors.deep_view() == violation_messages(self.rules@.take(i as int), password@),
            decreases n - i,
        {
            let rule = &self.rules[i];
            if !rule_holds(rule, password) {
                let message = resolved_message(rule);
                errors.push(message);
            }
            proof {
                let rules = self.rules@;
                let prefix = rules.take(i + 1);
                assert(prefix.drop_last() =~= rules.take(i as int));
                assert(prefix.last() == rules[i as int]);
                assert(errors.deep_view() =~= violation_messages(prefix, password@));
            }
            i = i + 1;
        }
        proof {
            assert(self.rules@.take(n as int) =~= self.rules@);
        }
        if errors.is_empty() {
            Ok(())
        } else {
            Err(errors)
        }
    }
}

} // verus!
