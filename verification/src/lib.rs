//! A configurable password-strength validator.
//!
//! A caller assembles a [`PasswordChecker`] from individual [`Rule`]s
//! (minimum length and character-class requirements) and then validates
//! candidate strings against the whole rule set, collecting one
//! human-readable violation message per violated rule, in the order the
//! rules were configured.

mod checker;
mod rules;
mod text;

pub use checker::lemma_messages_are_violated_rules_in_order;
pub use checker::lemma_min_length_rule;
pub use checker::lemma_no_rules_validates;
pub use checker::lemma_validate_deterministic;
pub use checker::messages_of;
pub use checker::result_view;
pub use checker::rule_violation;
pub use checker::validate_result;
pub use checker::violated_rules;
pub use checker::violation_messages;
pub use checker::PasswordChecker;
pub use rules::default_digit_message;
pub use rules::default_min_length_message;
pub use rules::default_special_char_message;
pub use rules::default_upper_lower_message;
pub use rules::rule_message;
pub use rules::rule_satisfied;
pub use rules::Rule;
pub use text::byte_len;
pub use text::decimal_rep;
pub use text::has_digit;
pub use text::has_lowercase;
pub use text::has_special;
pub use text::has_uppercase;
pub use text::is_ascii_digit_char;
pub use text::is_ascii_lowercase_char;
pub use text::is_ascii_uppercase_char;
pub use text::is_special_char;
