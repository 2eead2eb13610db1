//! Recipient-token syntax: the delivery provider's notion of a well-formed
//! device token, used to validate tokens supplied in a direct trigger.

use vstd::prelude::*;

verus! {

/// Whether the provider's token pattern counts `c` as a decimal digit.
/// Stands for the digit class of `Expo::is_expo_push_token`, which accepts
/// any Unicode decimal digit, not only ASCII ones.
pub uninterp spec fn is_unicode_digit(c: char) -> bool;

/// `p` is a prefix of `s`.
pub open spec fn has_prefix(s: Seq<char>, p: Seq<char>) -> bool {
    p.len() <= s.len() && s.subrange(0, p.len() as int) == p
}

/// The provider's bracketed token form: an `ExponentPushToken[` or
/// `ExpoPushToken[` prefix and a closing `]`.
pub open spec fn is_bracketed_token(s: Seq<char>) -> bool {
    &&& has_prefix(s, "ExponentPushToken["@) || has_prefix(s, "ExpoPushToken["@)
    &&& s.len() > 0
    &&& s.last() == ']'
}

/// Position `i` holds a hyphen in the provider's hyphenated-identifier form.
pub open spec fn is_hyphen_position(i: int) -> bool {
    i == 8 || i == 13 || i == 18 || i == 23
}

/// The hyphenated-identifier form the provider also accepts: five groups of
/// lowercase letters or digits, of lengths 8, 4, 4, 4 and 12, joined by
/// hyphens.
pub open spec fn is_hyphenated_id(s: Seq<char>) -> bool {
    &&& s.len() == 36
    &&& forall|i: int| 0 <= i < 36 && is_hyphen_position(i) ==> #[trigger] s[i] == '-'
    &&& forall|i: int|
        0 <= i < 36 && !is_hyphen_position(i) ==> (('a' <= #[trigger] s[i] && s[i] <= 'z')
            || is_unicode_digit(s[i]))
}

/// A syntactically valid recipient token: either the provider's bracketed
/// form, or its hyphenated-identifier form.
pub open spec fn is_valid_token(s: Seq<char>) -> bool {
    is_bracketed_token(s) || is_hyphenated_id(s)
}

/// Relies on `expo_push_notification_client::Expo::is_expo_push_token`: true
/// exactly when the token starts with `ExponentPushToken[` or
/// `ExpoPushToken[` and ends with `]`, or matches the anchored pattern
/// `[a-z\d]{8}-[a-z\d]{4}-[a-z\d]{4}-[a-z\d]{4}-[a-z\d]{12}`.
#[verifier::external_body]
pub fn token_has_valid_syntax(token: &str) -> (r: bool)
    ensures
        r == (is_bracketed_token(token@) || (token@.len() == 36 && (forall|i: int|
            0 <= i < 36 && is_hyphen_position(i) ==> #[trigger] token@[i] == '-') && (forall|
            i: int,
        |
            0 <= i < 36 && !is_hyphen_position(i) ==> (('a' <= #[trigger] token@[i]
                && token@[i] <= 'z') || is_unicode_digit(token@[i]))))),
{
    expo_push_notification_client::Expo::is_expo_push_token(token)
}

/// Validate a token against the provider's syntax.
pub fn validate_token(token: &str) -> (r: bool)
    ensures
        r == is_valid_token(token@),
{
    token_has_valid_syntax(token)
}

} // verus!
