//! The email address of a subscriber.

use crate::domain::ValidationError;
use validator::ValidateEmail;
use vstd::prelude::*;

verus! {

/// The longest local part an address may have, in characters.
pub const MAX_LOCAL_PART: usize = 64;

/// The longest domain part an address may have, in characters.
pub const MAX_DOMAIN_PART: usize = 255;

/// Whether `s` is an email address by the syntax check of `validator`
/// (`ValidateEmail::validate_email`).
pub uninterp spec fn is_email_address(s: Seq<char>) -> bool;

/// The characters that the local part of an address is made of.
pub open spec fn is_local_char(c: char) -> bool {
    ('a' <= c && c <= 'z') || ('A' <= c && c <= 'Z') || ('0' <= c && c <= '9') || c == '.' || c
        == '!' || c == '#' || c == '$' || c == '%' || c == '&' || c == '\'' || c == '*' || c == '+'
        || c == '/' || c == '=' || c == '?' || c == '^' || c == '_' || c == '`' || c == '{' || c
        == '|' || c == '}' || c == '~' || c == '-'
}

/// `i` is the place of the last `@` of `s`.
pub open spec fn is_last_at(s: Seq<char>, i: int) -> bool {
    &&& 0 <= i < s.len()
    &&& s[i] == '@'
    &&& forall|j: int| i < j < s.len() ==> s[j] != '@'
}

/// `s` has an `@`; what stands before the last one, the local part, is not
/// empty, no longer than `MAX_LOCAL_PART` and made of local characters; what
/// stands behind it, the domain part, is no longer than `MAX_DOMAIN_PART`.
pub open spec fn has_address_outline(s: Seq<char>) -> bool {
    exists|i: int|
        {
            &&& #[trigger] is_last_at(s, i)
            &&& 1 <= i <= MAX_LOCAL_PART
            &&& s.len() - i - 1 <= MAX_DOMAIN_PART
            &&& forall|j: int| 0 <= j < i ==> is_local_char(#[trigger] s[j])
        }
}

/// The message that reports `s` as an invalid address.
pub open spec fn invalid_email_message(s: Seq<char>) -> Seq<char> {
    "invalid email "@ + s
}

/// `ValidateEmail::validate_email` of `validator`, on a string slice. The
/// result is what `is_email_address` names. Of an accepted text the check has
/// found an `@`, cut the text at the last one, and matched the lengths of both
/// parts and the characters of the local part: that is the outline.
#[verifier::external_body]
fn check_email_syntax(s: &str) -> (ok: bool)
    ensures
        ok == is_email_address(s@),
        ok ==> has_address_outline(s@),
{
    s.validate_email()
}

/// A text without an `@` has no address outline.
pub proof fn lemma_outline_needs_at(s: Seq<char>)
    requires
        !s.contains('@'),
    ensures
        !has_address_outline(s),
{
}

/// A text that begins with `@`, and so has an empty local part, has no address
/// outline; nor has the empty text.
pub proof fn lemma_outline_needs_local_part(s: Seq<char>)
    requires
        s.len() == 0 || s[0] == '@',
    ensures
        !has_address_outline(s),
{
    if has_address_outline(s) {
        let i = choose|i: int|
            {
                &&& #[trigger] is_last_at(s, i)
                &&& 1 <= i <= MAX_LOCAL_PART
                &&& s.len() - i - 1 <= MAX_DOMAIN_PART
                &&& forall|j: int| 0 <= j < i ==> is_local_char(#[trigger] s[j])
            };
        assert(is_local_char(s[0]));
    }
}

/// In a text with an address outline the `@` occurs once.
pub proof fn lemma_outline_has_one_at(s: Seq<char>, i: int, j: int)
    requires
        has_address_outline(s),
        0 <= i < s.len(),
        0 <= j < s.len(),
        s[i] == '@',
        s[j] == '@',
    ensures
        i == j,
{
    let k = choose|k: int|
        {
            &&& #[trigger] is_last_at(s, k)
            &&& 1 <= k <= MAX_LOCAL_PART
            &&& s.len() - k - 1 <= MAX_DOMAIN_PART
            &&& forall|j: int| 0 <= j < k ==> is_local_char(#[trigger] s[j])
        };
    if i < k {
        assert(is_local_char(s[i]));
    }
    if j < k {
        assert(is_local_char(s[j]));
    }
}

/// The message that reports `s` as an invalid address.
pub fn email_rejection(s: &str) -> (message: ValidationError)
    ensures
        message@ == invalid_email_message(s@),
{
    String::from_str("invalid email ").concat(s)
}

/// An email address that has passed validation.
#[derive(Debug)]
pub struct SubscriberEmail(String);

impl View for SubscriberEmail {
    type V = Seq<char>;

    closed spec fn view(&self) -> Seq<char> {
        self.0@
    }
}

impl SubscriberEmail {
    #[verifier::type_invariant]
    spec fn well_formed(self) -> bool {
        is_email_address(self.0@) && has_address_outline(self.0@)
    }

    /// Accepts `s` as an address when the syntax check passes, and reports it
    /// otherwise.
    pub fn parse(s: String) -> (res: Result<SubscriberEmail, ValidationError>)
        ensures
            res is Ok <==> is_email_address(s@),
            res matches Ok(email) ==> email@ == s@,
            res matches Err(message) ==> message@ == invalid_email_message(s@),
            res is Ok ==> has_address_outline(s@),
            !s@.contains('@') ==> res is Err,
            s@.len() == 0 || s@[0] == '@' ==> res is Err,
    {
        if check_email_syntax(s.as_str()) {
            proof {
                if !s@.contains('@') {
                    lemma_outline_needs_at(s@);
                }
                if s@.len() == 0 || s@[0] == '@' {
                    lemma_outline_needs_local_part(s@);
                }
            }
            Ok(SubscriberEmail(s))
        } else {
            Err(email_rejection(s.as_str()))
        }
    }

    /// The address as it was given to `parse`.
    pub fn as_ref(&self) -> (s: &str)
        ensures
            s@ == self@,
            is_email_address(s@),
            has_address_outline(s@),
    {
        proof {
            use_type_invariant(self);
        }
        self.0.as_str()
    }
}

} // verus!
