//! The display name of a subscriber.

use crate::domain::ValidationError;
use unicode_segmentation::UnicodeSegmentation;
use vstd::prelude::*;

verus! {

/// The largest number of grapheme clusters a name may have.
pub const MAX_NAME_GRAPHEMES: usize = 255;

/// The characters that no name may hold.
pub open spec fn is_forbidden(c: char) -> bool {
    c == '/' || c == '(' || c == ')' || c == '"' || c == '<' || c == '>' || c == '\\' || c == '{'
        || c == '}'
}

/// Some character of `s` is forbidden.
pub open spec fn has_forbidden(s: Seq<char>) -> bool {
    exists|i: int| 0 <= i < s.len() && is_forbidden(#[trigger] s[i])
}

/// Whether `c` has the Unicode property `White_Space`, as `char::is_whitespace`
/// reports it.
pub uninterp spec fn is_whitespace(c: char) -> bool;

/// Every character of `s` is whitespace; the empty text is blank.
pub open spec fn is_blank(s: Seq<char>) -> bool {
    forall|i: int| 0 <= i < s.len() ==> is_whitespace(#[trigger] s[i])
}

/// The number of extended grapheme clusters of `s`, as the segmentation of
/// `unicode_segmentation` counts them.
pub uninterp spec fn grapheme_count(s: Seq<char>) -> nat;

/// The rule on the three observations made of a raw name.
pub open spec fn name_rule(blank: bool, graphemes: nat, forbidden: bool) -> bool {
    !blank && graphemes <= MAX_NAME_GRAPHEMES && !forbidden
}

/// A text is a valid name when it is not blank, has at most
/// `MAX_NAME_GRAPHEMES` grapheme clusters and holds no forbidden character.
pub open spec fn is_valid_name(s: Seq<char>) -> bool {
    name_rule(is_blank(s), grapheme_count(s), has_forbidden(s))
}

/// The message that reports `s` as an invalid name.
pub open spec fn invalid_name_message(s: Seq<char>) -> Seq<char> {
    s + " is not valid subscriber name"@
}

/// `char::is_whitespace` of std: the result is the `White_Space` property of
/// the character, which `is_whitespace` names.
pub assume_specification[ char::is_whitespace ](c: char) -> (b: bool)
    ensures
        b == is_whitespace(c),
;

/// `UnicodeSegmentation::graphemes` with extended clusters, counted with
/// `Iterator::count`: the result is the number of clusters that the text is
/// cut into, which `grapheme_count` names.
#[verifier::external_body]
fn count_graphemes(s: &str) -> (n: usize)
    ensures
        n == grapheme_count(s@),
{
    s.graphemes(true).count()
}

/// Whether `c` is one of the forbidden characters.
pub fn is_forbidden_char(c: char) -> (b: bool)
    ensures
        b == is_forbidden(c),
{
    c == '/' || c == '(' || c == ')' || c == '"' || c == '<' || c == '>' || c == '\\' || c == '{'
        || c == '}'
}

/// Whether `s` holds a forbidden character.
pub fn contains_forbidden(s: &str) -> (b: bool)
    ensures
        b == has_forbidden(s@),
{
    let mut found = false;
    for c in it: s.chars()
        invariant
            it.seq() == s@,
            found == (exists|i: int| 0 <= i < it.index() && is_forbidden(#[trigger] s@[i])),
    {
        if is_forbidden_char(c) {
            found = true;
        }
    }
    found
}

/// Whether `s` is empty or made of whitespace alone.
pub fn is_blank_text(s: &str) -> (b: bool)
    ensures
        b == is_blank(s@),
{
    let mut blank = true;
    for c in it: s.chars()
        invariant
            it.seq() == s@,
            blank == (forall|i: int| 0 <= i < it.index() ==> is_whitespace(#[trigger] s@[i])),
    {
        if !c.is_whitespace() {
            blank = false;
        }
    }
    blank
}

/// Whether the rule accepts a raw name of which these three things were
/// observed: that it is blank, how many grapheme clusters it has, and that it
/// holds a forbidden character.
pub fn rule_accepts(blank: bool, graphemes: usize, forbidden: bool) -> (ok: bool)
    ensures
        ok == name_rule(blank, graphemes as nat, forbidden),
{
    !blank && graphemes <= MAX_NAME_GRAPHEMES && !forbidden
}

/// The message that reports `s` as an invalid name.
pub fn name_rejection(s: &str) -> (message: ValidationError)
    ensures
        message@ == invalid_name_message(s@),
{
    String::from_str(s).concat(" is not valid subscriber name")
}

/// A display name that has passed validation.
pub struct SubsciberName(String);

impl View for SubsciberName {
    type V = Seq<char>;

    closed spec fn view(&self) -> Seq<char> {
        self.0@
    }
}

impl SubsciberName {
    #[verifier::type_invariant]
    spec fn well_formed(self) -> bool {
        is_valid_name(self.0@)
    }

    /// Accepts `s` as a name when it is valid, and reports it otherwise.
    pub fn parse(s: String) -> (res: Result<SubsciberName, ValidationError>)
        ensures
            res is Ok <==> is_valid_name(s@),
            res matches Ok(name) ==> name@ == s@,
            res matches Err(message) ==> message@ == invalid_name_message(s@),
            s@.len() == 0 || is_blank(s@) || grapheme_count(s@) > 255 || has_forbidden(s@)
                ==> res is Err,
            !is_blank(s@) && grapheme_count(s@) <= 255 && !has_forbidden(s@) ==> res is Ok,
    {
        let blank = is_blank_text(s.as_str());
        let graphemes = count_graphemes(s.as_str());
        let forbidden = contains_forbidden(s.as_str());
        if rule_accepts(blank, graphemes, forbidden) {
            Ok(SubsciberName(s))
        } else {
            Err(name_rejection(s.as_str()))
        }
    }

    /// The name as it was given to `parse`.
    pub fn as_ref(&self) -> (s: &str)
        ensures
            s@ == self@,
            is_valid_name(s@),
    {
        proof {
            use_type_invariant(self);
        }
        self.0.as_str()
    }
}

} // verus!
