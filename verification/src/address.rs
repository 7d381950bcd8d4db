//! The form that a user's address must have.

use vstd::prelude::*;

verus! {

/// Whether the regular expression `pattern` matches somewhere in `text`;
/// `None` where `pattern` is not a regular expression that can be compiled.
pub uninterp spec fn regex_match(pattern: Seq<char>, text: Seq<char>) -> Option<bool>;

/// Compiles `pattern` with `regex::Regex::new` and searches `text` with
/// `Regex::is_match`. A pattern that does not compile gives `None`.
///
/// Not proved: what the expression matches. The contract only gives the
/// engine's answer a name, which is sound because the answer depends on the
/// pattern and the text alone.
#[verifier::external_body]
pub(crate) fn search(pattern: &str, text: &str) -> (r: Option<bool>)
    ensures
        r == regex_match(pattern@, text@),
{
    regex::Regex::new(pattern).ok().map(|re| re.is_match(text))
}

/// The form of an address: a name of letters, digits and `_ . + -`, an `@`,
/// a domain of letters, digits and `-`, a dot, and a rest of letters, digits,
/// `-` and dots; nothing before, nothing after.
pub open spec fn address_pattern() -> Seq<char> {
    "^[a-zA-Z0-9_.+-]+@[a-zA-Z0-9-]+\\.[a-zA-Z0-9-.]+$"@
}

/// Whether `email` has the form of an address.
pub fn is_valid_email(email: &str) -> (valid: bool)
    ensures
        valid == (regex_match(address_pattern(), email@) == Some(true)),
{
    match search("^[a-zA-Z0-9_.+-]+@[a-zA-Z0-9-]+\\.[a-zA-Z0-9-.]+$", email) {
        Some(found) => found,
        None => false,
    }
}

} // verus!
