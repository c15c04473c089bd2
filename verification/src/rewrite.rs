//! Canonical spelling of CPE identifiers, so that different encodings of
//! one identifier are stored and searched as the same term.

use crate::schema::str_equal;
use vstd::prelude::*;

verus! {

/// The canonical spelling that the CPE parser gives a CPE URI, or `None`
/// where the text is no CPE URI.
pub uninterp spec fn cpe_canonical(value: Seq<char>) -> Option<Seq<char>>;

/// Parses a CPE URI with `cpe::uri::Uri::parse` and prints it again. The
/// outcome is a function of the text alone; nothing more is claimed of it.
#[verifier::external_body]
fn canonical_cpe(value: &str) -> (canonical: Option<String>)
    ensures
        match canonical {
            Some(text) => cpe_canonical(value@) == Some(text@),
            None => cpe_canonical(value@) is None,
        },
{
    match cpe::uri::Uri::parse(value) {
        Ok(uri) => Some(uri.to_string()),
        Err(_) => None,
    }
}

/// The prefix by which a value is taken for a CPE URI.
pub open spec fn cpe_prefix() -> Seq<char> {
    seq!['c', 'p', 'e', ':', '/']
}

/// What a value is rewritten to, given the canonical spelling that the
/// parser has for it: that spelling where the value has the CPE prefix and
/// the parser takes it, otherwise the value itself.
pub open spec fn rewritten_with(value: Seq<char>, canonical: Option<Seq<char>>) -> Seq<char> {
    if cpe_prefix().is_prefix_of(value) && canonical is Some {
        canonical->0
    } else {
        value
    }
}

/// What a value is rewritten to before it is stored or searched for.
pub open spec fn rewritten(value: Seq<char>) -> Seq<char> {
    rewritten_with(value, cpe_canonical(value))
}

/// Whether a string begins with another.
pub fn has_prefix(text: &str, prefix: &str) -> (found: bool)
    ensures
        found == prefix@.is_prefix_of(text@),
{
    let n = prefix.unicode_len();
    if text.unicode_len() < n {
        return false;
    }
    let head = text.substring_char(0, n);
    let found = str_equal(head, prefix);
    proof {
        if found {
            assert(prefix@ =~= text@.subrange(0, n as int));
        } else if prefix@.is_prefix_of(text@) {
            assert(text@.subrange(0, n as int) =~= prefix@);
        }
    }
    found
}

/// Rewrites a value, given what the CPE parser made of it.
pub fn rewrite_cpe_with(value: &str, canonical: Option<String>) -> (text: String)
    ensures
        text@ == rewritten_with(
            value@,
            match canonical {
                Some(c) => Some(c@),
                None => None,
            },
        ),
{
    proof {
        reveal_strlit("cpe:/");
        assert("cpe:/"@ =~= cpe_prefix());
    }
    if has_prefix(value, "cpe:/") {
        if let Some(c) = canonical {
            return c;
        }
    }
    String::from_str(value)
}

/// Rewrites a value that has the CPE prefix to its canonical spelling.
/// Any other value, and one that the parser does not take, is returned
/// unchanged.
pub fn rewrite_cpe(value: &str) -> (text: String)
    ensures
        text@ == rewritten(value@),
{
    proof {
        reveal_strlit("cpe:/");
        assert("cpe:/"@ =~= cpe_prefix());
    }
    if has_prefix(value, "cpe:/") {
        rewrite_cpe_with(value, canonical_cpe(value))
    } else {
        String::from_str(value)
    }
}

/// Two spellings of one CPE are rewritten to the same term: where the
/// parser takes both values and gives them one canonical spelling, and
/// both have the CPE prefix, what is stored for the one is what is searched
/// for the other.
pub proof fn lemma_equivalent_cpes_rewrite_alike(a: Seq<char>, b: Seq<char>)
    requires
        cpe_prefix().is_prefix_of(a),
        cpe_prefix().is_prefix_of(b),
        cpe_canonical(a) is Some,
        cpe_canonical(a) == cpe_canonical(b),
    ensures
        rewritten(a) == rewritten(b),
{
}

} // verus!
