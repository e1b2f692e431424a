use vstd::prelude::*;

verus! {

/// The percent-encoded form of a text, as `urlencoding::encode` gives it.
pub uninterp spec fn percent_encoded(s: Seq<char>) -> Seq<char>;

/// The characters that percent-encoding leaves as they are: ASCII letters,
/// digits and `-`, `.`, `_`, `~`.
pub open spec fn is_unreserved(c: char) -> bool {
    ('0' <= c && c <= '9') || ('A' <= c && c <= 'Z') || ('a' <= c && c <= 'z') || c == '-'
        || c == '.' || c == '_' || c == '~'
}

/// Relies on `urlencoding::encode`: the result depends on the text alone, and
/// a text made only of unreserved characters comes back as it is (so an
/// empty text stays empty); every other byte is escaped.
#[verifier::external_body]
pub(crate) fn percent_encode(s: &str) -> (r: String)
    ensures
        r@ == percent_encoded(s@),
        (forall|i: int| 0 <= i < s@.len() ==> is_unreserved(#[trigger] s@[i])) ==> r@ == s@,
{
    urlencoding::encode(s).into_owned()
}

} // verus!
