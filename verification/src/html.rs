//! HTML character references.

use vstd::prelude::*;

verus! {

/// A text with its HTML character references replaced by the characters
/// they stand for.
pub uninterp spec fn html_decoded(text: Seq<char>) -> Seq<char>;

/// `html_escape::decode_html_entities`: the text with each named or numeric
/// character reference that ends in `;` replaced. A text without `&` holds no
/// reference and comes back as it is.
#[verifier::external_body]
pub(crate) fn decode_html_entities(text: &str) -> (r: String)
    ensures
        r@ == html_decoded(text@),
        !text@.contains('&') ==> r@ == text@,
{
    html_escape::decode_html_entities(text).into_owned()
}

} // verus!
