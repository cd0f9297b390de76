//! Addresses, parsed by `reqwest`.
use reqwest::Url;
use vstd::prelude::*;

verus! {

/// What `Url::parse` makes of a text: the address written in its normal form, or nothing where the
/// text is no absolute address.
pub uninterp spec fn parsed_url(text: Seq<char>) -> Option<Seq<char>>;

/// The characters of a text that may be missing.
pub open spec fn text_of(text: Option<String>) -> Option<Seq<char>> {
    match text {
        Some(text) => Some(text@),
        None => None,
    }
}

/// `Url::parse`, followed by the address's own text. Whether a text parses, and what its normal
/// form is, depends on the text alone.
#[verifier::external_body]
pub(crate) fn parse_url(text: &str) -> (address: Option<String>)
    ensures
        text_of(address) == parsed_url(text@),
{
    match Url::parse(text) {
        Ok(url) => Some(url.to_string()),
        Err(_) => None,
    }
}

} // verus!
