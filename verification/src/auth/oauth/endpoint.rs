//! Endpoint addresses.

use crate::config::proto::required;
use url::Url;
use vstd::prelude::*;

verus! {

/// Declares `url::ParseError`, the error of `url::Url::parse`. Nothing is
/// said of what a value of it holds.
#[verifier::external_type_specification]
#[verifier::external_body]
pub struct ExParseError(url::ParseError);

/// The text in which the URL parser writes the absolute URL that `input`
/// parses to; `None` where `input` is no absolute URL.
pub uninterp spec fn url_serialization(input: Seq<char>) -> Option<Seq<char>>;

/// Calls `url::Url::parse` and, where it succeeds, hands out the URL's
/// serialization through `String::from`.
///
/// Trusted: whether the parser accepts `input`, and the text it then
/// holds, depend on `input` alone, and are named `url_serialization`.
#[verifier::external_body]
fn parse_url(input: &str) -> (r: Result<String, url::ParseError>)
    ensures
        match r {
            Ok(text) => url_serialization(input@) == Some(text@),
            Err(_) => url_serialization(input@) is None,
        },
{
    Url::parse(input).map(String::from)
}

/// Whether `text` is the address of an endpoint: a text that is not empty
/// and that the URL parser writes for some absolute URL.
pub open spec fn is_endpoint(text: Seq<char>) -> bool {
    &&& text.len() > 0
    &&& exists|input: Seq<char>| url_serialization(input) == Some(text)
}

/// The address of an endpoint: an absolute URL, parsed once and kept as
/// the parser wrote it.
#[derive(Debug, PartialEq, Eq)]
pub struct EndpointUrl {
    text: String,
}

impl View for EndpointUrl {
    type V = Seq<char>;

    closed spec fn view(&self) -> Seq<char> {
        self.text@
    }
}

impl Clone for EndpointUrl {
    fn clone(&self) -> (r: Self)
        ensures
            r@ == self@,
    {
        proof {
            use_type_invariant(self);
        }
        EndpointUrl { text: self.text.clone() }
    }
}

/// The text of an endpoint, where there is one.
pub open spec fn endpoint_text(endpoint: Option<EndpointUrl>) -> Option<Seq<char>> {
    match endpoint {
        Some(url) => Some(url@),
        None => None,
    }
}

impl EndpointUrl {
    /// Every endpoint address is the text of an absolute URL.
    #[verifier::type_invariant]
    pub open spec fn wf(self) -> bool {
        is_endpoint(self@)
    }

    /// The endpoint that `input` names; `None` where `input` is no
    /// absolute URL, or where the parser writes it as nothing.
    pub fn parse(input: &str) -> (r: Option<EndpointUrl>)
        ensures
            endpoint_text(r) == required(url_serialization(input@)),
            r matches Some(url) ==> is_endpoint(url@),
    {
        match parse_url(input) {
            Ok(text) => {
                if text.as_str().is_empty() {
                    None
                } else {
                    Some(EndpointUrl { text })
                }
            },
            Err(_) => None,
        }
    }

    /// The address as text.
    pub fn as_str(&self) -> (r: &str)
        ensures
            r@ == self@,
            is_endpoint(r@),
    {
        proof {
            use_type_invariant(self);
        }
        self.text.as_str()
    }
}

} // verus!
