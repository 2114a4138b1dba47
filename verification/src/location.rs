//! Absolute URLs, as the `url` crate reads them.

use vstd::prelude::*;

verus! {

/// An absolute URL, held as the text that `url` serialises it to.
#[derive(Debug, PartialEq, Eq)]
pub struct Url {
    text: String,
}

impl View for Url {
    type V = Seq<char>;

    closed spec fn view(&self) -> Seq<char> {
        self.text@
    }
}

/// The error of `url::Url::parse`. Nothing is claimed of it: it is only
/// carried from the call to where it is turned into `None`.
#[verifier::external_type_specification]
#[verifier::external_body]
pub struct ExUrlParseError(url::ParseError);

/// The serialisation of the absolute URL that `url::Url::parse` reads from a
/// text, `None` where it refuses the text.
pub uninterp spec fn url_serialization(text: Seq<char>) -> Option<Seq<char>>;

/// Calls `url::Url::parse` and takes the serialisation of what it returns
/// (`Url::as_str`). The contract only names the outcome: the same text always
/// gives the same serialisation or the same refusal.
#[verifier::external_body]
fn url_parse(text: &str) -> (parsed: Result<Url, url::ParseError>)
    ensures
        match parsed {
            Ok(address) => url_serialization(text@) == Some(address@),
            Err(_) => url_serialization(text@) is None,
        },
{
    match url::Url::parse(text) {
        Ok(u) => Ok(Url { text: u.as_str().to_owned() }),
        Err(e) => Err(e),
    }
}

impl Url {
    /// Reads an absolute URL from text, `None` where the text is none.
    pub fn parse(text: &str) -> (parsed: Option<Url>)
        ensures
            match parsed {
                Some(address) => url_serialization(text@) == Some(address@),
                None => url_serialization(text@) is None,
            },
    {
        match url_parse(text) {
            Ok(address) => Some(address),
            Err(_) => None,
        }
    }

    /// The URL as text.
    pub fn as_str(&self) -> (text: &str)
        ensures
            text@ == self@,
    {
        self.text.as_str()
    }
}

impl Clone for Url {
    fn clone(&self) -> (copy: Url)
        ensures
            copy@ == self@,
    {
        Url { text: self.text.clone() }
    }
}

} // verus!
