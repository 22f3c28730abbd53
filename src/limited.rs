use vstd::prelude::*;
use vstd::string::StringSliceAdditionalSpecFns;
use url::{ParseError, Url};

verus! {

/// The number of bytes that the UTF-8 encoding of `s` takes.
pub open spec fn byte_len(s: Seq<char>) -> nat {
    vstd::utf8::encode_utf8(s).len()
}

/// A string of at most `L` bytes.
///
/// The service behind these models limits the length of many fields; holding
/// them in this type rejects a value that is too long before any request is sent.
#[derive(Clone, Debug, PartialEq, Eq)]
pub struct LimitedStr<const L: usize>(String);

impl<const L: usize> View for LimitedStr<L> {
    type V = Seq<char>;

    closed spec fn view(&self) -> Seq<char> {
        self.0@
    }
}

/// A text that was longer than its limit, with that limit.
#[derive(Clone, Copy, Debug, PartialEq, Eq)]
pub struct ExceededLimitError<'a>(&'a str, usize);

impl<'a> ExceededLimitError<'a> {
    /// The text that was refused.
    pub closed spec fn spec_value(&self) -> Seq<char> {
        self.0@
    }

    /// The limit that it broke.
    pub closed spec fn spec_limit(&self) -> usize {
        self.1
    }

    /// The text that was refused.
    pub fn value(&self) -> (r: &'a str)
        ensures
            r@ == self.spec_value(),
    {
        self.0
    }

    /// The limit that it broke.
    pub fn limit(&self) -> (r: usize)
        ensures
            r == self.spec_limit(),
    {
        self.1
    }
}

impl<const L: usize> LimitedStr<L> {
    /// A value obtained from `try_from` is never longer than `L` bytes.
    pub open spec fn wf(&self) -> bool {
        byte_len(self@) <= L
    }

    /// Keeps `value` without checking its length. This is for values that are
    /// known to be within the limit already (those that the service sent); one
    /// that is too long is refused by the service when it is sent back.
    pub fn new_unchecked(value: String) -> (r: Self)
        ensures
            r@ == value@,
    {
        LimitedStr(value)
    }

    /// The text.
    pub fn as_str(&self) -> (r: &str)
        ensures
            r@ == self@,
    {
        self.0.as_str()
    }

    /// The text, as an owned string.
    pub fn to_string(&self) -> (r: String)
        ensures
            r@ == self@,
    {
        self.0.clone()
    }
}

impl<const L: usize> core::ops::Deref for LimitedStr<L> {
    type Target = str;

    fn deref(&self) -> (r: &str)
        ensures
            r@ == self@,
    {
        self.0.as_str()
    }
}

impl<'a, const L: usize> vstd::std_specs::convert::TryFromSpecImpl<&'a str> for LimitedStr<L> {
    /// The contract of `try_from` below says what it returns.
    open spec fn obeys_try_from_spec() -> bool {
        false
    }

    open spec fn try_from_spec(v: &'a str) -> Result<LimitedStr<L>, ExceededLimitError<'a>> {
        arbitrary()
    }
}

impl<'a, const L: usize> TryFrom<&'a str> for LimitedStr<L> {
    type Error = ExceededLimitError<'a>;

    /// Keeps `value` when it takes at most `L` bytes; refuses it otherwise,
    /// naming it and the limit.
    fn try_from(value: &'a str) -> (r: Result<LimitedStr<L>, ExceededLimitError<'a>>)
        ensures
            byte_len(value@) <= L <==> r is Ok,
            r matches Ok(s) ==> s@ == value@ && s.wf(),
            r matches Err(e) ==> e.spec_value() == value@ && e.spec_limit() == L,
    {
        if value.as_bytes().len() > L {
            Err(ExceededLimitError(value, L))
        } else {
            Ok(LimitedStr(value.to_owned()))
        }
    }
}

/// A parsed URL of the `url` crate, carried as it is.
#[verifier::external_type_specification]
#[verifier::external_body]
pub struct ExUrl(Url);

/// Relies on the `Clone` impl of `url::Url`, which is derived: the copy equals
/// the original.
pub assume_specification[ <Url as Clone>::clone ](u: &Url) -> (r: Url)
    ensures
        r == *u,
;

/// Why the `url` crate refused a text, carried as it is.
#[verifier::external_type_specification]
#[verifier::external_body]
pub struct ExParseError(ParseError);

/// Whether the `url` crate reads `s` as an absolute URL.
pub uninterp spec fn url_parses(s: Seq<char>) -> bool;

/// Relies on `url::Url::parse`: it returns a URL exactly when it can read the
/// text as an absolute URL, and that depends on the text alone.
#[verifier::external_body]
fn parse_url(s: &str) -> (r: Result<Url, ParseError>)
    ensures
        r is Ok <==> url_parses(s@),
{
    Url::parse(s)
}

/// A URL whose text is at most `L` bytes long.
#[derive(Clone, Debug, PartialEq, Eq)]
pub struct LimitedUrl<const L: usize>(Url);

/// Why a text was refused as a bounded URL.
#[derive(Clone, Copy, Debug, PartialEq, Eq)]
pub enum LimitedUrlError<'a> {
    /// The text is longer than the limit, which is carried with it.
    ExceededLimitError(&'a str, usize),
    /// The text is no absolute URL.
    ParseError(ParseError),
}

impl<'a> From<ParseError> for LimitedUrlError<'a> {
    fn from(value: ParseError) -> (r: LimitedUrlError<'a>)
        ensures
            r == LimitedUrlError::<'a>::ParseError(value),
    {
        LimitedUrlError::ParseError(value)
    }
}

impl<'a> vstd::std_specs::convert::FromSpecImpl<ParseError> for LimitedUrlError<'a> {
    open spec fn obeys_from_spec() -> bool {
        true
    }

    open spec fn from_spec(v: ParseError) -> LimitedUrlError<'a> {
        LimitedUrlError::ParseError(v)
    }
}

impl<const L: usize> LimitedUrl<L> {
    /// The URL that this value holds.
    pub closed spec fn spec_url(&self) -> Url {
        self.0
    }

    /// Keeps `url` without checking its length. This is for values that are
    /// known to be within the limit already (those that the service sent).
    pub fn new_unchecked(url: Url) -> (r: Self)
        ensures
            r.spec_url() == url,
    {
        LimitedUrl(url)
    }

    /// The URL.
    pub fn as_url(&self) -> (r: &Url)
        ensures
            *r == self.spec_url(),
    {
        &self.0
    }
}

impl<const L: usize> core::ops::Deref for LimitedUrl<L> {
    type Target = Url;

    fn deref(&self) -> (r: &Url)
        ensures
            *r == self.spec_url(),
    {
        &self.0
    }
}

impl<const L: usize> From<Url> for LimitedUrl<L> {
    fn from(value: Url) -> (r: LimitedUrl<L>)
        ensures
            r.spec_url() == value,
    {
        LimitedUrl(value)
    }
}

impl<const L: usize> vstd::std_specs::convert::FromSpecImpl<Url> for LimitedUrl<L> {
    open spec fn obeys_from_spec() -> bool {
        false
    }

    open spec fn from_spec(v: Url) -> LimitedUrl<L> {
        arbitrary()
    }
}

impl<'a, const L: usize> vstd::std_specs::convert::TryFromSpecImpl<&'a str> for LimitedUrl<L> {
    /// The contract of `try_from` below says what it returns.
    open spec fn obeys_try_from_spec() -> bool {
        false
    }

    open spec fn try_from_spec(v: &'a str) -> Result<LimitedUrl<L>, LimitedUrlError<'a>> {
        arbitrary()
    }
}

impl<'a, const L: usize> TryFrom<&'a str> for LimitedUrl<L> {
    type Error = LimitedUrlError<'a>;

    /// Checks the length of `value` first, then parses it as a URL.
    fn try_from(value: &'a str) -> (r: Result<LimitedUrl<L>, LimitedUrlError<'a>>)
        ensures
            r is Ok <==> byte_len(value@) <= L && url_parses(value@),
            byte_len(value@) > L ==> (r matches Err(LimitedUrlError::ExceededLimitError(v, l)) && v@
                == value@ && l == L),
            byte_len(value@) <= L && !url_parses(value@) ==> r matches Err(
                LimitedUrlError::ParseError(_),
            ),
    {
        if value.as_bytes().len() > L {
            return Err(LimitedUrlError::ExceededLimitError(value, L));
        }
        match parse_url(value) {
            Ok(url) => Ok(LimitedUrl(url)),
            Err(e) => Err(LimitedUrlError::from(e)),
        }
    }
}

} // verus!
