use vstd::prelude::*;

verus! {

/// The serialization of the URL that `url::Url::parse` makes of `input`, or
/// `None` where it refuses `input`.
pub uninterp spec fn url_serialization(input: Seq<char>) -> Option<Seq<char>>;

/// What `url::Url::host_str` gives for the URL parsed from `input`.
pub uninterp spec fn url_host(input: Seq<char>) -> Option<Seq<char>>;

/// The items of `url::Url::path_segments` for the URL parsed from `input`,
/// `None` where the URL cannot be a base and so has no path segments.
pub uninterp spec fn url_path_segments(input: Seq<char>) -> Option<Seq<Seq<char>>>;

/// The parts of a parsed URL that the bot reads.
pub struct UrlParts {
    /// The URL as `url::Url` serializes it.
    pub serialization: String,
    /// The host, where the URL has one.
    pub host: Option<String>,
    /// The path segments, where the URL has them.
    pub path_segments: Option<Vec<String>>,
}

/// Calls `url::Url::parse` on `input` and reads the serialization
/// (`Url::as_str`), the host (`Url::host_str`) and the path segments
/// (`Url::path_segments`) of the result.  The contract claims that the result
/// is `None` exactly when parsing fails, that each part is what the named
/// results say, and, as the url crate documents for `path_segments`, that
/// there is at least one path segment where there are any; what the parser
/// does is not stated.
#[verifier::external_body]
pub(crate) fn parse_url(input: &str) -> (res: Option<UrlParts>)
    ensures
        res is Some <==> url_serialization(input@) is Some,
        res matches Some(p) ==> {
            &&& Some(p.serialization@) == url_serialization(input@)
            &&& p.host.deep_view() == url_host(input@)
            &&& p.path_segments.deep_view() == url_path_segments(input@)
            &&& p.path_segments matches Some(v) ==> v.len() >= 1
        },
{
    match url::Url::parse(input) {
        Ok(u) => Some(UrlParts {
            serialization: u.as_str().to_string(),
            host: u.host_str().map(String::from),
            path_segments: u.path_segments().map(|segs| segs.map(String::from).collect()),
        }),
        Err(_) => None,
    }
}

/// A URL that the bot handles, held as its normalized serialization.
pub struct Url {
    url: String,
}

impl View for Url {
    type V = Seq<char>;

    closed spec fn view(&self) -> Seq<char> {
        self.url@
    }
}

/// The text that `Url::to_string` gives for a URL serialized as `url`.
pub open spec fn generic_url_text(url: Seq<char>) -> Seq<char> {
    "Generic url: "@ + url
}

impl Url {
    /// Parses `url`; the caller must pass a string that `url::Url::parse`
    /// accepts.
    pub fn build(url: &str) -> (res: Url)
        requires
            url_serialization(url@) is Some,
        ensures
            Some(res@) == url_serialization(url@),
    {
        match parse_url(url) {
            Some(parts) => Url { url: parts.serialization },
            None => vstd::pervasive::unreached(),
        }
    }

    /// Parses `url`, or gives `None` where `url::Url::parse` refuses it.
    pub fn try_build(url: &str) -> (res: Option<Url>)
        ensures
            res is Some <==> url_serialization(url@) is Some,
            res matches Some(u) ==> Some(u@) == url_serialization(url@),
    {
        match parse_url(url) {
            Some(_) => Some(Url::build(url)),
            None => None,
        }
    }

    /// The URL's serialization.
    pub fn as_url(&self) -> (res: String)
        ensures
            res@ == self@,
    {
        self.url.clone()
    }

    /// The URL as the bot shows it: `Generic url: ` before its serialization.
    pub fn to_string(&self) -> (res: String)
        ensures
            res@ == generic_url_text(self@),
    {
        let mut text = String::from_str("Generic url: ");
        text.append(self.url.as_str());
        text
    }
}

/// `to_string` shows `Generic url: ` and then exactly what `as_url` gives.
pub proof fn lemma_to_string_shows_as_url(u: &Url)
    ensures
        generic_url_text(u@).subrange(0, "Generic url: "@.len() as int) == "Generic url: "@,
        generic_url_text(u@).subrange(
            "Generic url: "@.len() as int,
            generic_url_text(u@).len() as int,
        ) == u@,
{
    assert(generic_url_text(u@).subrange(
        "Generic url: "@.len() as int,
        generic_url_text(u@).len() as int,
    ) =~= u@);
    assert(generic_url_text(u@).subrange(0, "Generic url: "@.len() as int) =~= "Generic url: "@);
}

} // verus!
