use vstd::prelude::*;

use crate::text::{trim, trimmed};
use crate::url_handler::{parse_url, url_host, url_path_segments, url_serialization, UrlParts};

verus! {

// ---------------------------------------------------------------------------
// Titles of well-known sites, read off the URL
// ---------------------------------------------------------------------------

/// Where the title for a link comes from: written from the URL alone, or
/// read from the page, which the caller has to fetch.
pub enum TitleLookup {
    Known(String),
    Fetch,
}

impl View for TitleLookup {
    type V = Option<Seq<char>>;

    open spec fn view(&self) -> Option<Seq<char>> {
        match self {
            TitleLookup::Known(t) => Some(t@),
            TitleLookup::Fetch => None,
        }
    }
}

/// What the bot writes before the first path segment for a link to `host`,
/// for the sites it knows; `None` for any other host.
pub open spec fn site_title_prefix(host: Option<Seq<char>>) -> Option<Seq<char>> {
    match host {
        Some(h) => if h == "instagram.com"@ {
            Some("Instagram of "@)
        } else if h == "twitter.com"@ || h == "x.com"@ {
            Some("Tweet from "@)
        } else if h == "facebook.com"@ {
            Some("Facebook link "@)
        } else {
            None
        },
        None => None,
    }
}

/// The same table as the link bot has it: it also knows OnlyFans and
/// Fansly, and labels Instagram links as it labels OnlyFans ones.
pub open spec fn link_bot_site_title_prefix(host: Option<Seq<char>>) -> Option<Seq<char>> {
    match host {
        Some(h) => if h == "onlyfans.com"@ {
            Some("OF of "@)
        } else if h == "fansly.com"@ {
            Some("FSL of "@)
        } else if h == "instagram.com"@ {
            Some("OF of "@)
        } else if h == "twitter.com"@ || h == "x.com"@ {
            Some("Tweet from "@)
        } else if h == "facebook.com"@ {
            Some("Facebook link "@)
        } else {
            None
        },
        None => None,
    }
}

/// The title written from a URL with the path segments `segments`: the
/// site's prefix followed by the first path segment, where the site is known;
/// `None` where the page must be fetched.
pub open spec fn title_from_prefix(
    prefix: Option<Seq<char>>,
    segments: Option<Seq<Seq<char>>>,
) -> Option<Seq<char>> {
    match prefix {
        Some(p) => Some(p + segments->0[0]),
        None => None,
    }
}

/// Whether a URL whose host has the title prefix `prefix` can be titled:
/// a known site needs a first path segment.
pub open spec fn titleable(prefix: Option<Seq<char>>, segments: Option<Seq<Seq<char>>>) -> bool {
    prefix is Some ==> (segments is Some && segments->0.len() > 0)
}

proof fn lemma_hosts_distinct()
    ensures
        "instagram.com"@ != "twitter.com"@,
        "instagram.com"@ != "x.com"@,
        "instagram.com"@ != "facebook.com"@,
        "instagram.com"@ != "onlyfans.com"@,
        "instagram.com"@ != "fansly.com"@,
        "twitter.com"@ != "x.com"@,
        "twitter.com"@ != "facebook.com"@,
        "twitter.com"@ != "onlyfans.com"@,
        "twitter.com"@ != "fansly.com"@,
        "x.com"@ != "facebook.com"@,
        "x.com"@ != "onlyfans.com"@,
        "x.com"@ != "fansly.com"@,
        "facebook.com"@ != "onlyfans.com"@,
        "facebook.com"@ != "fansly.com"@,
        "onlyfans.com"@ != "fansly.com"@,
{
    reveal_strlit("instagram.com");
    reveal_strlit("twitter.com");
    reveal_strlit("x.com");
    reveal_strlit("facebook.com");
    reveal_strlit("onlyfans.com");
    reveal_strlit("fansly.com");
    assert("instagram.com"@.len() == 13);
    assert("twitter.com"@.len() == 11);
    assert("x.com"@.len() == 5);
    assert("facebook.com"@.len() == 12);
    assert("onlyfans.com"@.len() == 12);
    assert("fansly.com"@.len() == 10);
    assert("facebook.com"@[0] != "onlyfans.com"@[0]);
}

/// The note bot knows Instagram, Twitter, X and Facebook: their links are
/// titled `Instagram of `, `Tweet from `, `Tweet from ` and `Facebook link `
/// followed by the first path segment.  No other host is known, and a URL
/// without a host is not either.
pub proof fn lemma_note_bot_sites(host: Seq<char>, segments: Seq<Seq<char>>)
    requires
        segments.len() > 0,
    ensures
        title_from_prefix(site_title_prefix(Some("instagram.com"@)), Some(segments)) == Some(
            "Instagram of "@ + segments[0],
        ),
        title_from_prefix(site_title_prefix(Some("twitter.com"@)), Some(segments)) == Some(
            "Tweet from "@ + segments[0],
        ),
        title_from_prefix(site_title_prefix(Some("x.com"@)), Some(segments)) == Some(
            "Tweet from "@ + segments[0],
        ),
        title_from_prefix(site_title_prefix(Some("facebook.com"@)), Some(segments)) == Some(
            "Facebook link "@ + segments[0],
        ),
        site_title_prefix(Some(host)) is Some ==> host == "instagram.com"@ || host
            == "twitter.com"@ || host == "x.com"@ || host == "facebook.com"@,
        site_title_prefix(None) is None,
{
    lemma_hosts_distinct();
}

/// The link bot knows OnlyFans, Fansly, Instagram, Twitter, X and Facebook:
/// their links are titled `OF of `, `FSL of `, `OF of `, `Tweet from `,
/// `Tweet from ` and `Facebook link ` followed by the first path segment.
/// No other host is known, and a URL without a host is not either.
pub proof fn lemma_link_bot_sites(host: Seq<char>, segments: Seq<Seq<char>>)
    requires
        segments.len() > 0,
    ensures
        title_from_prefix(link_bot_site_title_prefix(Some("onlyfans.com"@)), Some(segments))
            == Some("OF of "@ + segments[0]),
        title_from_prefix(link_bot_site_title_prefix(Some("fansly.com"@)), Some(segments))
            == Some("FSL of "@ + segments[0]),
        title_from_prefix(link_bot_site_title_prefix(Some("instagram.com"@)), Some(segments))
            == Some("OF of "@ + segments[0]),
        title_from_prefix(link_bot_site_title_prefix(Some("twitter.com"@)), Some(segments))
            == Some("Tweet from "@ + segments[0]),
        title_from_prefix(link_bot_site_title_prefix(Some("x.com"@)), Some(segments)) == Some(
            "Tweet from "@ + segments[0],
        ),
        title_from_prefix(link_bot_site_title_prefix(Some("facebook.com"@)), Some(segments))
            == Some("Facebook link "@ + segments[0]),
        link_bot_site_title_prefix(Some(host)) is Some ==> host == "onlyfans.com"@ || host
            == "fansly.com"@ || host == "instagram.com"@ || host == "twitter.com"@ || host
            == "x.com"@ || host == "facebook.com"@,
        link_bot_site_title_prefix(None) is None,
{
    lemma_hosts_distinct();
}

/// A link to a site that the note bot knows gets its title from the URL:
/// the site's prefix and the URL's first path segment; any other link has
/// no known title and is fetched.
pub proof fn lemma_note_bot_website_title(url: Seq<char>)
    requires
        website_titleable(url),
    ensures
        url_host(url) == Some("instagram.com"@) ==> website_title(url) == Some(
            "Instagram of "@ + url_path_segments(url)->0[0],
        ),
        url_host(url) == Some("twitter.com"@) || url_host(url) == Some("x.com"@) ==> website_title(
            url,
        ) == Some("Tweet from "@ + url_path_segments(url)->0[0]),
        url_host(url) == Some("facebook.com"@) ==> website_title(url) == Some(
            "Facebook link "@ + url_path_segments(url)->0[0],
        ),
        !(url_host(url) == Some("instagram.com"@) || url_host(url) == Some("twitter.com"@)
            || url_host(url) == Some("x.com"@) || url_host(url) == Some("facebook.com"@))
            ==> website_title(url) is None,
{
    lemma_hosts_distinct();
}

/// A link that the link bot can title gets, for a known site, the site's
/// prefix and the first path segment of the URL it parsed; any other link
/// has no known title and is fetched.
pub proof fn lemma_link_bot_website_title(url: Seq<char>)
    requires
        link_bot_website_titleable(url),
    ensures
        ({
            let input = link_bot_lookup_input(url);
            let seg = url_path_segments(input)->0[0];
            &&& url_host(input) == Some("onlyfans.com"@) ==> link_bot_website_title(url) == Some(
                "OF of "@ + seg,
            )
            &&& url_host(input) == Some("fansly.com"@) ==> link_bot_website_title(url) == Some(
                "FSL of "@ + seg,
            )
            &&& url_host(input) == Some("instagram.com"@) ==> link_bot_website_title(url) == Some(
                "OF of "@ + seg,
            )
            &&& url_host(input) == Some("twitter.com"@) || url_host(input) == Some("x.com"@)
                ==> link_bot_website_title(url) == Some("Tweet from "@ + seg)
            &&& url_host(input) == Some("facebook.com"@) ==> link_bot_website_title(url) == Some(
                "Facebook link "@ + seg,
            )
            &&& !(url_host(input) == Some("onlyfans.com"@) || url_host(input) == Some(
                "fansly.com"@,
            ) || url_host(input) == Some("instagram.com"@) || url_host(input) == Some(
                "twitter.com"@,
            ) || url_host(input) == Some("x.com"@) || url_host(input) == Some("facebook.com"@))
                ==> link_bot_website_title(url) is None
        }),
{
    lemma_hosts_distinct();
}

fn string_is(s: &String, lit: &str) -> (res: bool)
    ensures
        res == (s@ == lit@),
{
    let other = String::from_str(lit);
    *s == other
}

fn prefix_for_host(host: &Option<String>, link_bot: bool) -> (res: Option<String>)
    ensures
        res.deep_view() == if link_bot {
            link_bot_site_title_prefix(host.deep_view())
        } else {
            site_title_prefix(host.deep_view())
        },
{
    match host {
        Some(h) => {
            if link_bot && string_is(h, "onlyfans.com") {
                Some(String::from_str("OF of "))
            } else if link_bot && string_is(h, "fansly.com") {
                Some(String::from_str("FSL of "))
            } else if string_is(h, "instagram.com") {
                if link_bot {
                    Some(String::from_str("OF of "))
                } else {
                    Some(String::from_str("Instagram of "))
                }
            } else if string_is(h, "twitter.com") || string_is(h, "x.com") {
                Some(String::from_str("Tweet from "))
            } else if string_is(h, "facebook.com") {
                Some(String::from_str("Facebook link "))
            } else {
                None
            }
        },
        None => None,
    }
}

fn lookup_from_prefix(prefix: Option<String>, segments: &Option<Vec<String>>) -> (res:
    TitleLookup)
    requires
        titleable(prefix.deep_view(), segments.deep_view()),
    ensures
        res@ == title_from_prefix(prefix.deep_view(), segments.deep_view()),
{
    match prefix {
        Some(mut p) => {
            match segments {
                Some(segs) => {
                    if segs.len() > 0 {
                        p.append(segs[0].as_str());
                        assert(segments.deep_view()->0[0] == segs[0]@);
                        TitleLookup::Known(p)
                    } else {
                        vstd::pervasive::unreached()
                    }
                },
                None => vstd::pervasive::unreached(),
            }
        },
        None => TitleLookup::Fetch,
    }
}

/// Whether a link with the title prefix `prefix` and the path segments
/// `segments` can be titled.
fn can_title(prefix: &Option<String>, segments: &Option<Vec<String>>) -> (res: bool)
    ensures
        res == titleable(prefix.deep_view(), segments.deep_view()),
{
    match prefix {
        Some(_) => match segments {
            Some(segs) => segs.len() > 0,
            None => false,
        },
        None => true,
    }
}

/// The title for a link whose URL has the parts `parts`: written from the
/// first path segment for Instagram, Twitter/X and Facebook, fetched for any
/// other site.  A known site must have a first path segment.
pub fn title_lookup(parts: &UrlParts) -> (res: TitleLookup)
    requires
        titleable(site_title_prefix(parts.host.deep_view()), parts.path_segments.deep_view()),
    ensures
        res@ == title_from_prefix(
            site_title_prefix(parts.host.deep_view()),
            parts.path_segments.deep_view(),
        ),
{
    let prefix = prefix_for_host(&parts.host, false);
    lookup_from_prefix(prefix, &parts.path_segments)
}

/// `title_lookup` with the table of the link bot.
pub fn link_bot_title_lookup(parts: &UrlParts) -> (res: TitleLookup)
    requires
        titleable(
            link_bot_site_title_prefix(parts.host.deep_view()),
            parts.path_segments.deep_view(),
        ),
    ensures
        res@ == title_from_prefix(
            link_bot_site_title_prefix(parts.host.deep_view()),
            parts.path_segments.deep_view(),
        ),
{
    let prefix = prefix_for_host(&parts.host, true);
    lookup_from_prefix(prefix, &parts.path_segments)
}

/// Whether the bot can title a link to `url`: the URL parses, and a known
/// site has a first path segment.
pub open spec fn website_titleable(url: Seq<char>) -> bool {
    &&& url_serialization(url) is Some
    &&& titleable(site_title_prefix(url_host(url)), url_path_segments(url))
}

/// The known title of a link to `url`, or `None` where the page is fetched.
pub open spec fn website_title(url: Seq<char>) -> Option<Seq<char>> {
    title_from_prefix(site_title_prefix(url_host(url)), url_path_segments(url))
}

/// The title of a link to `url`, or that the page has to be fetched for it.
pub fn website_title_lookup(url: &str) -> (res: TitleLookup)
    requires
        website_titleable(url@),
    ensures
        res@ == website_title(url@),
{
    match parse_url(url) {
        Some(parts) => title_lookup(&parts),
        None => vstd::pervasive::unreached(),
    }
}

/// `website_title_lookup`, or `None` where the URL does not parse or names a
/// known site without a path segment.
pub fn try_website_title_lookup(url: &str) -> (res: Option<TitleLookup>)
    ensures
        res is Some <==> website_titleable(url@),
        res matches Some(r) ==> r@ == website_title(url@),
{
    match parse_url(url) {
        Some(parts) => {
            let prefix = prefix_for_host(&parts.host, false);
            if can_title(&prefix, &parts.path_segments) {
                Some(website_title_lookup(url))
            } else {
                None
            }
        },
        None => None,
    }
}

/// The string that the link bot parses for a link to `url`: `url`
/// itself, or `foursixnine.io` where `url` does not parse.
pub open spec fn link_bot_lookup_input(url: Seq<char>) -> Seq<char> {
    if url_serialization(url) is Some {
        url
    } else {
        "foursixnine.io"@
    }
}

/// Whether the link bot can title a link to `url`.
pub open spec fn link_bot_website_titleable(url: Seq<char>) -> bool {
    let input = link_bot_lookup_input(url);
    &&& url_serialization(input) is Some
    &&& titleable(link_bot_site_title_prefix(url_host(input)), url_path_segments(input))
}

/// The known title that the link bot gives a link to `url`.
pub open spec fn link_bot_website_title(url: Seq<char>) -> Option<Seq<char>> {
    let input = link_bot_lookup_input(url);
    title_from_prefix(link_bot_site_title_prefix(url_host(input)), url_path_segments(input))
}

/// `website_title_lookup` as the link bot does it: its own table,
/// and `foursixnine.io` parsed in place of a URL that does not parse.
pub fn link_bot_website_title_lookup(url: &str) -> (res: TitleLookup)
    requires
        link_bot_website_titleable(url@),
    ensures
        res@ == link_bot_website_title(url@),
{
    let parts = match parse_url(url) {
        Some(parts) => parts,
        None => {
            let fallback = "foursixnine.io";
            match parse_url(fallback) {
                Some(parts) => parts,
                None => vstd::pervasive::unreached(),
            }
        },
    };
    link_bot_title_lookup(&parts)
}

/// `link_bot_website_title_lookup`, or `None` where it cannot title the link.
pub fn try_link_bot_website_title_lookup(url: &str) -> (res: Option<TitleLookup>)
    ensures
        res is Some <==> link_bot_website_titleable(url@),
        res matches Some(r) ==> r@ == link_bot_website_title(url@),
{
    let parts = match parse_url(url) {
        Some(parts) => parts,
        None => match parse_url("foursixnine.io") {
            Some(parts) => parts,
            None => {
                return None;
            },
        },
    };
    let prefix = prefix_for_host(&parts.host, true);
    if can_title(&prefix, &parts.path_segments) {
        Some(link_bot_website_title_lookup(url))
    } else {
        None
    }
}

// ---------------------------------------------------------------------------
// Titles read from a page
// ---------------------------------------------------------------------------

/// What `scraper` finds in `html` for the CSS selector `selector`: `None`
/// where the selector does not parse, else the inner HTML of the first
/// element that `Html::select` yields for it, if any.
pub uninterp spec fn first_match_inner_html(html: Seq<char>, selector: Seq<char>) -> Option<
    Option<Seq<char>>,
>;

/// Parses `html` with `scraper::Html::parse_document`, parses `selector` with
/// `scraper::Selector::parse`, and gives the `inner_html` of the first element
/// that `Html::select` yields.  With scraper's `deterministic` feature the
/// serializer writes attributes in document order, so the result depends on
/// the two strings alone.  The contract only names the result; what the HTML
/// parser and the serializer do is not stated.
#[verifier::external_body]
fn select_first_inner_html(html: &str, selector: &str) -> (res: Option<Option<String>>)
    ensures
        res.deep_view() == first_match_inner_html(html@, selector@),
{
    let document = scraper::Html::parse_document(html);
    match scraper::Selector::parse(selector) {
        Ok(sel) => Some(document.select(&sel).next().as_ref().map(scraper::ElementRef::inner_html)),
        Err(_) => None,
    }
}

/// The inner HTML of the first `<title>` element that `Html::select` yields
/// for `html`, if it yields one.
pub open spec fn html_title_inner(html: Seq<char>) -> Option<Seq<char>> {
    match first_match_inner_html(html, "title"@) {
        Some(Some(t)) => Some(t),
        _ => None,
    }
}

/// The title of the page `html`: the inner HTML of the first `<title>`
/// element that `Html::select` yields, without surrounding white space.  The
/// page must have a title.
pub fn parse_website_title(html: &str) -> (res: String)
    requires
        html_title_inner(html@) is Some,
    ensures
        res@ == trimmed(html_title_inner(html@)->0),
{
    match select_first_inner_html(html, "title") {
        Some(Some(inner)) => trim(inner.as_str()),
        _ => vstd::pervasive::unreached(),
    }
}

/// `parse_website_title`, or `None` where the page has no title.
pub fn try_parse_website_title(html: &str) -> (res: Option<String>)
    ensures
        res is Some <==> html_title_inner(html@) is Some,
        res matches Some(t) ==> t@ == trimmed(html_title_inner(html@)->0),
{
    match select_first_inner_html(html, "title") {
        Some(Some(_)) => Some(parse_website_title(html)),
        _ => None,
    }
}

/// The text that stands in a note for the title of a link whose title
/// could not be found.
pub open spec fn unreachable_title() -> Seq<char> {
    "error in url"@
}

/// A link whose title could not be found is shown as `error in url`.
pub proof fn lemma_unreachable_title_text()
    ensures
        unreachable_title() == "error in url"@,
{
}

/// The title of a link whose page was fetched, given what the fetch gave:
/// the page's title where it gave the page, its error unchanged where it
/// failed.  A fetched page must have a title.
pub fn fetched_website_title<E>(fetched: Result<String, E>) -> (res: Result<String, E>)
    requires
        fetched matches Ok(html) ==> html_title_inner(html@) is Some,
    ensures
        match fetched {
            Ok(html) => res matches Ok(t) && t@ == trimmed(html_title_inner(html@)->0),
            Err(e) => res == Err::<String, E>(e),
        },
{
    match fetched {
        Ok(html) => Ok(parse_website_title(html.as_str())),
        Err(e) => Err(e),
    }
}

/// `fetched_website_title`, or `None` where the fetched page has no title.
pub fn try_fetched_website_title<E>(fetched: Result<String, E>) -> (res: Option<Result<String, E>>)
    ensures
        res is Some <==> (fetched matches Ok(html) ==> html_title_inner(html@) is Some),
        res matches Some(r) ==> match fetched {
            Ok(html) => r matches Ok(t) && t@ == trimmed(html_title_inner(html@)->0),
            Err(e) => r == Err::<String, E>(e),
        },
{
    match fetched {
        Ok(html) => match try_parse_website_title(html.as_str()) {
            Some(_) => Some(fetched_website_title(Ok(html))),
            None => None,
        },
        Err(e) => Some(Err(e)),
    }
}

/// The text that a note shows for a link's title: the title where it was
/// found, `error in url` where finding it failed.
pub fn title_or_error_text<E>(title: Result<String, E>) -> (res: String)
    ensures
        res@ == match title {
            Ok(t) => t@,
            Err(_) => unreachable_title(),
        },
{
    match title {
        Ok(t) => t,
        Err(_) => String::from_str("error in url"),
    }
}

} // verus!
