use cndk8::title::{
    link_bot_website_title_lookup, parse_website_title, title_lookup, title_or_error_text, try_fetched_website_title, fetched_website_title,
    try_link_bot_website_title_lookup, try_parse_website_title, try_website_title_lookup,
    website_title_lookup, TitleLookup,
};
use cndk8::url_handler::UrlParts;

fn known(lookup: TitleLookup) -> String {
    match lookup {
        TitleLookup::Known(t) => t,
        TitleLookup::Fetch => panic!("expected a known title"),
    }
}

#[test]
pub fn test_parse_website_title() {
    let html1 = "<html><title> Test Title   </title></html>";
    let title1 = parse_website_title(html1);
    assert_eq!(title1, "Test Title");
}

#[test]
#[should_panic]
pub fn test_parse_website_title_errors() {
    let html2 = "<html><h1>Test Heading</h1></html>";
    let title2 = parse_website_title(html2);
    assert_eq!(title2, "");

    let html3 = "";
    let title3 = parse_website_title(html3);
    assert_eq!(title3, "");
}

#[test]
pub fn test_get_website_title() {
    let mut _url = "https://onlyFans.com/pepe";
    let mut the_response = known(link_bot_website_title_lookup(_url));
    let mut expected = "OF of pepe";
    assert_eq!(expected, the_response);

    _url = "https://twitter.com/foursixnine/status/1074685619618623490?s=20";
    the_response = known(link_bot_website_title_lookup(_url));
    expected = "Tweet from foursixnine";
    assert_eq!(expected, the_response);
}

#[test]
#[should_panic]
pub fn test_get_website_title_invalid_url() {
    let _url = "g https://twitter.com/aakashg0/status/1666962728055889920?s=52&t=scqAqSz4d-mfoKQNQq-fv";
    let the_response = known(link_bot_website_title_lookup(_url));
    let expected = "Broken link";
    assert_eq!(expected, the_response);
}

#[test]
#[should_panic]
pub fn main_test_get_website_title_invalid_url() {
    let _url = "g https://twitter.com/aakashg0/status/1666962728055889920?s=52&t=scqAqSz4d-mfoKQNQq-fv";
    let the_response = known(website_title_lookup(_url));
    let expected = "Broken link";
    assert_eq!(expected, the_response);
}

#[test]
fn link_bot_lookup_refuses_url_without_scheme() {
    assert!(try_link_bot_website_title_lookup("https//fansly.com/happyhooha/posts").is_none());
}

#[test]
fn known_sites_are_titled_from_the_path() {
    assert_eq!(known(website_title_lookup("https://Instagram.com/someone/p/1")), "Instagram of someone");
    assert_eq!(known(website_title_lookup("https://x.com/jack/status/20")), "Tweet from jack");
    assert_eq!(known(website_title_lookup("https://twitter.com/jack")), "Tweet from jack");
    assert_eq!(known(website_title_lookup("https://facebook.com/zuck")), "Facebook link zuck");
    assert_eq!(known(website_title_lookup("https://instagram.com")), "Instagram of ");
}

#[test]
fn link_bot_table_differs() {
    assert_eq!(known(link_bot_website_title_lookup("https://instagram.com/someone")), "OF of someone");
    assert_eq!(known(link_bot_website_title_lookup("https://fansly.com/happyhooha/posts")), "FSL of happyhooha");
    assert!(matches!(website_title_lookup("https://onlyfans.com/pepe"), TitleLookup::Fetch));
}

#[test]
fn other_sites_are_fetched() {
    assert!(matches!(website_title_lookup("https://example.com/a/b"), TitleLookup::Fetch));
    assert!(matches!(website_title_lookup("https://www.twitter.com/a"), TitleLookup::Fetch));
    assert!(matches!(link_bot_website_title_lookup("https://example.com/"), TitleLookup::Fetch));
}

#[test]
fn unparsable_urls_have_no_lookup() {
    assert!(try_website_title_lookup("not a url").is_none());
    assert!(try_website_title_lookup("").is_none());
    assert!(try_website_title_lookup("https://example.com").is_some());
}

#[test]
fn known_site_without_path_segments_has_no_lookup() {
    // A non-special scheme with a host and an empty path has no path segments.
    assert!(try_website_title_lookup("foo://twitter.com").is_none());
    assert!(try_website_title_lookup("foo://example.com").is_some());
}

#[test]
fn title_lookup_from_parts() {
    let parts = UrlParts {
        serialization: "https://x.com/a".to_string(),
        host: Some("x.com".to_string()),
        path_segments: Some(vec!["a".to_string(), "b".to_string()]),
    };
    assert_eq!(known(title_lookup(&parts)), "Tweet from a");
    let parts = UrlParts {
        serialization: "https://example.org/a".to_string(),
        host: Some("example.org".to_string()),
        path_segments: Some(vec!["a".to_string(), "b".to_string()]),
    };
    assert!(matches!(title_lookup(&parts), TitleLookup::Fetch));
}

#[test]
fn hosts_are_matched_after_normalization() {
    assert_eq!(known(website_title_lookup("HTTPS://X.COM/First/second?q=1")), "Tweet from First");
    assert!(matches!(website_title_lookup("https://x.com.evil.org/a"), TitleLookup::Fetch));
}

#[test]
fn page_titles() {
    assert_eq!(
        try_parse_website_title("<html><head><title>\n A page \t</title></head></html>"),
        Some("A page".to_string())
    );
    assert_eq!(try_parse_website_title("<p>no title</p>"), None);
    assert_eq!(
        try_parse_website_title("<title>First</title><title>Second</title>"),
        Some("First".to_string())
    );
}

#[test]
fn fetched_titles() {
    assert_eq!(fetched_website_title::<u8>(Err(3)), Err(3));
    assert_eq!(fetched_website_title::<u8>(Ok("<title> T </title>".to_string())), Ok("T".to_string()));
    assert_eq!(title_or_error_text::<u8>(Err(3)), "error in url");
    assert_eq!(title_or_error_text::<u8>(Ok("T".to_string())), "T");
}

#[test]
fn fetched_titles_checked() {
    assert_eq!(try_fetched_website_title::<u8>(Err(7)), Some(Err(7)));
    assert_eq!(try_fetched_website_title::<u8>(Ok("<p>x</p>".to_string())), None);
    assert_eq!(
        try_fetched_website_title::<u8>(Ok("<title>x</title>".to_string())),
        Some(Ok("x".to_string()))
    );
}

#[test]
fn svg_titles_keep_attribute_order() {
    let page = "<svg><title><b id=\"a\" class=\"c\" lang=\"x\">t</b></title></svg>";
    let first = try_parse_website_title(page);
    assert_eq!(first, Some("<b id=\"a\" class=\"c\" lang=\"x\">t</b>".to_string()));
    for _ in 0..20 {
        assert_eq!(try_parse_website_title(page), first);
    }
}

#[test]
fn known_site_title_uses_the_first_of_several_segments() {
    assert_eq!(known(website_title_lookup("https://x.com/first/second/third")), "Tweet from first");
    assert_eq!(known(link_bot_website_title_lookup("https://fansly.com/a/b")), "FSL of a");
}
