use cndk8::url_handler::Url;

#[test]
pub fn test_generic_url() {
    let myurl = "https://onlypans.com/pepe";
    let the_response = Url::build(myurl);
    let expected = "Generic url: https://onlypans.com/pepe";
    assert_eq!(expected, the_response.to_string());
}

#[test]
pub fn test_generic_as_url() {
    let myurl = "https://onlYpans.com/pepe";
    let the_response = Url::build(myurl);
    let expected = "https://onlypans.com/pepe";
    assert_eq!(expected, the_response.as_url());
}

#[test]
pub fn test_onlyfans_url() {
    let myurl = "https://OnlyFans.com/pepe";
    let the_response = Url::build(myurl);
    let expected = "Generic url: https://onlyfans.com/pepe";
    assert_eq!(expected, the_response.to_string());
}

#[test]
pub fn test_facebook_url() {
    let myurl = "https://facebook.com/pepe";
    let the_response = Url::build(myurl);
    let expected = "Generic url: https://facebook.com/pepe";
    assert_eq!(expected, the_response.to_string());
}

#[test]
fn try_build_refuses_relative_urls() {
    assert!(Url::try_build("onlypans.com/pepe").is_none());
    let u = Url::try_build("HTTPS://EXAMPLE.com").unwrap();
    assert_eq!(u.as_url(), "https://example.com/");
    assert_eq!(u.to_string(), format!("Generic url: {}", u.as_url()));
}
