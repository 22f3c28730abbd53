use pluralkit_models::limited::{LimitedStr, LimitedUrl, LimitedUrlError};

#[test]
fn limited_str_accepts_text_within_limit() {
    let s = LimitedStr::<5>::try_from("hello").unwrap();
    assert_eq!(&*s, "hello");
    assert_eq!(s.as_str(), "hello");
    assert_eq!(s.to_string(), String::from("hello"));
}

#[test]
fn limited_str_refuses_text_over_limit() {
    let e = LimitedStr::<5>::try_from("hello!").unwrap_err();
    assert_eq!(e.value(), "hello!");
    assert_eq!(e.limit(), 5);
}

#[test]
fn limited_str_accepts_empty_text() {
    let s = LimitedStr::<0>::try_from("").unwrap();
    assert_eq!(s.as_str(), "");
    assert!(LimitedStr::<0>::try_from("a").is_err());
}

#[test]
fn limited_str_counts_bytes() {
    // "é" takes two bytes.
    assert!(LimitedStr::<2>::try_from("é").is_ok());
    let e = LimitedStr::<2>::try_from("éa").unwrap_err();
    assert_eq!(e.limit(), 2);
    assert_eq!(e.value(), "éa");
}

#[test]
fn limited_str_unchecked_keeps_long_text() {
    let s = LimitedStr::<3>::new_unchecked(String::from("too long"));
    assert_eq!(s.as_str(), "too long");
}

#[test]
fn limited_url_accepts_url() {
    let u = LimitedUrl::<256>::try_from("https://example.com/a.png").unwrap();
    assert_eq!(u.as_str(), "https://example.com/a.png");
    assert_eq!(u.as_url().host_str(), Some("example.com"));
}

#[test]
fn limited_url_checks_length_first() {
    let e = LimitedUrl::<5>::try_from("not a url at all").unwrap_err();
    assert_eq!(e, LimitedUrlError::ExceededLimitError("not a url at all", 5));
}

#[test]
fn limited_url_refuses_relative_text() {
    let e = LimitedUrl::<256>::try_from("no scheme").unwrap_err();
    assert_eq!(e, LimitedUrlError::ParseError(url::ParseError::RelativeUrlWithoutBase));
}

#[test]
fn limited_url_from_url() {
    let url = url::Url::parse("https://example.com/").unwrap();
    let u = LimitedUrl::<10>::from(url.clone());
    assert_eq!(*u, url);
    let v = LimitedUrl::<10>::new_unchecked(url.clone());
    assert_eq!(*v.as_url(), url);
}
