//! The full builder scenario: override, append, if-not-present, and a
//! custom rule composed into one response-path pass.

use header_chain::adapter::SetMultipleResponseHeaders;
use header_chain::mutation::PreparedHeader;
use http::header::{HeaderMap, HeaderValue, ACCEPT_CHARSET, CONTENT_LENGTH, CONTENT_TYPE};

#[test]
fn test_composing_headers() {
    let custom = PreparedHeader::if_not_present(
        ACCEPT_CHARSET,
        Some(HeaderValue::from_static("utf8")),
    );
    let mut svc = SetMultipleResponseHeaders::new(())
        .overriding(CONTENT_TYPE, HeaderValue::from_static("text/html"))
        .appending(CONTENT_LENGTH, HeaderValue::from_static("abc"))
        .if_not_present(CONTENT_TYPE, HeaderValue::from_static("111"))
        .custom(custom);

    let mut headers = HeaderMap::new();
    headers.insert(CONTENT_TYPE, HeaderValue::from_static("good-content"));
    headers.insert(CONTENT_LENGTH, HeaderValue::from_static("555"));

    svc.mutate(&mut headers);

    let mut values = headers.get_all(CONTENT_TYPE).iter();
    assert_eq!(values.next().unwrap(), "text/html");
    assert_eq!(values.next(), None);
    values = headers.get_all(CONTENT_LENGTH).iter();
    assert_eq!(values.next().unwrap(), "555");
    assert_eq!(values.next().unwrap(), "abc");
    assert_eq!(values.next(), None);
    values = headers.get_all(ACCEPT_CHARSET).iter();
    assert_eq!(values.next().unwrap(), "utf8");
    assert_eq!(values.next(), None);
}

#[test]
fn test_rerun_same_chain_same_outcome() {
    let mut svc = SetMultipleResponseHeaders::new(())
        .overriding(CONTENT_TYPE, HeaderValue::from_static("text/html"))
        .appending(ACCEPT_CHARSET, HeaderValue::from_static("utf8"));

    let mut first = HeaderMap::new();
    first.insert(CONTENT_TYPE, HeaderValue::from_static("good-content"));
    let mut second = first.clone();

    svc.mutate(&mut first);
    svc.mutate(&mut second);

    assert_eq!(first, second);
}
