//! The response-path decision: failed outcomes pass through untouched,
//! successful ones have the chain run.

use header_chain::adapter::apply_on_result;
use header_chain::chain::{MakeFullHeader, NoopMakeHeaders};
use header_chain::mutation::PreparedHeader;
use http::header::{HeaderMap, HeaderValue, HOST};

#[test]
fn test_error_passes_through_unchanged() {
    let mut chain = <PreparedHeader as MakeFullHeader<HeaderMap>>::and(
        PreparedHeader::overriding(HOST, Some(HeaderValue::from_static("never"))),
        NoopMakeHeaders {},
    );

    let outcome: Result<HeaderMap, String> = Err("inner handler failed".to_string());
    let r = apply_on_result(&mut chain, outcome);

    match r {
        Err(e) => assert_eq!(e, "inner handler failed"),
        Ok(_) => panic!("an error outcome must pass through as an error"),
    }
}

#[test]
fn test_success_has_chain_applied() {
    let mut chain = <PreparedHeader as MakeFullHeader<HeaderMap>>::and(
        PreparedHeader::overriding(HOST, Some(HeaderValue::from_static("applied"))),
        NoopMakeHeaders {},
    );

    let outcome: Result<HeaderMap, String> = Ok(HeaderMap::new());
    let r = apply_on_result(&mut chain, outcome);

    let map = r.expect("a successful outcome must stay successful");
    let got: Vec<&HeaderValue> = map.get_all(HOST).iter().collect();
    assert_eq!(got, vec![&HeaderValue::from_static("applied")]);
}
