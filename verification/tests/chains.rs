//! Chain composition: yield counts, evaluation order, producers, and
//! chain copies.

use std::marker::PhantomData;

use header_chain::adapter::{
    SetManyRequestHeadersLayer, SetMultipleResponseHeaders, SetMultipleResponseHeadersLayer,
    SetRequestHeader,
};
use header_chain::chain::{MakeFullHeader, MakeHeaders, NoopMakeHeaders, ToMakeHeaders};
use header_chain::laws::evaluate_twice;
use header_chain::mutation::{InsertHeaderMode, PreparedHeader};
use http::header::{HeaderMap, HeaderValue, CONTENT_TYPE, HOST};

fn values(map: &HeaderMap, name: http::header::HeaderName) -> Vec<&HeaderValue> {
    map.get_all(name).iter().collect()
}

#[test]
fn test_empty_chain_yields_nothing() {
    let mut chain = NoopMakeHeaders {};
    let map = HeaderMap::new();
    let muts = chain.make_headers(&map);
    assert_eq!(muts.len(), 0);
}

#[test]
fn test_chain_yield_matches_rule_count() {
    let rule = |name, val: &'static str, mode| ToMakeHeaders {
        _marker: PhantomData,
        header_name: name,
        mode,
        make: HeaderValue::from_static(val),
    };
    let mut chain = rule(HOST, "c", InsertHeaderMode::Append).and(
        rule(HOST, "b", InsertHeaderMode::Append).and(
            rule(HOST, "a", InsertHeaderMode::Append).and(NoopMakeHeaders {}),
        ),
    );
    let map = HeaderMap::new();
    let muts = chain.make_headers(&map);
    assert_eq!(muts.len(), 3);
}

#[test]
fn test_rules_take_effect_in_attachment_order() {
    let mut svc = SetMultipleResponseHeaders::new(())
        .appending(HOST, HeaderValue::from_static("first"))
        .appending(HOST, HeaderValue::from_static("second"));

    let mut headers = HeaderMap::new();
    svc.mutate(&mut headers);

    assert_eq!(
        values(&headers, HOST),
        vec![&HeaderValue::from_static("first"), &HeaderValue::from_static("second")]
    );
}

#[test]
fn test_evaluate_twice_yields_same_mutations() {
    let mut chain = <PreparedHeader as MakeFullHeader<HeaderMap>>::and(
        PreparedHeader::overriding(HOST, Some(HeaderValue::from_static("same"))),
        NoopMakeHeaders {},
    );
    let snapshot = HeaderMap::new();

    let (first, second) = evaluate_twice(&mut chain, &snapshot);

    assert_eq!(first.len(), second.len());
    for (a, b) in first.iter().zip(second.iter()) {
        assert_eq!(a.name, b.name);
        assert_eq!(a.value, b.value);
        assert_eq!(a.mode, b.mode);
    }
}

#[test]
fn test_producer_without_value_contributes_nothing() {
    let absent: Option<HeaderValue> = None;
    let mut svc = SetMultipleResponseHeaders::new(())
        .overriding(HOST, absent)
        .appending(CONTENT_TYPE, HeaderValue::from_static("kept"));

    let mut headers = HeaderMap::new();
    svc.mutate(&mut headers);

    assert!(!headers.contains_key(HOST));
    assert_eq!(values(&headers, CONTENT_TYPE), vec![&HeaderValue::from_static("kept")]);
}

#[test]
fn test_single_rule_request_adapter() {
    let mut svc = SetRequestHeader::overriding((), HOST, HeaderValue::from_static("set-by-rule"));

    let mut headers = HeaderMap::new();
    headers.insert(HOST, HeaderValue::from_static("before"));
    let ok = svc.mutate(&mut headers);

    assert!(ok);
    assert_eq!(values(&headers, HOST), vec![&HeaderValue::from_static("set-by-rule")]);
}

#[test]
fn test_request_layer_builds_working_adapter() {
    let chain = <PreparedHeader as MakeFullHeader<HeaderMap>>::and(
        PreparedHeader::appending(HOST, Some(HeaderValue::from_static("added"))),
        NoopMakeHeaders {},
    );
    let layer = SetManyRequestHeadersLayer::new(chain);

    let mut svc = layer.layer(());
    let mut headers = HeaderMap::new();
    svc.mutate(&mut headers);

    assert_eq!(values(&headers, HOST), vec![&HeaderValue::from_static("added")]);
}

#[test]
fn test_response_layer_copies_behave_alike() {
    let chain = <PreparedHeader as MakeFullHeader<HeaderMap>>::and(
        PreparedHeader::overriding(HOST, Some(HeaderValue::from_static("copied"))),
        NoopMakeHeaders {},
    );
    let layer = SetMultipleResponseHeadersLayer::new(chain);

    let mut one = layer.layer(());
    let mut two = layer.layer(());

    let mut first = HeaderMap::new();
    let mut second = HeaderMap::new();
    one.mutate(&mut first);
    two.mutate(&mut second);

    assert_eq!(first, second);
    assert_eq!(values(&first, HOST), vec![&HeaderValue::from_static("copied")]);
}
