//! The three insertion modes, one by one, against a live container.

use header_chain::mutation::{apply_prepared, InsertHeaderMode, PreparedHeader};
use http::header::{HeaderMap, HeaderValue, CONTENT_TYPE, HOST};

fn values(map: &HeaderMap, name: http::header::HeaderName) -> Vec<&HeaderValue> {
    map.get_all(name).iter().collect()
}

#[test]
fn test_override_replaces_existing() {
    let mut map = HeaderMap::new();
    map.insert(HOST, HeaderValue::from_static("one"));
    map.append(HOST, HeaderValue::from_static("two"));

    let ok = InsertHeaderMode::Override.apply(
        &HOST,
        &mut map,
        Some(HeaderValue::from_static("final-value")),
    );

    assert!(ok);
    assert_eq!(values(&map, HOST), vec![&HeaderValue::from_static("final-value")]);
}

#[test]
fn test_append_keeps_existing_and_adds_last() {
    let mut map = HeaderMap::new();
    map.insert(HOST, HeaderValue::from_static("one"));
    map.append(HOST, HeaderValue::from_static("two"));

    let ok = InsertHeaderMode::Append.apply(
        &HOST,
        &mut map,
        Some(HeaderValue::from_static("three")),
    );

    assert!(ok);
    assert_eq!(
        values(&map, HOST),
        vec![
            &HeaderValue::from_static("one"),
            &HeaderValue::from_static("two"),
            &HeaderValue::from_static("three"),
        ]
    );
}

#[test]
fn test_append_on_absent_name() {
    let mut map = HeaderMap::new();

    let ok = InsertHeaderMode::Append.apply(
        &HOST,
        &mut map,
        Some(HeaderValue::from_static("only")),
    );

    assert!(ok);
    assert_eq!(values(&map, HOST), vec![&HeaderValue::from_static("only")]);
}

#[test]
fn test_if_not_present_inserts_when_absent() {
    let mut map = HeaderMap::new();

    let ok = InsertHeaderMode::IfNotPresent.apply(
        &HOST,
        &mut map,
        Some(HeaderValue::from_static("fresh")),
    );

    assert!(ok);
    assert_eq!(values(&map, HOST), vec![&HeaderValue::from_static("fresh")]);
}

#[test]
fn test_if_not_present_skips_when_present() {
    let mut map = HeaderMap::new();
    map.insert(HOST, HeaderValue::from_static("kept"));

    let ok = InsertHeaderMode::IfNotPresent.apply(
        &HOST,
        &mut map,
        Some(HeaderValue::from_static("ignored")),
    );

    assert!(ok);
    assert_eq!(values(&map, HOST), vec![&HeaderValue::from_static("kept")]);
}

#[test]
fn test_absent_value_is_skipped() {
    let mut before = HeaderMap::new();
    before.insert(HOST, HeaderValue::from_static("kept"));
    let mut map = before.clone();

    assert!(InsertHeaderMode::Override.apply(&HOST, &mut map, None));
    assert!(InsertHeaderMode::Append.apply(&HOST, &mut map, None));
    assert!(InsertHeaderMode::IfNotPresent.apply(&HOST, &mut map, None));

    assert_eq!(map, before);
}

#[test]
fn test_override_then_if_not_present_same_name() {
    let mut map = HeaderMap::new();
    map.insert(CONTENT_TYPE, HeaderValue::from_static("original"));

    let muts = vec![
        PreparedHeader::overriding(CONTENT_TYPE, Some(HeaderValue::from_static("overridden"))),
        PreparedHeader::if_not_present(CONTENT_TYPE, Some(HeaderValue::from_static("late"))),
    ];
    let n = apply_prepared(&mut map, &muts);

    assert_eq!(n, 2);
    assert_eq!(values(&map, CONTENT_TYPE), vec![&HeaderValue::from_static("overridden")]);
}

#[test]
fn test_reapplying_override_and_if_not_present_changes_nothing() {
    let mut map = HeaderMap::new();
    map.insert(HOST, HeaderValue::from_static("old"));

    assert!(InsertHeaderMode::Override.apply(
        &HOST,
        &mut map,
        Some(HeaderValue::from_static("new")),
    ));
    let after_first = map.clone();
    assert!(InsertHeaderMode::Override.apply(
        &HOST,
        &mut map,
        Some(HeaderValue::from_static("new")),
    ));
    assert_eq!(map, after_first);

    assert!(InsertHeaderMode::IfNotPresent.apply(
        &CONTENT_TYPE,
        &mut map,
        Some(HeaderValue::from_static("fresh")),
    ));
    let after_first = map.clone();
    assert!(InsertHeaderMode::IfNotPresent.apply(
        &CONTENT_TYPE,
        &mut map,
        Some(HeaderValue::from_static("fresh")),
    ));
    assert_eq!(map, after_first);
}

#[test]
fn test_container_size_ceiling_stops_application() {
    let attempted: usize = 40000;
    let mut muts = Vec::with_capacity(attempted);
    for i in 0..attempted {
        let name = http::header::HeaderName::from_bytes(format!("x-n-{}", i).as_bytes()).unwrap();
        muts.push(PreparedHeader::overriding(name, Some(HeaderValue::from_static("v"))));
    }

    let mut map = HeaderMap::new();
    let n = apply_prepared(&mut map, &muts);

    assert!(n < attempted);
    assert_eq!(map.keys_len(), n);
}

#[test]
fn test_apply_prepared_in_list_order() {
    let mut map = HeaderMap::new();

    let muts = vec![
        PreparedHeader::appending(HOST, Some(HeaderValue::from_static("one"))),
        PreparedHeader::appending(HOST, Some(HeaderValue::from_static("two"))),
        PreparedHeader::appending(HOST, Some(HeaderValue::from_static("three"))),
    ];
    let n = apply_prepared(&mut map, &muts);

    assert_eq!(n, 3);
    assert_eq!(
        values(&map, HOST),
        vec![
            &HeaderValue::from_static("one"),
            &HeaderValue::from_static("two"),
            &HeaderValue::from_static("three"),
        ]
    );
}
