use serde_json::Value;

use hedgehog::{
    feature_enrollment_event, feature_flag_called_event, identify_event, page_view_event,
    screen_view_event, Event, FeatureFlag, FeatureFlagCollection, FeatureFlagData, Person,
    PosthogClient, PosthogError, PropScalar, PropValue, PropertyFilter,
};

#[test]
fn client_builder_requires_base_url_and_api_key() {
    let missing_url = PosthogClient::builder().api_key("k".to_string()).build();
    assert!(matches!(missing_url, Err(PosthogError::BaseUrlRequired)));

    let missing_key = PosthogClient::builder().base_url("https://example.test".to_string()).build();
    assert!(matches!(missing_key, Err(PosthogError::ApiKeyRequired)));

    let client = PosthogClient::builder()
        .base_url("https://example.test".to_string())
        .api_key("k".to_string())
        .build()
        .unwrap();
    assert_eq!(client.base_url, "https://example.test");
    assert_eq!(client.api_key, "k");
}

#[test]
fn person_builder_requires_distinct_id() {
    let missing = Person::builder().property("a".to_string(), PropScalar::Boolean(true)).build();
    assert!(matches!(missing, Err(PosthogError::DistinctIdRequired)));

    let person = Person::builder()
        .distinct_id("12345".to_string())
        .property("name".to_string(), PropScalar::Text("John Doe".to_string()))
        .client_ip("10.0.0.1".to_string())
        .build()
        .unwrap();
    assert_eq!(person.distinct_id(), "12345");
    assert_eq!(person.client_ip, Some("10.0.0.1".to_string()));
    let props = person.properties.as_ref().unwrap();
    assert_eq!(props.len(), 1);
    assert_eq!(props[0].0, "name");
    assert!(matches!(&props[0].1, PropScalar::Text(t) if t == "John Doe"));

    let bare = Person::builder().distinct_id("x".to_string()).build().unwrap();
    assert!(bare.properties.is_none());
    assert!(bare.stored_feature_flags.is_none());
    assert!(bare.client_ip.is_none());
}

#[test]
fn event_builder_requires_a_name() {
    let missing = Event::builder().property("k".to_string(), PropValue::Boolean(true)).build();
    assert!(matches!(missing, Err(PosthogError::EventNameRequired)));

    let event = Event::builder().name("test event".to_string()).build().unwrap();
    assert_eq!(event.name, "test event");
    assert!(event.properties.is_none());
    assert!(!event.is_identify);
}

#[test]
fn naming_an_event_identify_marks_it() {
    let by_name = Event::builder().name("$identify".to_string()).build().unwrap();
    assert!(by_name.is_identify);

    let by_call = Event::builder().name("other".to_string()).identify().build().unwrap();
    assert!(by_call.is_identify);
}

#[test]
fn canned_events_have_exact_names_and_properties() {
    let identify = identify_event();
    assert_eq!(identify.name, "$identify");
    assert!(identify.is_identify);
    assert!(identify.properties.is_none());

    let page = page_view_event("Test Page".to_string());
    assert_eq!(page.name, "$pageview");
    let props = page.properties.unwrap();
    assert_eq!(props.len(), 1);
    assert_eq!(props[0].0, "title");
    assert!(matches!(&props[0].1, PropValue::Text(t) if t == "Test Page"));

    let screen = screen_view_event("Test Screen".to_string());
    assert_eq!(screen.name, "$screen");
    let props = screen.properties.unwrap();
    assert_eq!(props[0].0, "$screen_name");
    assert!(matches!(&props[0].1, PropValue::Text(t) if t == "Test Screen"));

    let called = feature_flag_called_event("my_flag".to_string(), "blue".to_string());
    assert_eq!(called.name, "$feature_flag_called");
    let props = called.properties.unwrap();
    assert_eq!(props.len(), 2);
    assert_eq!(props[0].0, "$feature_flag");
    assert!(matches!(&props[0].1, PropValue::Text(t) if t == "my_flag"));
    assert_eq!(props[1].0, "$feature_flag_response");
    assert!(matches!(&props[1].1, PropValue::Text(t) if t == "blue"));

    let enrollment = feature_enrollment_event("beta".to_string(), true);
    assert_eq!(enrollment.name, "$feature_enrollment_update");
    let props = enrollment.properties.unwrap();
    assert_eq!(props.len(), 3);
    assert_eq!(props[0].0, "$feature_flag");
    assert!(matches!(&props[0].1, PropValue::Text(t) if t == "beta"));
    assert_eq!(props[1].0, "$feature_enrollment");
    assert!(matches!(props[1].1, PropValue::Boolean(true)));
    assert_eq!(props[2].0, "$set");
    match &props[2].1 {
        PropValue::Object(entries) => {
            assert_eq!(entries.len(), 1);
            assert_eq!(entries[0].0, "$feature_enrollment/beta");
            assert!(matches!(entries[0].1, PropScalar::Boolean(true)));
        }
        other => panic!("expected a $set object, got {:?}", other),
    }
}

fn person_with_everything() -> Person {
    let mut person = Person::builder()
        .distinct_id("12345".to_string())
        .property("name".to_string(), PropScalar::Text("John Doe".to_string()))
        .property("meta".to_string(), PropScalar::Json(Value::Bool(false)))
        .client_ip("10.0.0.1".to_string())
        .build()
        .unwrap();
    person.store_feature_flags(FeatureFlagCollection::new(vec![(
        "beta".to_string(),
        FeatureFlag { variant: FeatureFlagData::Boolean(true), payload: None },
    )]));
    person
}

#[test]
fn person_properties_for_plain_events_skip_person_properties() {
    let person = person_with_everything();
    let props = person.build_properties(
        PropertyFilter::new().include_ip(true).include_feature_flags(true),
    );
    assert_eq!(props.len(), 2);
    assert_eq!(props[0].0, "$ip");
    assert!(matches!(&props[0].1, PropValue::Text(t) if t == "10.0.0.1"));
    assert_eq!(props[1].0, "$feature/beta");
    assert!(matches!(&props[1].1, PropValue::Text(t) if t == "true"));
}

#[test]
fn person_properties_for_identify_events_use_set_syntax() {
    let person = person_with_everything();
    let props = person.build_properties(
        PropertyFilter::new()
            .include_person_properties(true)
            .use_set_syntax(true)
            .include_ip(true)
            .include_feature_flags(true),
    );
    assert_eq!(props.len(), 3);
    assert_eq!(props[0].0, "$set");
    match &props[0].1 {
        PropValue::Object(entries) => {
            assert_eq!(entries.len(), 2);
            assert_eq!(entries[0].0, "name");
            assert!(matches!(&entries[0].1, PropScalar::Text(t) if t == "John Doe"));
            assert_eq!(entries[1].0, "meta");
            assert!(matches!(&entries[1].1, PropScalar::Json(v) if v == &Value::Bool(false)));
        }
        other => panic!("expected the person properties as one object, got {:?}", other),
    }
    assert_eq!(props[1].0, "$ip");
    assert_eq!(props[2].0, "$feature/beta");
}

#[test]
fn person_properties_verbatim_when_not_set_syntax() {
    let person = person_with_everything();
    let props = person.build_properties(
        PropertyFilter::new().include_person_properties(true),
    );
    assert_eq!(props.len(), 2);
    assert_eq!(props[0].0, "name");
    assert!(matches!(&props[0].1, PropValue::Text(t) if t == "John Doe"));
    assert_eq!(props[1].0, "meta");
    assert!(matches!(&props[1].1, PropValue::Json(v) if v == &Value::Bool(false)));
}

#[test]
fn event_envelope_merges_event_then_person_properties() {
    let client = PosthogClient::new("https://example.test".to_string(), "abc".to_string());
    let person = person_with_everything();
    let event = Event::builder()
        .name("clicked".to_string())
        .property("button".to_string(), PropValue::Text("buy".to_string()))
        .build()
        .unwrap();
    let envelope = client.event_envelope(&person, event);
    assert_eq!(envelope.api_key, "abc");
    assert_eq!(envelope.distinct_id, "12345");
    assert_eq!(envelope.event, "clicked");
    assert_eq!(envelope.properties.len(), 3);
    assert_eq!(envelope.properties[0].0, "button");
    assert_eq!(envelope.properties[1].0, "$ip");
    assert_eq!(envelope.properties[2].0, "$feature/beta");
}

#[test]
fn flags_request_includes_person_properties_and_ip() {
    let client = PosthogClient::new("https://example.test".to_string(), "abc".to_string());
    let person = person_with_everything();
    let request = client.flags_request(&person);
    assert_eq!(request.api_key, "abc");
    assert_eq!(request.distinct_id, "12345");
    assert_eq!(request.person_properties.len(), 3);
    assert_eq!(request.person_properties[0].0, "name");
    assert_eq!(request.person_properties[1].0, "meta");
    assert_eq!(request.person_properties[2].0, "$ip");
}

#[test]
fn property_filter_starts_empty() {
    let filter = PropertyFilter::new();
    assert!(!filter.include_person_properties);
    assert!(!filter.use_set_syntax);
    assert!(!filter.include_ip);
    assert!(!filter.include_feature_flags);
    let filter = PropertyFilter::default().include_ip(true);
    assert!(filter.include_ip);
    assert!(!filter.include_person_properties);
}

#[test]
fn set_client_ip_overrides() {
    let mut person = Person::builder().distinct_id("p".to_string()).build().unwrap();
    assert!(person.client_ip.is_none());
    person.set_client_ip("127.0.0.1".to_string());
    assert_eq!(person.client_ip, Some("127.0.0.1".to_string()));
}

#[test]
fn repeated_property_keys_are_kept_in_order() {
    // A property list keeps both entries; serialization applies them in
    // order, so the later value wins in the final JSON object.
    let event = Event::builder()
        .name("e".to_string())
        .property("k".to_string(), PropValue::Boolean(false))
        .property("k".to_string(), PropValue::Boolean(true))
        .build()
        .unwrap();
    let props = event.properties.unwrap();
    assert_eq!(props.len(), 2);
    assert_eq!(props[0].0, "k");
    assert!(matches!(props[0].1, PropValue::Boolean(false)));
    assert_eq!(props[1].0, "k");
    assert!(matches!(props[1].1, PropValue::Boolean(true)));
}
