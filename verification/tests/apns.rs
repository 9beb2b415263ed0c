use fcm::{ApnsConfigBuilder, ApnsFcmOptions, DataEncodingError, Payload};
use serde_json::Value;

fn parse(text: &str) -> Value {
    serde_json::from_str(text).unwrap()
}

#[test]
fn apns_config_starts_unset() {
    assert_eq!(ApnsConfigBuilder::new().finalize().to_value(), Ok(parse("{}")));
}

#[test]
fn apns_payload_json() {
    let p = Payload { title: Some("Hi"), body: None };
    assert_eq!(p.to_value(), parse(r#"{"title":"Hi"}"#));
    let p = Payload { title: Some("Hi"), body: Some("there") };
    assert_eq!(p.to_value().to_string(), r#"{"body":"there","title":"Hi"}"#);
    let p = Payload { title: None, body: None };
    assert_eq!(p.to_value(), parse("{}"));
}

#[test]
fn apns_fcm_options_json() {
    let o = ApnsFcmOptions { analytics_label: Some("l"), image: Some("https://example.com/i.png") };
    assert_eq!(
        o.to_value().to_string(),
        r#"{"analytics_label":"l","image":"https://example.com/i.png"}"#
    );
    let o = ApnsFcmOptions { analytics_label: None, image: None };
    assert_eq!(o.to_value(), parse("{}"));
}

#[test]
fn apns_config_every_field() {
    let mut b = ApnsConfigBuilder::new();
    b.headers(parse(r#"{"apns-priority":"10","apns-expiration":"1604750400"}"#));
    b.payload(Payload { title: Some("t"), body: Some("b") });
    b.fcm_options(ApnsFcmOptions { analytics_label: Some("l"), image: None });
    let v = b.finalize().to_value().unwrap();
    assert_eq!(
        v.to_string(),
        concat(&[
            r#"{"fcm_options":{"analytics_label":"l"},"#,
            r#""headers":{"apns-expiration":"1604750400","apns-priority":"10"},"#,
            r#""payload":{"body":"b","title":"t"}}"#,
        ])
    );
}

fn concat(parts: &[&str]) -> String {
    let mut s = String::new();
    for p in parts {
        s.push_str(p);
    }
    s
}

#[test]
fn apns_setters_overwrite_and_chain() {
    let mut b = ApnsConfigBuilder::new();
    b.payload(Payload { title: Some("old"), body: None })
        .payload(Payload { title: None, body: Some("new") })
        .headers(parse("{}"));
    let v = b.finalize().to_value().unwrap();
    assert_eq!(v, parse(r#"{"headers":{},"payload":{"body":"new"}}"#));
}

#[test]
fn apns_headers_must_be_an_object() {
    for bad in [parse("[]"), parse("\"h\""), parse("0"), parse("false"), Value::Null] {
        let mut b = ApnsConfigBuilder::new();
        b.headers(bad).payload(Payload { title: Some("t"), body: None });
        assert_eq!(b.finalize().to_value(), Err(DataEncodingError));
    }
}

#[test]
fn apns_headers_are_accepted_when_set() {
    // the setter takes any value: only the encoding refuses
    let mut b = ApnsConfigBuilder::new();
    b.headers(parse("[1]"));
    let config = b.finalize();
    assert!(config.to_value().is_err());
    assert_eq!(DataEncodingError.message(), "free-form data must be a JSON object");
}
