use fcm::{DataEncodingError, WebNotification, WebpushConfigBuilder, WebpushFcmOptions};
use serde_json::Value;

fn parse(text: &str) -> Value {
    serde_json::from_str(text).unwrap()
}

#[test]
fn webpush_config_starts_unset() {
    assert_eq!(WebpushConfigBuilder::new().finalize().to_value(), Ok(parse("{}")));
}

#[test]
fn webpush_notification_json() {
    let n = WebNotification { title: Some("Hi"), body: Some("there") };
    assert_eq!(n.to_value().to_string(), r#"{"body":"there","title":"Hi"}"#);
    let n = WebNotification { title: None, body: Some("there") };
    assert_eq!(n.to_value(), parse(r#"{"body":"there"}"#));
}

#[test]
fn webpush_fcm_options_json() {
    let o = WebpushFcmOptions { analytics_label: None, link: Some("https://example.com") };
    assert_eq!(o.to_value(), parse(r#"{"link":"https://example.com"}"#));
    let o = WebpushFcmOptions { analytics_label: Some("l"), link: Some("k") };
    assert_eq!(o.to_value().to_string(), r#"{"analytics_label":"l","link":"k"}"#);
}

#[test]
fn webpush_config_every_field() {
    let mut b = WebpushConfigBuilder::new();
    b.data(parse(r#"{"a":"1"}"#)).headers(parse(r#"{"TTL":"60","Urgency":"high"}"#));
    b.notification(WebNotification { title: Some("t"), body: None });
    b.fcm_options(WebpushFcmOptions { analytics_label: None, link: Some("/inbox") });
    let v = b.finalize().to_value().unwrap();
    assert_eq!(
        v,
        parse(
            r#"{"data":{"a":"1"},"headers":{"TTL":"60","Urgency":"high"},
                "notification":{"title":"t"},"fcm_options":{"link":"/inbox"}}"#
        )
    );
    assert_eq!(v.as_object().unwrap().len(), 4);
}

#[test]
fn webpush_data_must_be_an_object() {
    for bad in [parse("[{}]"), parse("\"d\""), parse("1.5"), parse("true"), Value::Null] {
        let mut b = WebpushConfigBuilder::new();
        b.data(bad);
        assert_eq!(b.finalize().to_value(), Err(DataEncodingError));
    }
}

#[test]
fn webpush_headers_must_be_an_object() {
    for bad in [parse("[]"), parse("\"h\""), parse("7"), Value::Null] {
        let mut b = WebpushConfigBuilder::new();
        b.data(parse("{}")).headers(bad);
        assert_eq!(b.finalize().to_value(), Err(DataEncodingError));
    }
}

#[test]
fn webpush_free_form_values_are_kept() {
    let data = parse(r#"{"deep":{"list":[1,"two",{"three":3}]},"flag":false}"#);
    let headers = parse(r#"{"TTL":"0"}"#);
    let mut b = WebpushConfigBuilder::new();
    b.data(data.clone()).headers(headers.clone());
    let v = b.finalize().to_value().unwrap();
    assert_eq!(v["data"], data);
    assert_eq!(v["headers"], headers);
}
