use fcm::{Notification, NotificationBuilder};
use serde_json::Value;

fn parse(text: &str) -> Value {
    serde_json::from_str(text).unwrap()
}

#[test]
fn notification_builder_starts_unset() {
    let n = NotificationBuilder::new().finalize();
    assert_eq!(n.title, None);
    assert_eq!(n.body, None);
    assert_eq!(n.image, None);
    assert_eq!(n.to_value(), parse("{}"));
}

#[test]
fn notification_builder_keeps_each_field() {
    let mut b = NotificationBuilder::new();
    b.title("Australia vs New Zealand");
    b.body("3 runs to win in 1 ball");
    b.image("https://example.com/ball.png");
    let n = b.finalize();
    assert_eq!(n.title, Some("Australia vs New Zealand"));
    assert_eq!(n.body, Some("3 runs to win in 1 ball"));
    assert_eq!(n.image, Some("https://example.com/ball.png"));
}

#[test]
fn notification_setters_chain() {
    let mut b = NotificationBuilder::new();
    b.title("a").body("b").image("c");
    let n = b.finalize();
    assert_eq!(n, Notification { title: Some("a"), body: Some("b"), image: Some("c") });
}

#[test]
fn notification_setter_overwrites() {
    let mut b = NotificationBuilder::new();
    b.title("first");
    b.title("second");
    assert_eq!(b.finalize().title, Some("second"));
}

#[test]
fn notification_setter_order_does_not_matter() {
    let mut one = NotificationBuilder::new();
    one.title("t").body("b");
    let mut two = NotificationBuilder::new();
    two.body("b").title("t");
    assert_eq!(one.finalize(), two.finalize());
}

#[test]
fn notification_json_has_only_set_fields() {
    let mut b = NotificationBuilder::new();
    b.title("Hi");
    let v = b.finalize().to_value();
    let object = v.as_object().unwrap();
    assert_eq!(object.len(), 1);
    assert_eq!(object.get("title"), Some(&Value::from("Hi")));
    assert!(!object.contains_key("body"));
    assert!(!object.contains_key("image"));
}

#[test]
fn notification_json_all_fields() {
    let n = Notification { title: Some("Hi"), body: Some("there"), image: Some("pic") };
    assert_eq!(n.to_value(), parse(r#"{"title":"Hi","body":"there","image":"pic"}"#));
    assert_eq!(n.to_value().to_string(), r#"{"body":"there","image":"pic","title":"Hi"}"#);
}

#[test]
fn notification_json_keeps_empty_text() {
    let n = Notification { title: Some(""), body: None, image: None };
    assert_eq!(n.to_value(), parse(r#"{"title":""}"#));
}

#[test]
fn notification_json_keeps_text_exactly() {
    let text = "line\n\"quoted\" \\ caf\u{e9} \u{1F600}";
    let n = Notification { title: None, body: Some(text), image: None };
    let v = n.to_value();
    assert_eq!(v["body"].as_str(), Some(text));
}
