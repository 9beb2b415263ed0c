use fcm::{
    AndroidConfigBuilder, AndroidMessagePriority, AndroidNotificationBuilder, ApnsConfigBuilder,
    DataEncodingError, FcmOptions, MessageBuilder, NotificationBuilder, Payload, Priority,
    Visibility, WebNotification, WebpushConfigBuilder,
};
use serde_json::Value;

fn parse(text: &str) -> Value {
    serde_json::from_str(text).unwrap()
}

#[test]
fn message_with_token_and_notification() {
    let mut n = NotificationBuilder::new();
    n.title("Hi").body("there");
    let mut b = MessageBuilder::new("<access token>", "abc");
    b.notification(n.finalize());
    let message = b.finalize();
    let v = message.body.to_value().unwrap();
    assert_eq!(
        v,
        parse(r#"{"token":"abc","notification":{"title":"Hi","body":"there"},"dry_run":false}"#)
    );
    let keys: Vec<&str> = v.as_object().unwrap().keys().map(|k| k.as_str()).collect();
    assert_eq!(keys, vec!["dry_run", "notification", "token"]);
    assert_eq!(
        message.body.to_json().unwrap(),
        r#"{"dry_run":false,"notification":{"body":"there","title":"Hi"},"token":"abc"}"#
    );
}

#[test]
fn message_new_sets_only_the_token() {
    let message = MessageBuilder::new("<access token>", "device").finalize();
    assert_eq!(message.access_token, "<access token>");
    assert_eq!(message.body.to_value(), Ok(parse(r#"{"token":"device","dry_run":false}"#)));
}

#[test]
fn message_access_token_is_not_in_the_body() {
    let message = MessageBuilder::new("the-access-token", "device").finalize();
    let text = message.body.to_json().unwrap();
    assert!(!text.contains("the-access-token"));
    assert!(!text.contains("access_token"));
    assert_eq!(message.access_token, "the-access-token");
}

#[test]
fn message_dry_run_default_and_set() {
    let unset = MessageBuilder::new("t", "d").finalize();
    assert_eq!(unset.body.to_value().unwrap()["dry_run"], Value::Bool(false));
    let mut b = MessageBuilder::new("t", "d");
    b.dry_run(true);
    assert_eq!(b.finalize().body.to_value().unwrap()["dry_run"], Value::Bool(true));
    let mut b = MessageBuilder::new("t", "d");
    b.dry_run(true).dry_run(false);
    assert_eq!(b.finalize().body.to_json().unwrap(), r#"{"dry_run":false,"token":"d"}"#);
}

#[test]
fn message_targets_are_not_exclusive() {
    let mut b = MessageBuilder::new("t", "d");
    b.topic("news").condition("'foo' in topics && 'bar' in topics").token("e");
    let v = b.finalize().body.to_value().unwrap();
    assert_eq!(
        v,
        parse(
            r#"{"token":"e","topic":"news","condition":"'foo' in topics && 'bar' in topics",
                "dry_run":false}"#
        )
    );
}

#[test]
fn message_every_field() {
    let mut n = NotificationBuilder::new();
    n.title("t");
    let mut an = AndroidNotificationBuilder::new();
    an.visibility(Visibility::Public);
    let mut android = AndroidConfigBuilder::new();
    android.priority(AndroidMessagePriority::High).notification(an.finalize());
    let mut apns = ApnsConfigBuilder::new();
    apns.payload(Payload { title: Some("a"), body: None });
    let mut webpush = WebpushConfigBuilder::new();
    webpush.notification(WebNotification { title: None, body: Some("w") });
    let mut b = MessageBuilder::new("t", "d");
    b.android(android.finalize()).apns(apns.finalize()).webpush(webpush.finalize());
    b.condition("c").data(parse(r#"{"message":"Howdy!"}"#)).dry_run(true);
    b.fcm_options(FcmOptions { analytics_label: Some("l") });
    b.name("projects/p/messages/1").notification(n.finalize()).topic("top");
    let body = b.finalize().body;
    let text = concat(&[
        r#"{"android":{"notification":{"visibility":"public"},"priority":"high"},"#,
        r#""apns":{"payload":{"title":"a"}},"condition":"c","data":{"message":"Howdy!"},"#,
        r#""dry_run":true,"fcm_options":{"analytics_label":"l"},"#,
        r#""name":"projects/p/messages/1","notification":{"title":"t"},"#,
        r#""token":"d","topic":"top","webpush":{"notification":{"body":"w"}}}"#,
    ]);
    assert_eq!(body.to_json().unwrap(), text);
    assert_eq!(body.to_value().unwrap().as_object().unwrap().len(), 11);
}

fn concat(parts: &[&str]) -> String {
    let mut s = String::new();
    for p in parts {
        s.push_str(p);
    }
    s
}

#[test]
fn message_text_is_the_text_of_the_value() {
    let mut b = MessageBuilder::new("t", "d");
    b.data(parse(r#"{"b":[1,2.5,"x",null,true],"a":{"z":"é\n\"q\""}}"#));
    let body = b.finalize().body;
    let value = body.to_value().unwrap();
    let text = body.to_json().unwrap();
    assert_eq!(text, serde_json::to_string(&value).unwrap());
    assert_eq!(parse(&text), value);
    assert_eq!(
        text,
        concat(&[
            "{\"data\":{\"a\":{\"z\":\"\u{e9}\\n\\\"q\\\"\"},\"b\":[1,2.5,\"x\",null,true]},",
            "\"dry_run\":false,\"token\":\"d\"}",
        ])
    );
}

#[test]
fn message_data_object_is_kept() {
    let data = parse(r#"{"score":"5x1","time":"15:10","nested":{"k":[1,2]}}"#);
    let mut b = MessageBuilder::new("t", "d");
    b.data(data.clone());
    let v = b.finalize().body.to_value().unwrap();
    let written = v["data"].as_object().unwrap();
    let given = data.as_object().unwrap();
    assert_eq!(written.len(), given.len());
    for (key, value) in given {
        assert_eq!(written.get(key), Some(value));
    }
}

#[test]
fn message_data_must_be_an_object() {
    for bad in [parse("[1,2,3]"), parse("\"text\""), parse("12"), parse("true"), Value::Null] {
        let mut b = MessageBuilder::new("t", "d");
        b.data(bad);
        let body = b.finalize().body;
        assert_eq!(body.to_value(), Err(DataEncodingError));
        assert_eq!(body.to_json(), Err(DataEncodingError));
    }
}

#[test]
fn message_data_setter_never_fails() {
    let mut b = MessageBuilder::new("t", "d");
    b.data(parse("[]"));
    b.data(parse("{}"));
    assert_eq!(b.finalize().body.to_json().unwrap(), r#"{"data":{},"dry_run":false,"token":"d"}"#);
}

#[test]
fn message_fails_on_data_inside_a_configuration() {
    let mut android = AndroidConfigBuilder::new();
    android.data(parse("[]"));
    let mut b = MessageBuilder::new("t", "d");
    b.android(android.finalize());
    assert_eq!(b.finalize().body.to_value(), Err(DataEncodingError));

    let mut apns = ApnsConfigBuilder::new();
    apns.headers(parse("1"));
    let mut b = MessageBuilder::new("t", "d");
    b.apns(apns.finalize()).data(parse("{}"));
    assert_eq!(b.finalize().body.to_value(), Err(DataEncodingError));

    let mut webpush = WebpushConfigBuilder::new();
    webpush.headers(parse("\"x\""));
    let mut b = MessageBuilder::new("t", "d");
    b.webpush(webpush.finalize());
    assert_eq!(b.finalize().body.to_json(), Err(DataEncodingError));
}

#[test]
fn message_finalize_keeps_every_field() {
    let mut one = MessageBuilder::new("t", "d");
    one.name("n").topic("p").dry_run(true);
    let mut two = MessageBuilder::new("t", "d");
    two.dry_run(true).topic("p").name("n");
    assert_eq!(one.finalize().body, two.finalize().body);
}

#[test]
fn message_priority_names() {
    assert_eq!(Priority::Normal.as_str(), "normal");
    assert_eq!(Priority::High.as_str(), "high");
    assert_eq!(Priority::Normal.to_value(), Value::from("normal"));
    assert_eq!(Priority::High.to_value().to_string(), "\"high\"");
}

#[test]
fn message_fcm_options_json() {
    assert_eq!(
        FcmOptions { analytics_label: Some("label") }.to_value(),
        parse(r#"{"analytics_label":"label"}"#)
    );
    assert_eq!(FcmOptions { analytics_label: None }.to_value(), parse("{}"));
}

#[test]
fn message_no_null_for_unset_fields() {
    let mut n = NotificationBuilder::new();
    n.body("b");
    let mut b = MessageBuilder::new("t", "d");
    b.notification(n.finalize());
    let text = b.finalize().body.to_json().unwrap();
    assert!(!text.contains("null"));
}
