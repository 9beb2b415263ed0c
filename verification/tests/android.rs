use fcm::{
    AndroidConfigBuilder, AndroidFcmOptions, AndroidMessagePriority, AndroidNotificationBuilder,
    ColorBuilder, DataEncodingError, LightSettingsBuilder, NotificationPriority, Text, Visibility,
};
use serde_json::{Number, Value};
use std::borrow::Cow;

fn parse(text: &str) -> Value {
    serde_json::from_str(text).unwrap()
}

fn number(text: &str) -> Number {
    serde_json::from_str(text).unwrap()
}

#[test]
fn android_notification_starts_unset() {
    let n = AndroidNotificationBuilder::new().finalize();
    assert_eq!(n.to_value(), parse("{}"));
}

#[test]
fn android_notification_echoes_what_was_set() {
    let mut b = AndroidNotificationBuilder::new();
    b.title("t").body("b").icon("i").sound("s").badge("g").tag("x").color("#aabbcc");
    b.click_action("open").body_loc_key("BK").title_loc_key("TK");
    let v = b.finalize().to_value();
    assert_eq!(
        v,
        parse(
            r##"{"title":"t","body":"b","icon":"i","sound":"s","badge":"g","tag":"x",
                "color":"#aabbcc","click_action":"open","body_loc_key":"BK","title_loc_key":"TK"}"##
        )
    );
}

#[test]
fn android_notification_icon_is_not_image() {
    let mut b = AndroidNotificationBuilder::new();
    b.icon("bell");
    let v = b.finalize().to_value();
    assert_eq!(v, parse(r#"{"icon":"bell"}"#));
    let mut b = AndroidNotificationBuilder::new();
    b.image("https://example.com/a.png");
    let v = b.finalize().to_value();
    assert_eq!(v, parse(r#"{"image":"https://example.com/a.png"}"#));
}

#[test]
fn android_notification_every_field() {
    let mut b = AndroidNotificationBuilder::new();
    b.badge("1").body("b").body_loc_args(&["x", "y"]).body_loc_key("BK");
    b.default_sound(true).default_vibrate_timings(false).default_light_settings(true);
    b.channel_id("ch").click_action("ca").event_time("2014-10-02T15:01:23Z").color("#000000");
    b.icon("ic").image("im");
    let mut color = ColorBuilder::new();
    color.red(number("1.0"));
    let mut light = LightSettingsBuilder::new();
    light.color(color.finalize()).light_on_duration("3.5s").light_off_duration("1s");
    b.light_settings(light.finalize());
    b.local_only(false).notification_priority(NotificationPriority::Max).sound("so").tag("ta");
    b.ticker(true).title("ti").title_loc_args(&["Alice"]).title_loc_key("TK");
    b.vibrate_timings(&["1s", "0.5s", "1s"]).visibility(Visibility::Secret);
    let v = b.finalize().to_value();
    let text = concat_lines(&[
        r##"{"badge":"1","body":"b","body_loc_args":["x","y"],"body_loc_key":"BK","##,
        r##""channel_id":"ch","click_action":"ca","color":"#000000","##,
        r##""default_light_settings":true,"default_sound":true,"##,
        r##""default_vibrate_timings":false,"event_time":"2014-10-02T15:01:23Z","##,
        r##""icon":"ic","image":"im","##,
        r##""light_settings":{"color":{"red":1.0},"light_off_duration":"1s","##,
        r##""light_on_duration":"3.5s"},"local_only":false,"##,
        r##""notification_priority":"max","sound":"so","tag":"ta","ticker":true,"##,
        r##""title":"ti","title_loc_args":["Alice"],"title_loc_key":"TK","##,
        r##""vibrate_timings":["1s","0.5s","1s"],"visibility":"secret"}"##,
    ]);
    assert_eq!(v.to_string(), text);
    assert_eq!(v.as_object().unwrap().len(), 24);
}

fn concat_lines(parts: &[&str]) -> String {
    let mut s = String::new();
    for p in parts {
        s.push_str(p);
    }
    s
}

#[test]
fn android_config_priority_and_visibility() {
    let mut n = AndroidNotificationBuilder::new();
    n.visibility(Visibility::Private);
    let mut c = AndroidConfigBuilder::new();
    c.priority(AndroidMessagePriority::High).notification(n.finalize());
    let v = c.finalize().to_value().unwrap();
    assert_eq!(v["priority"], Value::from("high"));
    assert_eq!(v["notification"]["visibility"], Value::from("private"));
    assert!(!v["notification"].as_object().unwrap().contains_key("badge"));
    assert_eq!(v, parse(r#"{"priority":"high","notification":{"visibility":"private"}}"#));
}

#[test]
fn android_title_localization() {
    let mut n = AndroidNotificationBuilder::new();
    n.title_loc_key("GREETING").title_loc_args(&["Alice", "3"]);
    let v = n.finalize().to_value();
    assert_eq!(v["title_loc_key"], Value::from("GREETING"));
    assert_eq!(v["title_loc_args"], Value::Array(vec![Value::from("Alice"), Value::from("3")]));
    assert_eq!(v.to_string(), r#"{"title_loc_args":["Alice","3"],"title_loc_key":"GREETING"}"#);
}

#[test]
fn android_args_without_key_are_accepted() {
    let mut n = AndroidNotificationBuilder::new();
    n.body_loc_args(&["only"]);
    assert_eq!(n.finalize().to_value(), parse(r#"{"body_loc_args":["only"]}"#));
}

#[test]
fn android_empty_args_are_an_empty_array() {
    let none: [&str; 0] = [];
    let mut n = AndroidNotificationBuilder::new();
    n.body_loc_args(&none);
    let v = n.finalize().to_value();
    assert_eq!(v, parse(r#"{"body_loc_args":[]}"#));
    assert_eq!(v["body_loc_args"], Value::Array(Vec::new()));
    let unset = AndroidNotificationBuilder::new().finalize().to_value();
    assert!(!unset.as_object().unwrap().contains_key("body_loc_args"));
    assert_ne!(v, unset);
}

#[test]
fn android_args_keep_their_order() {
    let none: [&str; 0] = [];
    let mut n = AndroidNotificationBuilder::new();
    n.body_loc_args(&["one"]).title_loc_args(&["b", "a", "c", "a"]).vibrate_timings(&none);
    let v = n.finalize().to_value();
    assert_eq!(
        v.to_string(),
        r#"{"body_loc_args":["one"],"title_loc_args":["b","a","c","a"],"vibrate_timings":[]}"#
    );
    let mut n = AndroidNotificationBuilder::new();
    n.vibrate_timings(&["3s", "1s", "2s"]);
    let v = n.finalize().to_value();
    let items: Vec<&str> =
        v["vibrate_timings"].as_array().unwrap().iter().map(|x| x.as_str().unwrap()).collect();
    assert_eq!(items, vec!["3s", "1s", "2s"]);
}

#[test]
fn android_args_from_owned_strings() {
    let owned: Vec<String> = vec![String::from("z"), String::from("y")];
    let mut n = AndroidNotificationBuilder::new();
    n.title_loc_args(&owned);
    n.body_loc_args(owned.as_slice());
    let v = n.finalize().to_value();
    assert_eq!(v, parse(r#"{"title_loc_args":["z","y"],"body_loc_args":["z","y"]}"#));
}

#[test]
fn android_args_setter_overwrites() {
    let mut n = AndroidNotificationBuilder::new();
    n.body_loc_args(&["a", "b"]);
    n.body_loc_args(&["c"]);
    assert_eq!(n.finalize().to_value(), parse(r#"{"body_loc_args":["c"]}"#));
}

#[test]
fn android_notification_priority_names() {
    let all = [
        (NotificationPriority::Unspecified, "unspecified"),
        (NotificationPriority::Min, "min"),
        (NotificationPriority::Low, "low"),
        (NotificationPriority::Default, "default"),
        (NotificationPriority::High, "high"),
        (NotificationPriority::Max, "max"),
    ];
    for (p, name) in all {
        assert_eq!(p.as_str(), name);
        assert_eq!(p.to_value(), Value::String(String::from(name)));
        assert_eq!(p.to_value().to_string(), format!("\"{}\"", name));
    }
}

#[test]
fn android_visibility_names() {
    let all = [
        (Visibility::Unspecified, "unspecified"),
        (Visibility::Public, "public"),
        (Visibility::Private, "private"),
        (Visibility::Secret, "secret"),
    ];
    for (v, name) in all {
        assert_eq!(v.as_str(), name);
        assert_eq!(v.to_value(), Value::String(String::from(name)));
    }
}

#[test]
fn android_message_priority_names() {
    assert_eq!(AndroidMessagePriority::Normal.as_str(), "normal");
    assert_eq!(AndroidMessagePriority::High.as_str(), "high");
    assert_eq!(AndroidMessagePriority::Normal.to_value(), Value::from("normal"));
    assert_eq!(AndroidMessagePriority::High.to_value(), Value::from("high"));
    assert!(AndroidMessagePriority::High.to_value().is_string());
}

#[test]
fn android_color_channels() {
    let mut b = ColorBuilder::new();
    b.red(number("0.25")).green(number("1")).alpha(number("0.5"));
    let v = b.finalize().to_value();
    assert_eq!(v.to_string(), r#"{"alpha":0.5,"green":1,"red":0.25}"#);
    assert!(v["red"].is_number());
    assert_eq!(v["red"].as_f64(), Some(0.25));
    assert!(!v.as_object().unwrap().contains_key("blue"));
    assert_eq!(ColorBuilder::new().finalize().to_value(), parse("{}"));
}

#[test]
fn android_color_every_channel() {
    let mut b = ColorBuilder::new();
    b.red(number("0.1")).green(number("0.2")).blue(number("0.3")).alpha(number("0.4"));
    assert_eq!(
        b.finalize().to_value().to_string(),
        r#"{"alpha":0.4,"blue":0.3,"green":0.2,"red":0.1}"#
    );
}

#[test]
fn android_color_from_a_float() {
    let mut b = ColorBuilder::new();
    b.red(Number::from_f64(0.75).unwrap());
    assert_eq!(b.finalize().to_value()["red"].as_f64(), Some(0.75));
}

#[test]
fn android_color_setter_overwrites() {
    let mut b = ColorBuilder::new();
    b.blue(number("0"));
    b.blue(number("1"));
    assert_eq!(b.finalize().to_value(), parse(r#"{"blue":1}"#));
}

#[test]
fn android_light_settings_pass_durations_on() {
    let mut b = LightSettingsBuilder::new();
    b.light_on_duration("3.5s").light_off_duration("not a duration");
    assert_eq!(
        b.finalize().to_value(),
        parse(r#"{"light_on_duration":"3.5s","light_off_duration":"not a duration"}"#)
    );
    assert_eq!(LightSettingsBuilder::new().finalize().to_value(), parse("{}"));
}

#[test]
fn android_light_settings_with_a_color() {
    let mut color = ColorBuilder::new();
    color.green(number("0.5"));
    let mut b = LightSettingsBuilder::new();
    b.color(color.finalize());
    assert_eq!(b.finalize().to_value().to_string(), r#"{"color":{"green":0.5}}"#);
}

#[test]
fn android_fcm_options() {
    let o = AndroidFcmOptions { analytics_label: Some("spring") };
    assert_eq!(o.to_value(), parse(r#"{"analytics_label":"spring"}"#));
    let o = AndroidFcmOptions { analytics_label: None };
    assert_eq!(o.to_value(), parse("{}"));
}

#[test]
fn android_config_starts_unset() {
    let c = AndroidConfigBuilder::new().finalize();
    assert_eq!(c.to_value(), Ok(parse("{}")));
}

#[test]
fn android_config_every_field() {
    let mut data = serde_json::Map::new();
    data.insert(String::from("k"), Value::from("v"));
    let mut n = AndroidNotificationBuilder::new();
    n.title("t");
    let mut c = AndroidConfigBuilder::new();
    c.collapse_key("ck").data(Value::Object(data)).direct_boot_ok(true);
    c.fcm_options(AndroidFcmOptions { analytics_label: Some("l") }).ttl("3.5s");
    c.notification(n.finalize()).priority(AndroidMessagePriority::Normal);
    c.restricted_package_name("com.example");
    let v = c.finalize().to_value().unwrap();
    let text = concat_lines(&[
        r#"{"collapse_key":"ck","data":{"k":"v"},"direct_boot_ok":true,"#,
        r#""fcm_options":{"analytics_label":"l"},"notification":{"title":"t"},"#,
        r#""priority":"normal","restricted_package_name":"com.example","ttl":"3.5s"}"#,
    ]);
    assert_eq!(v.to_string(), text);
}

#[test]
fn android_config_data_object_is_kept() {
    let data = parse(r#"{"score":"5x1","nested":{"a":[1,2,null]},"n":1.5,"ok":true}"#);
    let mut c = AndroidConfigBuilder::new();
    c.data(data.clone());
    let v = c.finalize().to_value().unwrap();
    assert_eq!(v["data"], data);
    assert_eq!(v.as_object().unwrap().len(), 1);
}

#[test]
fn android_config_data_must_be_an_object() {
    for bad in [
        parse("[1,2]"),
        parse("\"text\""),
        parse("3"),
        parse("true"),
        Value::Null,
    ] {
        let mut c = AndroidConfigBuilder::new();
        c.collapse_key("ck").data(bad);
        assert_eq!(c.finalize().to_value(), Err(DataEncodingError));
    }
}

#[test]
fn android_config_empty_data_object() {
    let mut c = AndroidConfigBuilder::new();
    c.data(Value::Object(serde_json::Map::new()));
    assert_eq!(c.finalize().to_value(), Ok(parse(r#"{"data":{}}"#)));
}

#[test]
fn android_args_from_borrowed_or_owned_texts() {
    let mixed: Vec<Cow<'_, str>> = vec![Cow::Borrowed("b"), Cow::Owned(String::from("o"))];
    let mut n = AndroidNotificationBuilder::new();
    n.vibrate_timings(&mixed);
    assert_eq!(n.finalize().to_value(), parse(r#"{"vibrate_timings":["b","o"]}"#));
}

#[test]
fn text_copies_keep_the_characters() {
    assert_eq!("caf\u{e9}".to_text(), "caf\u{e9}");
    assert_eq!(String::from("x y").to_text(), "x y");
    assert_eq!(Cow::Borrowed("").to_text(), "");
}
