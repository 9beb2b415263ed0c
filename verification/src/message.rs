//! The message envelope: target, notification, platform configurations, data
//! and delivery flags, with its builder and its JSON encoding.

use crate::android::{AndroidConfig, AndroidConfigView};
use crate::apns::{ApnsConfig, ApnsConfigView};
use crate::json::{
    flag_value, has_member, is_mapping, json_of, json_text, lemma_member_added,
    lemma_null_free_added, null_free, null_free_member, object_value, put_mapping, put_member,
    put_text, shape, text_json, text_value, text_view, value_text, value_view, with_member,
    DataEncodingError, Fields, Json,
};
use crate::notification::{Notification, NotificationView};
use crate::text::{is_lower_case, lower_case};
use crate::webpush::{WebpushConfig, WebpushConfigView};
use serde_json::Value;
use vstd::prelude::*;

verus! {

/// The delivery priority of an Android message.
#[derive(Clone, Copy, Debug, PartialEq, Eq)]
pub enum Priority {
    Normal,
    High,
}

impl Priority {
    /// The name of the variant, as the type declares it.
    pub open spec fn variant_name(self) -> Seq<char> {
        match self {
            Priority::Normal => "Normal"@,
            Priority::High => "High"@,
        }
    }

    /// The string that stands for the variant in JSON: the name of the
    /// variant in lower case.
    pub open spec fn wire_name(self) -> Seq<char> {
        match self {
            Priority::Normal => "normal"@,
            Priority::High => "high"@,
        }
    }

    /// The content of an optional priority: the JSON string of its name.
    pub open spec fn member(value: Option<Priority>) -> Option<Json> {
        match value {
            Some(p) => Some(Json::String(p.wire_name())),
            None => None,
        }
    }

    /// The string that stands for the variant in JSON.
    pub fn as_str(&self) -> (s: &'static str)
        ensures
            s@ == self.wire_name(),
    {
        match self {
            Priority::Normal => "normal",
            Priority::High => "high",
        }
    }

    /// Encodes the priority as a JSON string.
    pub fn to_value(&self) -> (v: Value)
        ensures
            json_of(v) == Json::String(self.wire_name()),
    {
        text_value(self.as_str())
    }

    /// The name under which a priority is written is the name of its variant in
    /// lower case, it is made of the letters `a` to `z` alone, and no two
    /// priorities share it.
    pub proof fn lemma_wire_names(a: Priority, b: Priority)
        ensures
            a.wire_name() == lower_case(a.variant_name()),
            is_lower_case(a.wire_name()),
            a.wire_name() == b.wire_name() ==> a == b,
    {
        reveal_strlit("Normal");
        reveal_strlit("normal");
        reveal_strlit("High");
        reveal_strlit("high");
        assert(lower_case("Normal"@) =~= "normal"@);
        assert(lower_case("High"@) =~= "high"@);
    }
}

/// The priority of a notification on the device, which is not the delivery
/// priority of the message.
#[derive(Clone, Copy, Debug, PartialEq, Eq)]
pub enum NotificationPriority {
    Unspecified,
    Min,
    Low,
    Default,
    High,
    Max,
}

impl NotificationPriority {
    /// The name of the variant, as the type declares it.
    pub open spec fn variant_name(self) -> Seq<char> {
        match self {
            NotificationPriority::Unspecified => "Unspecified"@,
            NotificationPriority::Min => "Min"@,
            NotificationPriority::Low => "Low"@,
            NotificationPriority::Default => "Default"@,
            NotificationPriority::High => "High"@,
            NotificationPriority::Max => "Max"@,
        }
    }

    /// The string that stands for the variant in JSON: the name of the
    /// variant in lower case.
    pub open spec fn wire_name(self) -> Seq<char> {
        match self {
            NotificationPriority::Unspecified => "unspecified"@,
            NotificationPriority::Min => "min"@,
            NotificationPriority::Low => "low"@,
            NotificationPriority::Default => "default"@,
            NotificationPriority::High => "high"@,
            NotificationPriority::Max => "max"@,
        }
    }

    /// The content of an optional priority: the JSON string of its name.
    pub open spec fn member(value: Option<NotificationPriority>) -> Option<Json> {
        match value {
            Some(p) => Some(Json::String(p.wire_name())),
            None => None,
        }
    }

    /// The string that stands for the variant in JSON.
    pub fn as_str(&self) -> (s: &'static str)
        ensures
            s@ == self.wire_name(),
    {
        match self {
            NotificationPriority::Unspecified => "unspecified",
            NotificationPriority::Min => "min",
            NotificationPriority::Low => "low",
            NotificationPriority::Default => "default",
            NotificationPriority::High => "high",
            NotificationPriority::Max => "max",
        }
    }

    /// Encodes the priority as a JSON string.
    pub fn to_value(&self) -> (v: Value)
        ensures
            json_of(v) == Json::String(self.wire_name()),
    {
        text_value(self.as_str())
    }

    /// The name under which a priority is written is the name of its variant in
    /// lower case, it is made of the letters `a` to `z` alone, and no two
    /// priorities share it.
    pub proof fn lemma_wire_names(a: NotificationPriority, b: NotificationPriority)
        ensures
            a.wire_name() == lower_case(a.variant_name()),
            is_lower_case(a.wire_name()),
            a.wire_name() == b.wire_name() ==> a == b,
    {
        reveal_strlit("Unspecified");
        reveal_strlit("unspecified");
        reveal_strlit("Min");
        reveal_strlit("min");
        reveal_strlit("Low");
        reveal_strlit("low");
        reveal_strlit("Default");
        reveal_strlit("default");
        reveal_strlit("High");
        reveal_strlit("high");
        reveal_strlit("Max");
        reveal_strlit("max");
        assert(lower_case("Unspecified"@) =~= "unspecified"@);
        assert(lower_case("Min"@) =~= "min"@);
        assert(lower_case("Low"@) =~= "low"@);
        assert(lower_case("Default"@) =~= "default"@);
        assert(lower_case("High"@) =~= "high"@);
        assert(lower_case("Max"@) =~= "max"@);
        assert(shape("unspecified"@) == (11nat, 'u', 'd'));
        assert(shape("min"@) == (3nat, 'm', 'n'));
        assert(shape("low"@) == (3nat, 'l', 'w'));
        assert(shape("default"@) == (7nat, 'd', 't'));
        assert(shape("high"@) == (4nat, 'h', 'h'));
        assert(shape("max"@) == (3nat, 'm', 'x'));
    }
}

/// Options of the delivery service for a message, whatever its platform.
#[derive(Debug, PartialEq)]
pub struct FcmOptions<'a> {
    /// The label under which the message is counted in delivery analytics.
    pub analytics_label: Option<&'a str>,
}

/// What the options hold.
pub struct FcmOptionsView {
    pub analytics_label: Option<Seq<char>>,
}

impl FcmOptionsView {
    /// The view of optional options.
    pub open spec fn of(value: Option<FcmOptions>) -> Option<FcmOptionsView> {
        match value {
            Some(x) => Some(x@),
            None => None,
        }
    }

    /// The content of optional options: their JSON object.
    pub open spec fn member(value: Option<FcmOptionsView>) -> Option<Json> {
        match value {
            Some(x) => Some(x.json()),
            None => None,
        }
    }

    /// The members of the options' JSON object.
    pub open spec fn members(self) -> Fields {
        let m = Fields::empty();
        let m = with_member(m, "analytics_label"@, text_json(self.analytics_label));
        m
    }

    /// The JSON encoding of the options.
    pub open spec fn json(self) -> Json {
        Json::Object(self.members())
    }

    /// The JSON object of the options has the label as its one member where
    /// the label is set, and no member where it is not.
    pub proof fn lemma_members(self)
        ensures
            has_member(self.members(), "analytics_label"@, text_json(self.analytics_label)),
            forall|name: Seq<char>| #[trigger]
                self.members().dom().contains(name) ==> name == "analytics_label"@,
    {
        broadcast use lemma_member_added;
    }

    /// The JSON of the options holds no null, at any depth: the library writes
    /// no field as null.
    pub proof fn lemma_no_null(self)
        ensures
            null_free(self.json()),
    {
        broadcast use lemma_null_free_added;
    }
}

impl<'a> View for FcmOptions<'a> {
    type V = FcmOptionsView;

    open spec fn view(&self) -> FcmOptionsView {
        FcmOptionsView {
            analytics_label: text_view(self.analytics_label),
        }
    }
}

impl<'a> FcmOptions<'a> {
    /// Encodes the options as a JSON object.
    pub fn to_value(&self) -> (v: Value)
        ensures
            json_of(v) == self@.json(),
    {
        let mut members = serde_json::Map::new();
        put_text(&mut members, "analytics_label", self.analytics_label);
        object_value(members)
    }
}

/// The body of a message: what is written as JSON and sent. Of `token`,
/// `topic` and `condition` the delivery service wants exactly one; the library
/// accepts any number of them. `dry_run` is always written, as `false` where
/// it was never set; every other field is written only where it is set.
#[derive(Debug, PartialEq)]
pub struct MessageBody<'a> {
    android: Option<AndroidConfig<'a>>,
    apns: Option<ApnsConfig<'a>>,
    condition: Option<&'a str>,
    data: Option<Value>,
    dry_run: Option<bool>,
    fcm_options: Option<FcmOptions<'a>>,
    name: Option<&'a str>,
    notification: Option<Notification<'a>>,
    token: Option<&'a str>,
    topic: Option<&'a str>,
    webpush: Option<WebpushConfig<'a>>,
}

/// What a message body holds.
pub struct MessageBodyView {
    pub android: Option<AndroidConfigView>,
    pub apns: Option<ApnsConfigView>,
    pub condition: Option<Seq<char>>,
    pub data: Option<Json>,
    pub dry_run: Option<bool>,
    pub fcm_options: Option<FcmOptionsView>,
    pub name: Option<Seq<char>>,
    pub notification: Option<NotificationView>,
    pub token: Option<Seq<char>>,
    pub topic: Option<Seq<char>>,
    pub webpush: Option<WebpushConfigView>,
}

impl MessageBodyView {
    /// The body with no field set.
    pub open spec fn unset() -> MessageBodyView {
        MessageBodyView {
            android: None,
            apns: None,
            condition: None,
            data: None,
            dry_run: None,
            fcm_options: None,
            name: None,
            notification: None,
            token: None,
            topic: None,
            webpush: None,
        }
    }

    /// Whether the message is a dry run: the flag where it is set, `false`
    /// where it is not.
    pub open spec fn is_dry_run(self) -> bool {
        self.dry_run == Some(true)
    }

    /// Whether the body can be encoded: each free-form value that it holds,
    /// itself or in a platform configuration, is unset or a JSON object.
    pub open spec fn encodable(self) -> bool {
        &&& (self.android matches Some(c) ==> c.encodable())
        &&& (self.apns matches Some(c) ==> c.encodable())
        &&& is_mapping(self.data)
        &&& (self.webpush matches Some(c) ==> c.encodable())
    }

    /// The members of the body's JSON object. `dry_run` is always among them,
    /// as `false` where the flag is unset; every other member is there only
    /// where its field is set.
    pub open spec fn members(self) -> Fields {
        let m = Fields::empty();
        let m = with_member(m, "android"@, AndroidConfigView::member(self.android));
        let m = with_member(m, "apns"@, ApnsConfigView::member(self.apns));
        let m = with_member(m, "condition"@, text_json(self.condition));
        let m = with_member(m, "data"@, self.data);
        let m = with_member(m, "dry_run"@, Some(Json::Bool(self.is_dry_run())));
        let m = with_member(m, "fcm_options"@, FcmOptionsView::member(self.fcm_options));
        let m = with_member(m, "name"@, text_json(self.name));
        let m = with_member(m, "notification"@, NotificationView::member(self.notification));
        let m = with_member(m, "token"@, text_json(self.token));
        let m = with_member(m, "topic"@, text_json(self.topic));
        let m = with_member(m, "webpush"@, WebpushConfigView::member(self.webpush));
        m
    }

    /// The JSON encoding of the body.
    pub open spec fn json(self) -> Json {
        Json::Object(self.members())
    }

    /// The names that the members of the body's JSON object can have.
    pub open spec fn is_field_name(name: Seq<char>) -> bool {
        ||| name == "android"@
        ||| name == "apns"@
        ||| name == "condition"@
        ||| name == "data"@
        ||| name == "dry_run"@
        ||| name == "fcm_options"@
        ||| name == "name"@
        ||| name == "notification"@
        ||| name == "token"@
        ||| name == "topic"@
        ||| name == "webpush"@
    }

    /// The JSON object of a message body has one member for each field that
    /// is set, under the field's name and with the field's content, and the
    /// member `dry_run`, which is `false` where the flag is unset. It has no
    /// other member: apart from `dry_run`, a field that is unset is not there
    /// at all. The data is there as it was given.
    pub proof fn lemma_members(self)
        ensures
            has_member(self.members(), "android"@, AndroidConfigView::member(self.android)),
            has_member(self.members(), "apns"@, ApnsConfigView::member(self.apns)),
            has_member(self.members(), "condition"@, text_json(self.condition)),
            has_member(self.members(), "data"@, self.data),
            has_member(self.members(), "dry_run"@, Some(Json::Bool(self.is_dry_run()))),
            has_member(self.members(), "fcm_options"@, FcmOptionsView::member(self.fcm_options)),
            has_member(self.members(), "name"@, text_json(self.name)),
            has_member(
                self.members(),
                "notification"@,
                NotificationView::member(self.notification),
            ),
            has_member(self.members(), "token"@, text_json(self.token)),
            has_member(self.members(), "topic"@, text_json(self.topic)),
            has_member(self.members(), "webpush"@, WebpushConfigView::member(self.webpush)),
            forall|name: Seq<char>| #[trigger]
                self.members().dom().contains(name) ==> Self::is_field_name(name),
    {
        broadcast use lemma_member_added;

        reveal_strlit("android");
        reveal_strlit("apns");
        reveal_strlit("condition");
        reveal_strlit("data");
        reveal_strlit("dry_run");
        reveal_strlit("fcm_options");
        reveal_strlit("name");
        reveal_strlit("notification");
        reveal_strlit("token");
        reveal_strlit("topic");
        reveal_strlit("webpush");
        assert(shape("android"@) == (7nat, 'a', 'd'));
        assert(shape("apns"@) == (4nat, 'a', 's'));
        assert(shape("condition"@) == (9nat, 'c', 'n'));
        assert(shape("data"@) == (4nat, 'd', 'a'));
        assert(shape("dry_run"@) == (7nat, 'd', 'n'));
        assert(shape("fcm_options"@) == (11nat, 'f', 's'));
        assert(shape("name"@) == (4nat, 'n', 'e'));
        assert(shape("notification"@) == (12nat, 'n', 'n'));
        assert(shape("token"@) == (5nat, 't', 'n'));
        assert(shape("topic"@) == (5nat, 't', 'c'));
        assert(shape("webpush"@) == (7nat, 'w', 'h'));
    }

    /// Free-form data that is a JSON object is written under `data` as it was
    /// given, member for member. Data that is anything else, an array or a
    /// scalar, leaves the body without an encoding. And data is all that can
    /// do so in a body without platform configurations.
    pub proof fn lemma_data(self, data: Json)
        requires
            self.data == Some(data),
        ensures
            has_member(self.members(), "data"@, Some(data)),
            self.encodable() ==> data is Object,
            data is Object && self.android is None && self.apns is None && self.webpush is None
                ==> self.encodable(),
    {
        self.lemma_members();
    }

    /// Whether the free-form values that the body was given, itself or in a
    /// platform configuration, hold no null.
    pub open spec fn given_null_free(self) -> bool {
        &&& null_free_member(self.data)
        &&& (self.android matches Some(c) ==> c.given_null_free())
        &&& (self.apns matches Some(c) ==> c.given_null_free())
        &&& (self.webpush matches Some(c) ==> c.given_null_free())
    }

    /// The JSON of a message body holds no null, at any depth, unless a
    /// free-form value was given with one: the library writes no field as null.
    pub proof fn lemma_no_null(self)
        requires
            self.given_null_free(),
        ensures
            null_free(self.json()),
    {
        broadcast use lemma_null_free_added;

        match self.android {
            Some(x) => x.lemma_no_null(),
            None => {},
        }
        match self.apns {
            Some(x) => x.lemma_no_null(),
            None => {},
        }
        match self.fcm_options {
            Some(x) => x.lemma_no_null(),
            None => {},
        }
        match self.notification {
            Some(x) => x.lemma_no_null(),
            None => {},
        }
        match self.webpush {
            Some(x) => x.lemma_no_null(),
            None => {},
        }
    }
}

impl<'a> View for MessageBody<'a> {
    type V = MessageBodyView;

    closed spec fn view(&self) -> MessageBodyView {
        MessageBodyView {
            android: AndroidConfigView::of(self.android),
            apns: ApnsConfigView::of(self.apns),
            condition: text_view(self.condition),
            data: value_view(self.data),
            dry_run: self.dry_run,
            fcm_options: FcmOptionsView::of(self.fcm_options),
            name: text_view(self.name),
            notification: NotificationView::of(self.notification),
            token: text_view(self.token),
            topic: text_view(self.topic),
            webpush: WebpushConfigView::of(self.webpush),
        }
    }
}

impl<'a> MessageBody<'a> {
    /// Encodes the body as a JSON object. The encoding fails where a free-form
    /// value, of the body or of a platform configuration in it, is set and is
    /// no JSON object, and only there.
    pub fn to_value(&self) -> (r: Result<Value, DataEncodingError>)
        ensures
            r is Ok <==> self@.encodable(),
            r matches Ok(v) ==> json_of(v) == self@.json(),
    {
        let mut members = serde_json::Map::new();
        let android = match &self.android {
            Some(c) => Some(c.to_value()?),
            None => None,
        };
        put_member(&mut members, "android", android);
        let apns = match &self.apns {
            Some(c) => Some(c.to_value()?),
            None => None,
        };
        put_member(&mut members, "apns", apns);
        put_text(&mut members, "condition", self.condition);
        put_mapping(&mut members, "data", &self.data)?;
        let dry_run = match self.dry_run {
            Some(b) => b,
            None => false,
        };
        put_member(&mut members, "dry_run", Some(flag_value(dry_run)));
        let fcm_options = match &self.fcm_options {
            Some(o) => Some(o.to_value()),
            None => None,
        };
        put_member(&mut members, "fcm_options", fcm_options);
        put_text(&mut members, "name", self.name);
        let notification = match &self.notification {
            Some(n) => Some(n.to_value()),
            None => None,
        };
        put_member(&mut members, "notification", notification);
        put_text(&mut members, "token", self.token);
        put_text(&mut members, "topic", self.topic);
        let webpush = match &self.webpush {
            Some(c) => Some(c.to_value()?),
            None => None,
        };
        put_member(&mut members, "webpush", webpush);
        Ok(object_value(members))
    }

    /// Writes the body as JSON text, in the compact form. It fails where
    /// `to_value` fails.
    pub fn to_json(&self) -> (r: Result<String, DataEncodingError>)
        ensures
            r is Ok <==> self@.encodable(),
            r matches Ok(s) ==> s@ == json_text(self@.json()),
    {
        let value = self.to_value()?;
        Ok(value_text(&value))
    }
}

/// A message, ready to send: the body, and the access token that the request
/// carries beside it. The token is no part of the body and of its JSON.
#[derive(Debug)]
pub struct Message<'a> {
    pub access_token: &'a str,
    pub body: MessageBody<'a>,
}

/// A builder for a [`Message`].
#[derive(Debug)]
pub struct MessageBuilder<'a> {
    access_token: &'a str,
    android: Option<AndroidConfig<'a>>,
    apns: Option<ApnsConfig<'a>>,
    condition: Option<&'a str>,
    data: Option<Value>,
    dry_run: Option<bool>,
    fcm_options: Option<FcmOptions<'a>>,
    name: Option<&'a str>,
    notification: Option<Notification<'a>>,
    token: Option<&'a str>,
    topic: Option<&'a str>,
    webpush: Option<WebpushConfig<'a>>,
}

impl<'a> View for MessageBuilder<'a> {
    type V = MessageBodyView;

    closed spec fn view(&self) -> MessageBodyView {
        MessageBodyView {
            android: AndroidConfigView::of(self.android),
            apns: ApnsConfigView::of(self.apns),
            condition: text_view(self.condition),
            data: value_view(self.data),
            dry_run: self.dry_run,
            fcm_options: FcmOptionsView::of(self.fcm_options),
            name: text_view(self.name),
            notification: NotificationView::of(self.notification),
            token: text_view(self.token),
            topic: text_view(self.topic),
            webpush: WebpushConfigView::of(self.webpush),
        }
    }
}

impl<'a> MessageBuilder<'a> {
    /// The access token that the builder was made with.
    pub closed spec fn credential(&self) -> Seq<char> {
        self.access_token@
    }

    /// A builder for a message to the device with the given registration
    /// token. No other field is set.
    pub fn new(access_token: &'a str, token: &'a str) -> (b: MessageBuilder<'a>)
        ensures
            b.credential() == access_token@,
            b@ == (MessageBodyView { token: Some(token@), ..MessageBodyView::unset() }),
    {
        MessageBuilder {
            access_token,
            android: None,
            apns: None,
            condition: None,
            data: None,
            dry_run: None,
            fcm_options: None,
            name: None,
            notification: None,
            token: Some(token),
            topic: None,
            webpush: None,
        }
    }

    /// Sets the configuration for Android devices.
    pub fn android(&mut self, android: AndroidConfig<'a>) -> (r: &mut Self)
        ensures
            r@ == (MessageBodyView { android: Some(android@), ..old(self)@ }),
            r.credential() == old(self).credential(),
            *final(self) == *final(r),
    {
        self.android = Some(android);
        self
    }

    /// Sets the configuration for Apple devices.
    pub fn apns(&mut self, apns: ApnsConfig<'a>) -> (r: &mut Self)
        ensures
            r@ == (MessageBodyView { apns: Some(apns@), ..old(self)@ }),
            r.credential() == old(self).credential(),
            *final(self) == *final(r),
    {
        self.apns = Some(apns);
        self
    }

    /// Sets the condition that selects the recipients, an expression over
    /// topics such as `'foo' in topics && 'bar' in topics`.
    pub fn condition(&mut self, condition: &'a str) -> (r: &mut Self)
        ensures
            r@ == (MessageBodyView { condition: Some(condition@), ..old(self)@ }),
            r.credential() == old(self).credential(),
            *final(self) == *final(r),
    {
        self.condition = Some(condition);
        self
    }

    /// Sets the free-form data of the message. Any value is accepted here; one
    /// that is no JSON object is refused when the message is encoded.
    pub fn data(&mut self, data: Value) -> (r: &mut Self)
        ensures
            r@ == (MessageBodyView { data: Some(json_of(data)), ..old(self)@ }),
            r.credential() == old(self).credential(),
            *final(self) == *final(r),
    {
        self.data = Some(data);
        self
    }

    /// Says whether the delivery service only validates the message, without
    /// delivering it.
    pub fn dry_run(&mut self, dry_run: bool) -> (r: &mut Self)
        ensures
            r@ == (MessageBodyView { dry_run: Some(dry_run), ..old(self)@ }),
            r.credential() == old(self).credential(),
            *final(self) == *final(r),
    {
        self.dry_run = Some(dry_run);
        self
    }

    /// Sets the options of the delivery service.
    pub fn fcm_options(&mut self, fcm_options: FcmOptions<'a>) -> (r: &mut Self)
        ensures
            r@ == (MessageBodyView { fcm_options: Some(fcm_options@), ..old(self)@ }),
            r.credential() == old(self).credential(),
            *final(self) == *final(r),
    {
        self.fcm_options = Some(fcm_options);
        self
    }

    /// Sets the identifier of the message, in the form
    /// `projects/*/messages/{message_id}`. The delivery service assigns it; a
    /// message that goes out has none as a rule.
    pub fn name(&mut self, name: &'a str) -> (r: &mut Self)
        ensures
            r@ == (MessageBodyView { name: Some(name@), ..old(self)@ }),
            r.credential() == old(self).credential(),
            *final(self) == *final(r),
    {
        self.name = Some(name);
        self
    }

    /// Sets the notification to show on every platform.
    pub fn notification(&mut self, notification: Notification<'a>) -> (r: &mut Self)
        ensures
            r@ == (MessageBodyView { notification: Some(notification@), ..old(self)@ }),
            r.credential() == old(self).credential(),
            *final(self) == *final(r),
    {
        self.notification = Some(notification);
        self
    }

    /// Sets the registration token of the device to send to.
    pub fn token(&mut self, token: &'a str) -> (r: &mut Self)
        ensures
            r@ == (MessageBodyView { token: Some(token@), ..old(self)@ }),
            r.credential() == old(self).credential(),
            *final(self) == *final(r),
    {
        self.token = Some(token);
        self
    }

    /// Sets the topic to send to.
    pub fn topic(&mut self, topic: &'a str) -> (r: &mut Self)
        ensures
            r@ == (MessageBodyView { topic: Some(topic@), ..old(self)@ }),
            r.credential() == old(self).credential(),
            *final(self) == *final(r),
    {
        self.topic = Some(topic);
        self
    }

    /// Sets the configuration for browsers.
    pub fn webpush(&mut self, webpush: WebpushConfig<'a>) -> (r: &mut Self)
        ensures
            r@ == (MessageBodyView { webpush: Some(webpush@), ..old(self)@ }),
            r.credential() == old(self).credential(),
            *final(self) == *final(r),
    {
        self.webpush = Some(webpush);
        self
    }

    /// Completes the build: the message carries the access token, and its
    /// body holds what the builder held, field by field.
    pub fn finalize(self) -> (m: Message<'a>)
        ensures
            m.access_token@ == self.credential(),
            m.body@ == self@,
    {
        Message {
            access_token: self.access_token,
            body: MessageBody {
                android: self.android,
                apns: self.apns,
                condition: self.condition,
                data: self.data,
                dry_run: self.dry_run,
                fcm_options: self.fcm_options,
                name: self.name,
                notification: self.notification,
                token: self.token,
                topic: self.topic,
                webpush: self.webpush,
            },
        }
    }
}

} // verus!
