//! Web Push: the configuration of a message for browsers.

use crate::json::{
    has_member, is_mapping, json_of, lemma_member_added, lemma_null_free_added, null_free,
    null_free_member, object_value, put_mapping, put_member, put_text, shape, text_json, text_view,
    value_view, with_member, DataEncodingError, Fields, Json,
};
use serde_json::Value;
use vstd::prelude::*;

verus! {

/// The notification that a browser shows: a title and a body.
#[derive(Debug, PartialEq)]
pub struct WebNotification<'a> {
    pub title: Option<&'a str>,
    pub body: Option<&'a str>,
}

/// What a web notification holds.
pub struct WebNotificationView {
    pub title: Option<Seq<char>>,
    pub body: Option<Seq<char>>,
}

impl WebNotificationView {
    /// The view of an optional web notification.
    pub open spec fn of(value: Option<WebNotification>) -> Option<WebNotificationView> {
        match value {
            Some(x) => Some(x@),
            None => None,
        }
    }

    /// The content of an optional web notification: its JSON object.
    pub open spec fn member(value: Option<WebNotificationView>) -> Option<Json> {
        match value {
            Some(x) => Some(x.json()),
            None => None,
        }
    }

    /// The members of the web notification's JSON object.
    pub open spec fn members(self) -> Fields {
        let m = Fields::empty();
        let m = with_member(m, "title"@, text_json(self.title));
        let m = with_member(m, "body"@, text_json(self.body));
        m
    }

    /// The JSON encoding of the web notification.
    pub open spec fn json(self) -> Json {
        Json::Object(self.members())
    }

    /// The JSON object of a web notification has one member for each field
    /// that is set, under the field's name and with the field's text, and no
    /// other member.
    pub proof fn lemma_members(self)
        ensures
            has_member(self.members(), "title"@, text_json(self.title)),
            has_member(self.members(), "body"@, text_json(self.body)),
            forall|name: Seq<char>| #[trigger]
                self.members().dom().contains(name) ==> name == "title"@ || name == "body"@,
    {
        broadcast use lemma_member_added;

        reveal_strlit("title");
        reveal_strlit("body");
        assert(shape("title"@) == (5nat, 't', 'e'));
        assert(shape("body"@) == (4nat, 'b', 'y'));
    }

    /// The JSON of a web notification holds no null, at any depth: the library
    /// writes no field as null.
    pub proof fn lemma_no_null(self)
        ensures
            null_free(self.json()),
    {
        broadcast use lemma_null_free_added;
    }
}

impl<'a> View for WebNotification<'a> {
    type V = WebNotificationView;

    open spec fn view(&self) -> WebNotificationView {
        WebNotificationView {
            title: text_view(self.title),
            body: text_view(self.body),
        }
    }
}

impl<'a> WebNotification<'a> {
    /// Encodes the web notification as a JSON object.
    pub fn to_value(&self) -> (v: Value)
        ensures
            json_of(v) == self@.json(),
    {
        let mut members = serde_json::Map::new();
        put_text(&mut members, "title", self.title);
        put_text(&mut members, "body", self.body);
        object_value(members)
    }
}

/// Options of the delivery service for a message to browsers.
#[derive(Debug, PartialEq)]
pub struct WebpushFcmOptions<'a> {
    /// The label under which the message is counted in delivery analytics.
    pub analytics_label: Option<&'a str>,
    /// The address to open when the user clicks on the notification.
    pub link: Option<&'a str>,
}

/// What the Web Push options hold.
pub struct WebpushFcmOptionsView {
    pub analytics_label: Option<Seq<char>>,
    pub link: Option<Seq<char>>,
}

impl WebpushFcmOptionsView {
    /// The view of optional Web Push options.
    pub open spec fn of(value: Option<WebpushFcmOptions>) -> Option<WebpushFcmOptionsView> {
        match value {
            Some(x) => Some(x@),
            None => None,
        }
    }

    /// The content of optional Web Push options: their JSON object.
    pub open spec fn member(value: Option<WebpushFcmOptionsView>) -> Option<Json> {
        match value {
            Some(x) => Some(x.json()),
            None => None,
        }
    }

    /// The members of the Web Push options' JSON object.
    pub open spec fn members(self) -> Fields {
        let m = Fields::empty();
        let m = with_member(m, "analytics_label"@, text_json(self.analytics_label));
        let m = with_member(m, "link"@, text_json(self.link));
        m
    }

    /// The JSON encoding of the Web Push options.
    pub open spec fn json(self) -> Json {
        Json::Object(self.members())
    }

    /// The JSON object of the options has one member for each field that is
    /// set, under the field's name and with the field's text, and no other
    /// member.
    pub proof fn lemma_members(self)
        ensures
            has_member(self.members(), "analytics_label"@, text_json(self.analytics_label)),
            has_member(self.members(), "link"@, text_json(self.link)),
            forall|name: Seq<char>| #[trigger]
                self.members().dom().contains(name) ==> name == "analytics_label"@
                    || name == "link"@,
    {
        broadcast use lemma_member_added;

        reveal_strlit("analytics_label");
        reveal_strlit("link");
        assert(shape("analytics_label"@) == (15nat, 'a', 'l'));
        assert(shape("link"@) == (4nat, 'l', 'k'));
    }

    /// The JSON of the options holds no null, at any depth: the library writes
    /// no field as null.
    pub proof fn lemma_no_null(self)
        ensures
            null_free(self.json()),
    {
        broadcast use lemma_null_free_added;
    }
}

impl<'a> View for WebpushFcmOptions<'a> {
    type V = WebpushFcmOptionsView;

    open spec fn view(&self) -> WebpushFcmOptionsView {
        WebpushFcmOptionsView {
            analytics_label: text_view(self.analytics_label),
            link: text_view(self.link),
        }
    }
}

impl<'a> WebpushFcmOptions<'a> {
    /// Encodes the Web Push options as a JSON object.
    pub fn to_value(&self) -> (v: Value)
        ensures
            json_of(v) == self@.json(),
    {
        let mut members = serde_json::Map::new();
        put_text(&mut members, "analytics_label", self.analytics_label);
        put_text(&mut members, "link", self.link);
        object_value(members)
    }
}

/// The configuration of a message for browsers.
#[derive(Debug, PartialEq)]
pub struct WebpushConfig<'a> {
    data: Option<Value>,
    headers: Option<Value>,
    notification: Option<WebNotification<'a>>,
    fcm_options: Option<WebpushFcmOptions<'a>>,
}

/// What a Web Push configuration holds.
pub struct WebpushConfigView {
    pub data: Option<Json>,
    pub headers: Option<Json>,
    pub notification: Option<WebNotificationView>,
    pub fcm_options: Option<WebpushFcmOptionsView>,
}

impl WebpushConfigView {
    /// The Web Push configuration with no field set.
    pub open spec fn unset() -> WebpushConfigView {
        WebpushConfigView {
            data: None,
            headers: None,
            notification: None,
            fcm_options: None,
        }
    }

    /// The view of an optional Web Push configuration.
    pub open spec fn of(value: Option<WebpushConfig>) -> Option<WebpushConfigView> {
        match value {
            Some(x) => Some(x@),
            None => None,
        }
    }

    /// The content of an optional Web Push configuration: its JSON object.
    pub open spec fn member(value: Option<WebpushConfigView>) -> Option<Json> {
        match value {
            Some(x) => Some(x.json()),
            None => None,
        }
    }

    /// Whether the configuration can be encoded: its data and its headers,
    /// where set, are JSON objects.
    pub open spec fn encodable(self) -> bool {
        &&& is_mapping(self.data)
        &&& is_mapping(self.headers)
    }

    /// The members of the Web Push configuration's JSON object.
    pub open spec fn members(self) -> Fields {
        let m = Fields::empty();
        let m = with_member(m, "data"@, self.data);
        let m = with_member(m, "headers"@, self.headers);
        let m = with_member(m, "notification"@, WebNotificationView::member(self.notification));
        let m = with_member(m, "fcm_options"@, WebpushFcmOptionsView::member(self.fcm_options));
        m
    }

    /// The JSON encoding of the Web Push configuration.
    pub open spec fn json(self) -> Json {
        Json::Object(self.members())
    }

    /// The JSON object of a Web Push configuration has one member for each
    /// field that is set, under the field's name and with the field's content,
    /// and no other member. Data and headers are there as they were given.
    pub proof fn lemma_members(self)
        ensures
            has_member(self.members(), "data"@, self.data),
            has_member(self.members(), "headers"@, self.headers),
            has_member(
                self.members(),
                "notification"@,
                WebNotificationView::member(self.notification),
            ),
            has_member(
                self.members(),
                "fcm_options"@,
                WebpushFcmOptionsView::member(self.fcm_options),
            ),
            forall|name: Seq<char>| #[trigger]
                self.members().dom().contains(name) ==> name == "data"@ || name == "headers"@
                    || name == "notification"@ || name == "fcm_options"@,
    {
        broadcast use lemma_member_added;

        reveal_strlit("data");
        reveal_strlit("headers");
        reveal_strlit("notification");
        reveal_strlit("fcm_options");
        assert(shape("data"@) == (4nat, 'd', 'a'));
        assert(shape("headers"@) == (7nat, 'h', 's'));
        assert(shape("notification"@) == (12nat, 'n', 'n'));
        assert(shape("fcm_options"@) == (11nat, 'f', 's'));
    }

    /// Data and headers that are JSON objects are written under `data` and
    /// `headers` as they were given, member for member. The configuration can
    /// be encoded exactly when each of the two is unset or a JSON object: an
    /// array or a scalar in either place leaves it without an encoding.
    pub proof fn lemma_free_form(self)
        ensures
            has_member(self.members(), "data"@, self.data),
            has_member(self.members(), "headers"@, self.headers),
            self.encodable() <==> is_mapping(self.data) && is_mapping(self.headers),
    {
        self.lemma_members();
    }

    /// Whether the data and the headers that the configuration was given
    /// hold no null.
    pub open spec fn given_null_free(self) -> bool {
        &&& null_free_member(self.data)
        &&& null_free_member(self.headers)
    }

    /// The JSON of a Web Push configuration holds no null, at any depth,
    /// unless the data or the headers were given with one: the library writes
    /// no field as null.
    pub proof fn lemma_no_null(self)
        requires
            self.given_null_free(),
        ensures
            null_free(self.json()),
    {
        broadcast use lemma_null_free_added;

        match self.notification {
            Some(x) => x.lemma_no_null(),
            None => {},
        }
        match self.fcm_options {
            Some(x) => x.lemma_no_null(),
            None => {},
        }
    }
}

impl<'a> View for WebpushConfig<'a> {
    type V = WebpushConfigView;

    closed spec fn view(&self) -> WebpushConfigView {
        WebpushConfigView {
            data: value_view(self.data),
            headers: value_view(self.headers),
            notification: WebNotificationView::of(self.notification),
            fcm_options: WebpushFcmOptionsView::of(self.fcm_options),
        }
    }
}

impl<'a> WebpushConfig<'a> {
    /// Encodes the configuration as a JSON object. The encoding fails where
    /// the data or the headers are set and are no JSON object, and only
    /// there.
    pub fn to_value(&self) -> (r: Result<Value, DataEncodingError>)
        ensures
            r is Ok <==> self@.encodable(),
            r matches Ok(v) ==> json_of(v) == self@.json(),
    {
        let mut members = serde_json::Map::new();
        put_mapping(&mut members, "data", &self.data)?;
        put_mapping(&mut members, "headers", &self.headers)?;
        let notification = match &self.notification {
            Some(n) => Some(n.to_value()),
            None => None,
        };
        put_member(&mut members, "notification", notification);
        let fcm_options = match &self.fcm_options {
            Some(o) => Some(o.to_value()),
            None => None,
        };
        put_member(&mut members, "fcm_options", fcm_options);
        Ok(object_value(members))
    }
}

/// A builder for a [`WebpushConfig`].
pub struct WebpushConfigBuilder<'a> {
    data: Option<Value>,
    headers: Option<Value>,
    notification: Option<WebNotification<'a>>,
    fcm_options: Option<WebpushFcmOptions<'a>>,
}

impl<'a> View for WebpushConfigBuilder<'a> {
    type V = WebpushConfigView;

    closed spec fn view(&self) -> WebpushConfigView {
        WebpushConfigView {
            data: value_view(self.data),
            headers: value_view(self.headers),
            notification: WebNotificationView::of(self.notification),
            fcm_options: WebpushFcmOptionsView::of(self.fcm_options),
        }
    }
}

impl<'a> WebpushConfigBuilder<'a> {
    /// A builder with no field set.
    pub fn new() -> (b: WebpushConfigBuilder<'a>)
        ensures
            b@ == WebpushConfigView::unset(),
    {
        WebpushConfigBuilder {
            data: None,
            headers: None,
            notification: None,
            fcm_options: None,
        }
    }

    /// Sets the free-form data handed to the service worker. Any value is
    /// accepted here; one that is no JSON object is refused when the
    /// configuration is encoded.
    pub fn data(&mut self, data: Value) -> (r: &mut Self)
        ensures
            r@ == (WebpushConfigView { data: Some(json_of(data)), ..old(self)@ }),
            *final(self) == *final(r),
    {
        self.data = Some(data);
        self
    }

    /// Sets the headers of the Web Push request, such as TTL and urgency. Any
    /// value is accepted here; one that is no JSON object is refused when the
    /// configuration is encoded.
    pub fn headers(&mut self, headers: Value) -> (r: &mut Self)
        ensures
            r@ == (WebpushConfigView { headers: Some(json_of(headers)), ..old(self)@ }),
            *final(self) == *final(r),
    {
        self.headers = Some(headers);
        self
    }

    /// Sets the notification to show.
    pub fn notification(&mut self, notification: WebNotification<'a>) -> (r: &mut Self)
        ensures
            r@ == (WebpushConfigView { notification: Some(notification@), ..old(self)@ }),
            *final(self) == *final(r),
    {
        self.notification = Some(notification);
        self
    }

    /// Sets the options of the delivery service.
    pub fn fcm_options(&mut self, fcm_options: WebpushFcmOptions<'a>) -> (r: &mut Self)
        ensures
            r@ == (WebpushConfigView { fcm_options: Some(fcm_options@), ..old(self)@ }),
            *final(self) == *final(r),
    {
        self.fcm_options = Some(fcm_options);
        self
    }

    /// Completes the build: the Web Push configuration holds what the builder
    /// held, field by field.
    pub fn finalize(self) -> (c: WebpushConfig<'a>)
        ensures
            c@ == self@,
    {
        WebpushConfig {
            data: self.data,
            headers: self.headers,
            notification: self.notification,
            fcm_options: self.fcm_options,
        }
    }
}

} // verus!
