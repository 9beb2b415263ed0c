//! APNs: the configuration of a message for Apple devices.

use crate::json::{
    has_member, is_mapping, json_of, lemma_member_added, lemma_null_free_added, null_free,
    null_free_member, object_value, put_mapping, put_member, put_text, shape, text_json, text_view,
    value_view, with_member, DataEncodingError, Fields, Json,
};
use serde_json::Value;
use vstd::prelude::*;

verus! {

/// The alert that an Apple device shows: a title and a body.
#[derive(Debug, PartialEq)]
pub struct Payload<'a> {
    pub title: Option<&'a str>,
    pub body: Option<&'a str>,
}

/// What a payload holds.
pub struct PayloadView {
    pub title: Option<Seq<char>>,
    pub body: Option<Seq<char>>,
}

impl PayloadView {
    /// The view of an optional payload.
    pub open spec fn of(value: Option<Payload>) -> Option<PayloadView> {
        match value {
            Some(x) => Some(x@),
            None => None,
        }
    }

    /// The content of an optional payload: its JSON object.
    pub open spec fn member(value: Option<PayloadView>) -> Option<Json> {
        match value {
            Some(x) => Some(x.json()),
            None => None,
        }
    }

    /// The members of the payload's JSON object.
    pub open spec fn members(self) -> Fields {
        let m = Fields::empty();
        let m = with_member(m, "title"@, text_json(self.title));
        let m = with_member(m, "body"@, text_json(self.body));
        m
    }

    /// The JSON encoding of the payload.
    pub open spec fn json(self) -> Json {
        Json::Object(self.members())
    }

    /// The JSON object of a payload has one member for each field that is
    /// set, under the field's name and with the field's text, and no other
    /// member.
    pub proof fn lemma_members(self)
        ensures
            has_member(self.members(), "title"@, text_json(self.title)),
            has_member(self.members(), "body"@, text_json(self.body)),
            forall|name: Seq<char>| #[trigger]
                self.members().dom().contains(name) ==> name == "title"@ || name == "body"@,
    {
        broadcast use lemma_member_added;

        reveal_strlit("title");
        reveal_strlit("body");
        assert(shape("title"@) == (5nat, 't', 'e'));
        assert(shape("body"@) == (4nat, 'b', 'y'));
    }

    /// The JSON of a payload holds no null, at any depth: the library writes no
    /// field as null.
    pub proof fn lemma_no_null(self)
        ensures
            null_free(self.json()),
    {
        broadcast use lemma_null_free_added;
    }
}

impl<'a> View for Payload<'a> {
    type V = PayloadView;

    open spec fn view(&self) -> PayloadView {
        PayloadView {
            title: text_view(self.title),
            body: text_view(self.body),
        }
    }
}

impl<'a> Payload<'a> {
    /// Encodes the payload as a JSON object.
    pub fn to_value(&self) -> (v: Value)
        ensures
            json_of(v) == self@.json(),
    {
        let mut members = serde_json::Map::new();
        put_text(&mut members, "title", self.title);
        put_text(&mut members, "body", self.body);
        object_value(members)
    }
}

/// Options of the delivery service for a message to Apple devices.
#[derive(Debug, PartialEq)]
pub struct ApnsFcmOptions<'a> {
    /// The label under which the message is counted in delivery analytics.
    pub analytics_label: Option<&'a str>,
    /// The address of an image to show in the notification.
    pub image: Option<&'a str>,
}

/// What the APNs options hold.
pub struct ApnsFcmOptionsView {
    pub analytics_label: Option<Seq<char>>,
    pub image: Option<Seq<char>>,
}

impl ApnsFcmOptionsView {
    /// The view of optional APNs options.
    pub open spec fn of(value: Option<ApnsFcmOptions>) -> Option<ApnsFcmOptionsView> {
        match value {
            Some(x) => Some(x@),
            None => None,
        }
    }

    /// The content of optional APNs options: their JSON object.
    pub open spec fn member(value: Option<ApnsFcmOptionsView>) -> Option<Json> {
        match value {
            Some(x) => Some(x.json()),
            None => None,
        }
    }

    /// The members of the APNs options' JSON object.
    pub open spec fn members(self) -> Fields {
        let m = Fields::empty();
        let m = with_member(m, "analytics_label"@, text_json(self.analytics_label));
        let m = with_member(m, "image"@, text_json(self.image));
        m
    }

    /// The JSON encoding of the APNs options.
    pub open spec fn json(self) -> Json {
        Json::Object(self.members())
    }

    /// The JSON object of the options has one member for each field that is
    /// set, under the field's name and with the field's text, and no other
    /// member.
    pub proof fn lemma_members(self)
        ensures
            has_member(self.members(), "analytics_label"@, text_json(self.analytics_label)),
            has_member(self.members(), "image"@, text_json(self.image)),
            forall|name: Seq<char>| #[trigger]
                self.members().dom().contains(name) ==> name == "analytics_label"@
                    || name == "image"@,
    {
        broadcast use lemma_member_added;

        reveal_strlit("analytics_label");
        reveal_strlit("image");
        assert(shape("analytics_label"@) == (15nat, 'a', 'l'));
        assert(shape("image"@) == (5nat, 'i', 'e'));
    }

    /// The JSON of the options holds no null, at any depth: the library writes
    /// no field as null.
    pub proof fn lemma_no_null(self)
        ensures
            null_free(self.json()),
    {
        broadcast use lemma_null_free_added;
    }
}

impl<'a> View for ApnsFcmOptions<'a> {
    type V = ApnsFcmOptionsView;

    open spec fn view(&self) -> ApnsFcmOptionsView {
        ApnsFcmOptionsView {
            analytics_label: text_view(self.analytics_label),
            image: text_view(self.image),
        }
    }
}

impl<'a> ApnsFcmOptions<'a> {
    /// Encodes the APNs options as a JSON object.
    pub fn to_value(&self) -> (v: Value)
        ensures
            json_of(v) == self@.json(),
    {
        let mut members = serde_json::Map::new();
        put_text(&mut members, "analytics_label", self.analytics_label);
        put_text(&mut members, "image", self.image);
        object_value(members)
    }
}

/// The configuration of a message for Apple devices.
#[derive(Debug, PartialEq)]
pub struct ApnsConfig<'a> {
    headers: Option<Value>,
    payload: Option<Payload<'a>>,
    fcm_options: Option<ApnsFcmOptions<'a>>,
}

/// What an APNs configuration holds.
pub struct ApnsConfigView {
    pub headers: Option<Json>,
    pub payload: Option<PayloadView>,
    pub fcm_options: Option<ApnsFcmOptionsView>,
}

impl ApnsConfigView {
    /// The APNs configuration with no field set.
    pub open spec fn unset() -> ApnsConfigView {
        ApnsConfigView { headers: None, payload: None, fcm_options: None }
    }

    /// The view of an optional APNs configuration.
    pub open spec fn of(value: Option<ApnsConfig>) -> Option<ApnsConfigView> {
        match value {
            Some(x) => Some(x@),
            None => None,
        }
    }

    /// The content of an optional APNs configuration: its JSON object.
    pub open spec fn member(value: Option<ApnsConfigView>) -> Option<Json> {
        match value {
            Some(x) => Some(x.json()),
            None => None,
        }
    }

    /// Whether the configuration can be encoded: its headers, where set, are
    /// a JSON object.
    pub open spec fn encodable(self) -> bool {
        is_mapping(self.headers)
    }

    /// The members of the APNs configuration's JSON object.
    pub open spec fn members(self) -> Fields {
        let m = Fields::empty();
        let m = with_member(m, "headers"@, self.headers);
        let m = with_member(m, "payload"@, PayloadView::member(self.payload));
        let m = with_member(m, "fcm_options"@, ApnsFcmOptionsView::member(self.fcm_options));
        m
    }

    /// The JSON encoding of the APNs configuration.
    pub open spec fn json(self) -> Json {
        Json::Object(self.members())
    }

    /// The JSON object of an APNs configuration has one member for each field
    /// that is set, under the field's name and with the field's content, and
    /// no other member. The headers are there as they were given.
    pub proof fn lemma_members(self)
        ensures
            has_member(self.members(), "headers"@, self.headers),
            has_member(self.members(), "payload"@, PayloadView::member(self.payload)),
            has_member(
                self.members(),
                "fcm_options"@,
                ApnsFcmOptionsView::member(self.fcm_options),
            ),
            forall|name: Seq<char>| #[trigger]
                self.members().dom().contains(name) ==> name == "headers"@ || name == "payload"@
                    || name == "fcm_options"@,
    {
        broadcast use lemma_member_added;

        reveal_strlit("headers");
        reveal_strlit("payload");
        reveal_strlit("fcm_options");
        assert(shape("headers"@) == (7nat, 'h', 's'));
        assert(shape("payload"@) == (7nat, 'p', 'd'));
        assert(shape("fcm_options"@) == (11nat, 'f', 's'));
    }

    /// Headers that are a JSON object are written under `headers` as they
    /// were given, member for member, and the configuration can be encoded.
    /// Headers that are anything else, an array or a scalar, leave the
    /// configuration without an encoding.
    pub proof fn lemma_headers(self, headers: Json)
        requires
            self.headers == Some(headers),
        ensures
            has_member(self.members(), "headers"@, Some(headers)),
            self.encodable() <==> headers is Object,
    {
        self.lemma_members();
    }

    /// Whether the headers that the configuration was given hold no null.
    pub open spec fn given_null_free(self) -> bool {
        null_free_member(self.headers)
    }

    /// The JSON of an APNs configuration holds no null, at any depth, unless
    /// the headers were given with one: the library writes no field as null.
    pub proof fn lemma_no_null(self)
        requires
            self.given_null_free(),
        ensures
            null_free(self.json()),
    {
        broadcast use lemma_null_free_added;

        match self.payload {
            Some(x) => x.lemma_no_null(),
            None => {},
        }
        match self.fcm_options {
            Some(x) => x.lemma_no_null(),
            None => {},
        }
    }
}

impl<'a> View for ApnsConfig<'a> {
    type V = ApnsConfigView;

    closed spec fn view(&self) -> ApnsConfigView {
        ApnsConfigView {
            headers: value_view(self.headers),
            payload: PayloadView::of(self.payload),
            fcm_options: ApnsFcmOptionsView::of(self.fcm_options),
        }
    }
}

impl<'a> ApnsConfig<'a> {
    /// Encodes the configuration as a JSON object. The encoding fails where
    /// the headers are set and are no JSON object, and only there.
    pub fn to_value(&self) -> (r: Result<Value, DataEncodingError>)
        ensures
            r is Ok <==> self@.encodable(),
            r matches Ok(v) ==> json_of(v) == self@.json(),
    {
        let mut members = serde_json::Map::new();
        put_mapping(&mut members, "headers", &self.headers)?;
        let payload = match &self.payload {
            Some(p) => Some(p.to_value()),
            None => None,
        };
        put_member(&mut members, "payload", payload);
        let fcm_options = match &self.fcm_options {
            Some(o) => Some(o.to_value()),
            None => None,
        };
        put_member(&mut members, "fcm_options", fcm_options);
        Ok(object_value(members))
    }
}

/// A builder for an [`ApnsConfig`].
pub struct ApnsConfigBuilder<'a> {
    headers: Option<Value>,
    payload: Option<Payload<'a>>,
    fcm_options: Option<ApnsFcmOptions<'a>>,
}

impl<'a> View for ApnsConfigBuilder<'a> {
    type V = ApnsConfigView;

    closed spec fn view(&self) -> ApnsConfigView {
        ApnsConfigView {
            headers: value_view(self.headers),
            payload: PayloadView::of(self.payload),
            fcm_options: ApnsFcmOptionsView::of(self.fcm_options),
        }
    }
}

impl<'a> ApnsConfigBuilder<'a> {
    /// A builder with no field set.
    pub fn new() -> (b: ApnsConfigBuilder<'a>)
        ensures
            b@ == ApnsConfigView::unset(),
    {
        ApnsConfigBuilder { headers: None, payload: None, fcm_options: None }
    }

    /// Sets the headers of the request to the Apple service, such as priority
    /// and expiration. Any value is accepted here; one that is no JSON object
    /// is refused when the configuration is encoded.
    pub fn headers(&mut self, headers: Value) -> (r: &mut Self)
        ensures
            r@ == (ApnsConfigView { headers: Some(json_of(headers)), ..old(self)@ }),
            *final(self) == *final(r),
    {
        self.headers = Some(headers);
        self
    }

    /// Sets the alert to show.
    pub fn payload(&mut self, payload: Payload<'a>) -> (r: &mut Self)
        ensures
            r@ == (ApnsConfigView { payload: Some(payload@), ..old(self)@ }),
            *final(self) == *final(r),
    {
        self.payload = Some(payload);
        self
    }

    /// Sets the options of the delivery service.
    pub fn fcm_options(&mut self, fcm_options: ApnsFcmOptions<'a>) -> (r: &mut Self)
        ensures
            r@ == (ApnsConfigView { fcm_options: Some(fcm_options@), ..old(self)@ }),
            *final(self) == *final(r),
    {
        self.fcm_options = Some(fcm_options);
        self
    }

    /// Completes the build: the APNs configuration holds what the builder held,
    /// field by field.
    pub fn finalize(self) -> (c: ApnsConfig<'a>)
        ensures
            c@ == self@,
    {
        ApnsConfig {
            headers: self.headers,
            payload: self.payload,
            fcm_options: self.fcm_options,
        }
    }
}

} // verus!
