//! Android: the configuration of a message for Android devices and the
//! notification that such a device shows.

use crate::json::{
    flag_json, has_member, has_text_array, is_mapping, json_of, lemma_list_null_free,
    lemma_member_added, lemma_null_free_added, list_json, null_free, null_free_member, number_json,
    object_value, put_flag, put_mapping, put_member, put_number, put_text, shape, text_json,
    text_value, text_view, value_view, with_member, DataEncodingError, Fields, Json,
};
use crate::message::NotificationPriority;
use crate::text::{copy_texts, is_lower_case, list_view, lower_case, put_list, texts, Text};
use serde_json::{Number, Value};
use vstd::prelude::*;

verus! {

/// The delivery priority of a message to an Android device.
#[derive(Clone, Copy, Debug, PartialEq, Eq)]
pub enum AndroidMessagePriority {
    Normal,
    High,
}

impl AndroidMessagePriority {
    /// The name of the variant, as the type declares it.
    pub open spec fn variant_name(self) -> Seq<char> {
        match self {
            AndroidMessagePriority::Normal => "Normal"@,
            AndroidMessagePriority::High => "High"@,
        }
    }

    /// The string that stands for the variant in JSON: the name of the
    /// variant in lower case.
    pub open spec fn wire_name(self) -> Seq<char> {
        match self {
            AndroidMessagePriority::Normal => "normal"@,
            AndroidMessagePriority::High => "high"@,
        }
    }

    /// The content of an optional priority: the JSON string of its name.
    pub open spec fn member(value: Option<AndroidMessagePriority>) -> Option<Json> {
        match value {
            Some(p) => Some(Json::String(p.wire_name())),
            None => None,
        }
    }

    /// The string that stands for the variant in JSON.
    pub fn as_str(&self) -> (s: &'static str)
        ensures
            s@ == self.wire_name(),
    {
        match self {
            AndroidMessagePriority::Normal => "normal",
            AndroidMessagePriority::High => "high",
        }
    }

    /// Encodes the priority as a JSON string.
    pub fn to_value(&self) -> (v: Value)
        ensures
            json_of(v) == Json::String(self.wire_name()),
    {
        text_value(self.as_str())
    }

    /// The name under which a priority is written is the name of its variant in
    /// lower case, it is made of the letters `a` to `z` alone, and no two
    /// priorities share it.
    pub proof fn lemma_wire_names(a: AndroidMessagePriority, b: AndroidMessagePriority)
        ensures
            a.wire_name() == lower_case(a.variant_name()),
            is_lower_case(a.wire_name()),
            a.wire_name() == b.wire_name() ==> a == b,
    {
        reveal_strlit("Normal");
        reveal_strlit("normal");
        reveal_strlit("High");
        reveal_strlit("high");
        assert(lower_case("Normal"@) =~= "normal"@);
        assert(lower_case("High"@) =~= "high"@);
    }
}

/// Who may see a notification on a locked screen.
#[derive(Clone, Copy, Debug, PartialEq, Eq)]
pub enum Visibility {
    Unspecified,
    Public,
    Private,
    Secret,
}

impl Visibility {
    /// The name of the variant, as the type declares it.
    pub open spec fn variant_name(self) -> Seq<char> {
        match self {
            Visibility::Unspecified => "Unspecified"@,
            Visibility::Public => "Public"@,
            Visibility::Private => "Private"@,
            Visibility::Secret => "Secret"@,
        }
    }

    /// The string that stands for the variant in JSON: the name of the
    /// variant in lower case.
    pub open spec fn wire_name(self) -> Seq<char> {
        match self {
            Visibility::Unspecified => "unspecified"@,
            Visibility::Public => "public"@,
            Visibility::Private => "private"@,
            Visibility::Secret => "secret"@,
        }
    }

    /// The content of an optional visibility: the JSON string of its name.
    pub open spec fn member(value: Option<Visibility>) -> Option<Json> {
        match value {
            Some(v) => Some(Json::String(v.wire_name())),
            None => None,
        }
    }

    /// The string that stands for the variant in JSON.
    pub fn as_str(&self) -> (s: &'static str)
        ensures
            s@ == self.wire_name(),
    {
        match self {
            Visibility::Unspecified => "unspecified",
            Visibility::Public => "public",
            Visibility::Private => "private",
            Visibility::Secret => "secret",
        }
    }

    /// Encodes the visibility as a JSON string.
    pub fn to_value(&self) -> (v: Value)
        ensures
            json_of(v) == Json::String(self.wire_name()),
    {
        text_value(self.as_str())
    }

    /// The name under which a visibility is written is the name of its variant
    /// in lower case, it is made of the letters `a` to `z` alone, and no two
    /// visibilities share it.
    pub proof fn lemma_wire_names(a: Visibility, b: Visibility)
        ensures
            a.wire_name() == lower_case(a.variant_name()),
            is_lower_case(a.wire_name()),
            a.wire_name() == b.wire_name() ==> a == b,
    {
        reveal_strlit("Unspecified");
        reveal_strlit("unspecified");
        reveal_strlit("Public");
        reveal_strlit("public");
        reveal_strlit("Private");
        reveal_strlit("private");
        reveal_strlit("Secret");
        reveal_strlit("secret");
        assert(lower_case("Unspecified"@) =~= "unspecified"@);
        assert(lower_case("Public"@) =~= "public"@);
        assert(lower_case("Private"@) =~= "private"@);
        assert(lower_case("Secret"@) =~= "secret"@);
        assert(shape("unspecified"@) == (11nat, 'u', 'd'));
        assert(shape("public"@) == (6nat, 'p', 'c'));
        assert(shape("private"@) == (7nat, 'p', 'e'));
        assert(shape("secret"@) == (6nat, 's', 't'));
    }
}

/// Options of the delivery service for an Android message.
#[derive(Debug, PartialEq)]
pub struct AndroidFcmOptions<'a> {
    /// The label under which the message is counted in delivery analytics.
    pub analytics_label: Option<&'a str>,
}

/// What the Android options hold.
pub struct AndroidFcmOptionsView {
    pub analytics_label: Option<Seq<char>>,
}

impl AndroidFcmOptionsView {
    /// The view of optional options.
    pub open spec fn of(value: Option<AndroidFcmOptions>) -> Option<AndroidFcmOptionsView> {
        match value {
            Some(o) => Some(o@),
            None => None,
        }
    }

    /// The content of optional options: their JSON object.
    pub open spec fn member(value: Option<AndroidFcmOptionsView>) -> Option<Json> {
        match value {
            Some(o) => Some(o.json()),
            None => None,
        }
    }

    /// The members of the options' JSON object.
    pub open spec fn members(self) -> Fields {
        with_member(Fields::empty(), "analytics_label"@, text_json(self.analytics_label))
    }

    /// The JSON encoding of the options.
    pub open spec fn json(self) -> Json {
        Json::Object(self.members())
    }

    /// The JSON object of the options has the label as its one member where
    /// the label is set, and no member where it is not.
    pub proof fn lemma_members(self)
        ensures
            has_member(self.members(), "analytics_label"@, text_json(self.analytics_label)),
            forall|name: Seq<char>| #[trigger]
                self.members().dom().contains(name) ==> name == "analytics_label"@,
    {
        broadcast use lemma_member_added;
    }

    /// The JSON of the options holds no null, at any depth: the library writes
    /// no field as null.
    pub proof fn lemma_no_null(self)
        ensures
            null_free(self.json()),
    {
        broadcast use lemma_null_free_added;
    }
}

impl<'a> View for AndroidFcmOptions<'a> {
    type V = AndroidFcmOptionsView;

    open spec fn view(&self) -> AndroidFcmOptionsView {
        AndroidFcmOptionsView { analytics_label: text_view(self.analytics_label) }
    }
}

impl<'a> AndroidFcmOptions<'a> {
    /// Encodes the options as a JSON object.
    pub fn to_value(&self) -> (v: Value)
        ensures
            json_of(v) == self@.json(),
    {
        let mut members = serde_json::Map::new();
        put_text(&mut members, "analytics_label", self.analytics_label);
        object_value(members)
    }
}

/// A color by its channels. Each channel is a JSON number, meant to lie
/// between 0 and 1; the library passes it on as it is.
#[derive(Debug, PartialEq)]
pub struct Color {
    red: Option<Number>,
    green: Option<Number>,
    blue: Option<Number>,
    alpha: Option<Number>,
}

/// What a color holds.
pub struct ColorView {
    pub red: Option<Number>,
    pub green: Option<Number>,
    pub blue: Option<Number>,
    pub alpha: Option<Number>,
}

impl ColorView {
    /// The color with no channel set.
    pub open spec fn unset() -> ColorView {
        ColorView { red: None, green: None, blue: None, alpha: None }
    }

    /// The view of an optional color.
    pub open spec fn of(value: Option<Color>) -> Option<ColorView> {
        match value {
            Some(c) => Some(c@),
            None => None,
        }
    }

    /// The content of an optional color: its JSON object.
    pub open spec fn member(value: Option<ColorView>) -> Option<Json> {
        match value {
            Some(c) => Some(c.json()),
            None => None,
        }
    }

    /// The members of the color's JSON object.
    pub open spec fn members(self) -> Fields {
        let m = Fields::empty();
        let m = with_member(m, "red"@, number_json(self.red));
        let m = with_member(m, "green"@, number_json(self.green));
        let m = with_member(m, "blue"@, number_json(self.blue));
        let m = with_member(m, "alpha"@, number_json(self.alpha));
        m
    }

    /// The JSON encoding of the color.
    pub open spec fn json(self) -> Json {
        Json::Object(self.members())
    }

    /// The JSON object of a color has one member for each channel that is
    /// set, under the channel's name and with the channel's number, and no
    /// other member.
    pub proof fn lemma_members(self)
        ensures
            has_member(self.members(), "red"@, number_json(self.red)),
            has_member(self.members(), "green"@, number_json(self.green)),
            has_member(self.members(), "blue"@, number_json(self.blue)),
            has_member(self.members(), "alpha"@, number_json(self.alpha)),
            forall|name: Seq<char>| #[trigger]
                self.members().dom().contains(name) ==> name == "red"@ || name == "green"@ || name
                    == "blue"@ || name == "alpha"@,
    {
        broadcast use lemma_member_added;

        reveal_strlit("red");
        reveal_strlit("green");
        reveal_strlit("blue");
        reveal_strlit("alpha");
        assert(shape("red"@) == (3nat, 'r', 'd'));
        assert(shape("green"@) == (5nat, 'g', 'n'));
        assert(shape("blue"@) == (4nat, 'b', 'e'));
        assert(shape("alpha"@) == (5nat, 'a', 'a'));
    }

    /// The JSON of a color holds no null, at any depth: the library writes no
    /// field as null.
    pub proof fn lemma_no_null(self)
        ensures
            null_free(self.json()),
    {
        broadcast use lemma_null_free_added;
    }
}

impl View for Color {
    type V = ColorView;

    closed spec fn view(&self) -> ColorView {
        ColorView { red: self.red, green: self.green, blue: self.blue, alpha: self.alpha }
    }
}

impl Color {
    /// Encodes the color as a JSON object.
    pub fn to_value(&self) -> (v: Value)
        ensures
            json_of(v) == self@.json(),
    {
        let mut members = serde_json::Map::new();
        put_number(&mut members, "red", &self.red);
        put_number(&mut members, "green", &self.green);
        put_number(&mut members, "blue", &self.blue);
        put_number(&mut members, "alpha", &self.alpha);
        object_value(members)
    }
}

/// A builder for a [`Color`].
pub struct ColorBuilder {
    red: Option<Number>,
    green: Option<Number>,
    blue: Option<Number>,
    alpha: Option<Number>,
}

impl View for ColorBuilder {
    type V = ColorView;

    closed spec fn view(&self) -> ColorView {
        ColorView { red: self.red, green: self.green, blue: self.blue, alpha: self.alpha }
    }
}

impl ColorBuilder {
    /// A builder with no channel set.
    pub fn new() -> (b: ColorBuilder)
        ensures
            b@ == ColorView::unset(),
    {
        ColorBuilder { red: None, green: None, blue: None, alpha: None }
    }

    /// Sets the red channel.
    pub fn red(&mut self, red: Number) -> (r: &mut Self)
        ensures
            r@ == (ColorView { red: Some(red), ..old(self)@ }),
            *final(self) == *final(r),
    {
        self.red = Some(red);
        self
    }

    /// Sets the green channel.
    pub fn green(&mut self, green: Number) -> (r: &mut Self)
        ensures
            r@ == (ColorView { green: Some(green), ..old(self)@ }),
            *final(self) == *final(r),
    {
        self.green = Some(green);
        self
    }

    /// Sets the blue channel.
    pub fn blue(&mut self, blue: Number) -> (r: &mut Self)
        ensures
            r@ == (ColorView { blue: Some(blue), ..old(self)@ }),
            *final(self) == *final(r),
    {
        self.blue = Some(blue);
        self
    }

    /// Sets the alpha channel.
    pub fn alpha(&mut self, alpha: Number) -> (r: &mut Self)
        ensures
            r@ == (ColorView { alpha: Some(alpha), ..old(self)@ }),
            *final(self) == *final(r),
    {
        self.alpha = Some(alpha);
        self
    }

    /// Completes the build: the color holds what the builder held, channel by
    /// channel.
    pub fn finalize(self) -> (c: Color)
        ensures
            c@ == self@,
    {
        Color { red: self.red, green: self.green, blue: self.blue, alpha: self.alpha }
    }
}

/// How the device's light blinks: its color, and how long it is on and off.
/// The two durations are texts such as `"3.5s"`, passed on as they are. The
/// delivery service wants all three fields or none; that is left to the
/// caller.
#[derive(Debug, PartialEq)]
pub struct LightSettings<'a> {
    color: Option<Color>,
    light_on_duration: Option<&'a str>,
    light_off_duration: Option<&'a str>,
}

/// What light settings hold.
pub struct LightSettingsView {
    pub color: Option<ColorView>,
    pub light_on_duration: Option<Seq<char>>,
    pub light_off_duration: Option<Seq<char>>,
}

impl LightSettingsView {
    /// The light settings with no field set.
    pub open spec fn unset() -> LightSettingsView {
        LightSettingsView { color: None, light_on_duration: None, light_off_duration: None }
    }

    /// The view of optional light settings.
    pub open spec fn of(value: Option<LightSettings>) -> Option<LightSettingsView> {
        match value {
            Some(l) => Some(l@),
            None => None,
        }
    }

    /// The content of optional light settings: their JSON object.
    pub open spec fn member(value: Option<LightSettingsView>) -> Option<Json> {
        match value {
            Some(l) => Some(l.json()),
            None => None,
        }
    }

    /// The members of the light settings' JSON object.
    pub open spec fn members(self) -> Fields {
        let m = Fields::empty();
        let m = with_member(m, "color"@, ColorView::member(self.color));
        let m = with_member(m, "light_on_duration"@, text_json(self.light_on_duration));
        let m = with_member(m, "light_off_duration"@, text_json(self.light_off_duration));
        m
    }

    /// The JSON encoding of the light settings.
    pub open spec fn json(self) -> Json {
        Json::Object(self.members())
    }

    /// The JSON object of light settings has one member for each field that
    /// is set, under the field's name and with the field's content, and no
    /// other member.
    pub proof fn lemma_members(self)
        ensures
            has_member(self.members(), "color"@, ColorView::member(self.color)),
            has_member(self.members(), "light_on_duration"@, text_json(self.light_on_duration)),
            has_member(self.members(), "light_off_duration"@, text_json(self.light_off_duration)),
            forall|name: Seq<char>| #[trigger]
                self.members().dom().contains(name) ==> name == "color"@ || name
                    == "light_on_duration"@ || name == "light_off_duration"@,
    {
        broadcast use lemma_member_added;

        reveal_strlit("color");
        reveal_strlit("light_on_duration");
        reveal_strlit("light_off_duration");
        assert(shape("color"@) == (5nat, 'c', 'r'));
        assert(shape("light_on_duration"@) == (17nat, 'l', 'n'));
        assert(shape("light_off_duration"@) == (18nat, 'l', 'n'));
    }

    /// The JSON of light settings holds no null, at any depth: the library
    /// writes no field as null.
    pub proof fn lemma_no_null(self)
        ensures
            null_free(self.json()),
    {
        broadcast use lemma_null_free_added;

        match self.color {
            Some(c) => c.lemma_no_null(),
            None => {},
        }
    }
}

impl<'a> View for LightSettings<'a> {
    type V = LightSettingsView;

    closed spec fn view(&self) -> LightSettingsView {
        LightSettingsView {
            color: ColorView::of(self.color),
            light_on_duration: text_view(self.light_on_duration),
            light_off_duration: text_view(self.light_off_duration),
        }
    }
}

impl<'a> LightSettings<'a> {
    /// Encodes the light settings as a JSON object.
    pub fn to_value(&self) -> (v: Value)
        ensures
            json_of(v) == self@.json(),
    {
        let mut members = serde_json::Map::new();
        let color = match &self.color {
            Some(c) => Some(c.to_value()),
            None => None,
        };
        put_member(&mut members, "color", color);
        put_text(&mut members, "light_on_duration", self.light_on_duration);
        put_text(&mut members, "light_off_duration", self.light_off_duration);
        object_value(members)
    }
}

/// A builder for [`LightSettings`].
pub struct LightSettingsBuilder<'a> {
    color: Option<Color>,
    light_on_duration: Option<&'a str>,
    light_off_duration: Option<&'a str>,
}

impl<'a> View for LightSettingsBuilder<'a> {
    type V = LightSettingsView;

    closed spec fn view(&self) -> LightSettingsView {
        LightSettingsView {
            color: ColorView::of(self.color),
            light_on_duration: text_view(self.light_on_duration),
            light_off_duration: text_view(self.light_off_duration),
        }
    }
}

impl<'a> LightSettingsBuilder<'a> {
    /// A builder with no field set.
    pub fn new() -> (b: LightSettingsBuilder<'a>)
        ensures
            b@ == LightSettingsView::unset(),
    {
        LightSettingsBuilder { color: None, light_on_duration: None, light_off_duration: None }
    }

    /// Sets the color of the light.
    pub fn color(&mut self, color: Color) -> (r: &mut Self)
        ensures
            r@ == (LightSettingsView { color: Some(color@), ..old(self)@ }),
            *final(self) == *final(r),
    {
        self.color = Some(color);
        self
    }

    /// Sets how long the light is on in each blink, a duration such as
    /// `"3.5s"`. The text is passed on as it is.
    pub fn light_on_duration(&mut self, light_on_duration: &'a str) -> (r: &mut Self)
        ensures
            r@ == (LightSettingsView {
                light_on_duration: Some(light_on_duration@),
                ..old(self)@
            }),
            *final(self) == *final(r),
    {
        self.light_on_duration = Some(light_on_duration);
        self
    }

    /// Sets how long the light is off in each blink, a duration such as
    /// `"3.5s"`. The text is passed on as it is.
    pub fn light_off_duration(&mut self, light_off_duration: &'a str) -> (r: &mut Self)
        ensures
            r@ == (LightSettingsView {
                light_off_duration: Some(light_off_duration@),
                ..old(self)@
            }),
            *final(self) == *final(r),
    {
        self.light_off_duration = Some(light_off_duration);
        self
    }

    /// Completes the build: the light settings hold what the builder held,
    /// field by field.
    pub fn finalize(self) -> (l: LightSettings<'a>)
        ensures
            l@ == self@,
    {
        LightSettings {
            color: self.color,
            light_on_duration: self.light_on_duration,
            light_off_duration: self.light_off_duration,
        }
    }
}

/// The notification that an Android device shows. Every field is optional
/// and independent of the others. Localization arguments without their key
/// mean nothing to the delivery service, but are accepted here.
#[derive(Debug, PartialEq)]
pub struct AndroidNotification<'a> {
    badge: Option<&'a str>,
    body: Option<&'a str>,
    body_loc_args: Option<Vec<String>>,
    body_loc_key: Option<&'a str>,
    default_sound: Option<bool>,
    default_vibrate_timings: Option<bool>,
    default_light_settings: Option<bool>,
    channel_id: Option<&'a str>,
    click_action: Option<&'a str>,
    event_time: Option<&'a str>,
    color: Option<&'a str>,
    icon: Option<&'a str>,
    image: Option<&'a str>,
    light_settings: Option<LightSettings<'a>>,
    local_only: Option<bool>,
    notification_priority: Option<NotificationPriority>,
    sound: Option<&'a str>,
    tag: Option<&'a str>,
    ticker: Option<bool>,
    title: Option<&'a str>,
    title_loc_args: Option<Vec<String>>,
    title_loc_key: Option<&'a str>,
    vibrate_timings: Option<Vec<String>>,
    visibility: Option<Visibility>,
}

/// What an Android notification holds.
pub struct AndroidNotificationView {
    pub badge: Option<Seq<char>>,
    pub body: Option<Seq<char>>,
    pub body_loc_args: Option<Seq<Seq<char>>>,
    pub body_loc_key: Option<Seq<char>>,
    pub default_sound: Option<bool>,
    pub default_vibrate_timings: Option<bool>,
    pub default_light_settings: Option<bool>,
    pub channel_id: Option<Seq<char>>,
    pub click_action: Option<Seq<char>>,
    pub event_time: Option<Seq<char>>,
    pub color: Option<Seq<char>>,
    pub icon: Option<Seq<char>>,
    pub image: Option<Seq<char>>,
    pub light_settings: Option<LightSettingsView>,
    pub local_only: Option<bool>,
    pub notification_priority: Option<NotificationPriority>,
    pub sound: Option<Seq<char>>,
    pub tag: Option<Seq<char>>,
    pub ticker: Option<bool>,
    pub title: Option<Seq<char>>,
    pub title_loc_args: Option<Seq<Seq<char>>>,
    pub title_loc_key: Option<Seq<char>>,
    pub vibrate_timings: Option<Seq<Seq<char>>>,
    pub visibility: Option<Visibility>,
}

impl AndroidNotificationView {
    /// The notification with no field set.
    pub open spec fn unset() -> AndroidNotificationView {
        AndroidNotificationView {
            badge: None,
            body: None,
            body_loc_args: None,
            body_loc_key: None,
            default_sound: None,
            default_vibrate_timings: None,
            default_light_settings: None,
            channel_id: None,
            click_action: None,
            event_time: None,
            color: None,
            icon: None,
            image: None,
            light_settings: None,
            local_only: None,
            notification_priority: None,
            sound: None,
            tag: None,
            ticker: None,
            title: None,
            title_loc_args: None,
            title_loc_key: None,
            vibrate_timings: None,
            visibility: None,
        }
    }

    /// The view of an optional notification.
    pub open spec fn of(value: Option<AndroidNotification>) -> Option<AndroidNotificationView> {
        match value {
            Some(n) => Some(n@),
            None => None,
        }
    }

    /// The content of an optional notification: its JSON object.
    pub open spec fn member(value: Option<AndroidNotificationView>) -> Option<Json> {
        match value {
            Some(n) => Some(n.json()),
            None => None,
        }
    }

    /// The members of the notification's JSON object.
    pub open spec fn members(self) -> Fields {
        let m = Fields::empty();
        let m = with_member(m, "badge"@, text_json(self.badge));
        let m = with_member(m, "body"@, text_json(self.body));
        let m = with_member(m, "body_loc_args"@, list_json(self.body_loc_args));
        let m = with_member(m, "body_loc_key"@, text_json(self.body_loc_key));
        let m = with_member(m, "default_sound"@, flag_json(self.default_sound));
        let m = with_member(m, "default_vibrate_timings"@, flag_json(self.default_vibrate_timings));
        let m = with_member(m, "default_light_settings"@, flag_json(self.default_light_settings));
        let m = with_member(m, "channel_id"@, text_json(self.channel_id));
        let m = with_member(m, "click_action"@, text_json(self.click_action));
        let m = with_member(m, "event_time"@, text_json(self.event_time));
        let m = with_member(m, "color"@, text_json(self.color));
        let m = with_member(m, "icon"@, text_json(self.icon));
        let m = with_member(m, "image"@, text_json(self.image));
        let m = with_member(m, "light_settings"@, LightSettingsView::member(self.light_settings));
        let m = with_member(m, "local_only"@, flag_json(self.local_only));
        let m = with_member(
            m,
            "notification_priority"@,
            NotificationPriority::member(self.notification_priority),
        );
        let m = with_member(m, "sound"@, text_json(self.sound));
        let m = with_member(m, "tag"@, text_json(self.tag));
        let m = with_member(m, "ticker"@, flag_json(self.ticker));
        let m = with_member(m, "title"@, text_json(self.title));
        let m = with_member(m, "title_loc_args"@, list_json(self.title_loc_args));
        let m = with_member(m, "title_loc_key"@, text_json(self.title_loc_key));
        let m = with_member(m, "vibrate_timings"@, list_json(self.vibrate_timings));
        let m = with_member(m, "visibility"@, Visibility::member(self.visibility));
        m
    }

    /// The JSON encoding of the notification.
    pub open spec fn json(self) -> Json {
        Json::Object(self.members())
    }

    /// The names that the members of the notification's JSON object can have.
    pub open spec fn is_field_name(name: Seq<char>) -> bool {
        ||| name == "badge"@
        ||| name == "body"@
        ||| name == "body_loc_args"@
        ||| name == "body_loc_key"@
        ||| name == "default_sound"@
        ||| name == "default_vibrate_timings"@
        ||| name == "default_light_settings"@
        ||| name == "channel_id"@
        ||| name == "click_action"@
        ||| name == "event_time"@
        ||| name == "color"@
        ||| name == "icon"@
        ||| name == "image"@
        ||| name == "light_settings"@
        ||| name == "local_only"@
        ||| name == "notification_priority"@
        ||| name == "sound"@
        ||| name == "tag"@
        ||| name == "ticker"@
        ||| name == "title"@
        ||| name == "title_loc_args"@
        ||| name == "title_loc_key"@
        ||| name == "vibrate_timings"@
        ||| name == "visibility"@
    }

    /// The JSON object of an Android notification has one member for each
    /// field that is set, under the field's name and with the field's
    /// content, and no other member: a field that is unset is not there at
    /// all. A list is there as an array of its texts in their order, an empty
    /// list as an empty array.
    pub proof fn lemma_members(self)
        ensures
            has_member(self.members(), "badge"@, text_json(self.badge)),
            has_member(self.members(), "body"@, text_json(self.body)),
            has_member(self.members(), "body_loc_args"@, list_json(self.body_loc_args)),
            has_member(self.members(), "body_loc_key"@, text_json(self.body_loc_key)),
            has_member(self.members(), "default_sound"@, flag_json(self.default_sound)),
            has_member(
                self.members(),
                "default_vibrate_timings"@,
                flag_json(self.default_vibrate_timings),
            ),
            has_member(
                self.members(),
                "default_light_settings"@,
                flag_json(self.default_light_settings),
            ),
            has_member(self.members(), "channel_id"@, text_json(self.channel_id)),
            has_member(self.members(), "click_action"@, text_json(self.click_action)),
            has_member(self.members(), "event_time"@, text_json(self.event_time)),
            has_member(self.members(), "color"@, text_json(self.color)),
            has_member(self.members(), "icon"@, text_json(self.icon)),
            has_member(self.members(), "image"@, text_json(self.image)),
            has_member(
                self.members(),
                "light_settings"@,
                LightSettingsView::member(self.light_settings),
            ),
            has_member(self.members(), "local_only"@, flag_json(self.local_only)),
            has_member(
                self.members(),
                "notification_priority"@,
                NotificationPriority::member(self.notification_priority),
            ),
            has_member(self.members(), "sound"@, text_json(self.sound)),
            has_member(self.members(), "tag"@, text_json(self.tag)),
            has_member(self.members(), "ticker"@, flag_json(self.ticker)),
            has_member(self.members(), "title"@, text_json(self.title)),
            has_member(self.members(), "title_loc_args"@, list_json(self.title_loc_args)),
            has_member(self.members(), "title_loc_key"@, text_json(self.title_loc_key)),
            has_member(self.members(), "vibrate_timings"@, list_json(self.vibrate_timings)),
            has_member(self.members(), "visibility"@, Visibility::member(self.visibility)),
            forall|name: Seq<char>| #[trigger]
                self.members().dom().contains(name) ==> Self::is_field_name(name),
    {
        broadcast use lemma_member_added;

        reveal_strlit("badge");
        reveal_strlit("body");
        reveal_strlit("body_loc_args");
        reveal_strlit("body_loc_key");
        reveal_strlit("default_sound");
        reveal_strlit("default_vibrate_timings");
        reveal_strlit("default_light_settings");
        reveal_strlit("channel_id");
        reveal_strlit("click_action");
        reveal_strlit("event_time");
        reveal_strlit("color");
        reveal_strlit("icon");
        reveal_strlit("image");
        reveal_strlit("light_settings");
        reveal_strlit("local_only");
        reveal_strlit("notification_priority");
        reveal_strlit("sound");
        reveal_strlit("tag");
        reveal_strlit("ticker");
        reveal_strlit("title");
        reveal_strlit("title_loc_args");
        reveal_strlit("title_loc_key");
        reveal_strlit("vibrate_timings");
        reveal_strlit("visibility");
        assert(shape("badge"@) == (5nat, 'b', 'e'));
        assert(shape("body"@) == (4nat, 'b', 'y'));
        assert(shape("body_loc_args"@) == (13nat, 'b', 's'));
        assert(shape("body_loc_key"@) == (12nat, 'b', 'y'));
        assert(shape("default_sound"@) == (13nat, 'd', 'd'));
        assert(shape("default_vibrate_timings"@) == (23nat, 'd', 's'));
        assert(shape("default_light_settings"@) == (22nat, 'd', 's'));
        assert(shape("channel_id"@) == (10nat, 'c', 'd'));
        assert(shape("click_action"@) == (12nat, 'c', 'n'));
        assert(shape("event_time"@) == (10nat, 'e', 'e'));
        assert(shape("color"@) == (5nat, 'c', 'r'));
        assert(shape("icon"@) == (4nat, 'i', 'n'));
        assert(shape("image"@) == (5nat, 'i', 'e'));
        assert(shape("light_settings"@) == (14nat, 'l', 's'));
        assert(shape("local_only"@) == (10nat, 'l', 'y'));
        assert(shape("notification_priority"@) == (21nat, 'n', 'y'));
        assert(shape("sound"@) == (5nat, 's', 'd'));
        assert(shape("tag"@) == (3nat, 't', 'g'));
        assert(shape("ticker"@) == (6nat, 't', 'r'));
        assert(shape("title"@) == (5nat, 't', 'e'));
        assert(shape("title_loc_args"@) == (14nat, 't', 's'));
        assert(shape("title_loc_key"@) == (13nat, 't', 'y'));
        assert(shape("vibrate_timings"@) == (15nat, 'v', 's'));
        assert(shape("visibility"@) == (10nat, 'v', 'y'));
    }

    /// The localization arguments and the vibration pattern are written in
    /// the order they were given in, whatever their number: each list that is
    /// set stands under its name as the array of its texts.
    pub proof fn lemma_lists_keep_order(self)
        ensures
            self.body_loc_args matches Some(l) ==> has_text_array(
                self.members(),
                "body_loc_args"@,
                l,
            ),
            self.title_loc_args matches Some(l) ==> has_text_array(
                self.members(),
                "title_loc_args"@,
                l,
            ),
            self.vibrate_timings matches Some(l) ==> has_text_array(
                self.members(),
                "vibrate_timings"@,
                l,
            ),
    {
        self.lemma_members();
    }

    /// The JSON of an Android notification holds no null, at any depth: the
    /// library writes no field as null.
    pub proof fn lemma_no_null(self)
        ensures
            null_free(self.json()),
    {
        broadcast use lemma_null_free_added, lemma_list_null_free;

        match self.light_settings {
            Some(x) => x.lemma_no_null(),
            None => {},
        }
    }
}

impl<'a> View for AndroidNotification<'a> {
    type V = AndroidNotificationView;

    closed spec fn view(&self) -> AndroidNotificationView {
        AndroidNotificationView {
            badge: text_view(self.badge),
            body: text_view(self.body),
            body_loc_args: list_view(self.body_loc_args),
            body_loc_key: text_view(self.body_loc_key),
            default_sound: self.default_sound,
            default_vibrate_timings: self.default_vibrate_timings,
            default_light_settings: self.default_light_settings,
            channel_id: text_view(self.channel_id),
            click_action: text_view(self.click_action),
            event_time: text_view(self.event_time),
            color: text_view(self.color),
            icon: text_view(self.icon),
            image: text_view(self.image),
            light_settings: LightSettingsView::of(self.light_settings),
            local_only: self.local_only,
            notification_priority: self.notification_priority,
            sound: text_view(self.sound),
            tag: text_view(self.tag),
            ticker: self.ticker,
            title: text_view(self.title),
            title_loc_args: list_view(self.title_loc_args),
            title_loc_key: text_view(self.title_loc_key),
            vibrate_timings: list_view(self.vibrate_timings),
            visibility: self.visibility,
        }
    }
}

impl<'a> AndroidNotification<'a> {
    /// Encodes the notification as a JSON object.
    pub fn to_value(&self) -> (v: Value)
        ensures
            json_of(v) == self@.json(),
    {
        let mut members = serde_json::Map::new();
        put_text(&mut members, "badge", self.badge);
        put_text(&mut members, "body", self.body);
        put_list(&mut members, "body_loc_args", &self.body_loc_args);
        put_text(&mut members, "body_loc_key", self.body_loc_key);
        put_flag(&mut members, "default_sound", self.default_sound);
        put_flag(&mut members, "default_vibrate_timings", self.default_vibrate_timings);
        put_flag(&mut members, "default_light_settings", self.default_light_settings);
        put_text(&mut members, "channel_id", self.channel_id);
        put_text(&mut members, "click_action", self.click_action);
        put_text(&mut members, "event_time", self.event_time);
        put_text(&mut members, "color", self.color);
        put_text(&mut members, "icon", self.icon);
        put_text(&mut members, "image", self.image);
        let light_settings = match &self.light_settings {
            Some(l) => Some(l.to_value()),
            None => None,
        };
        put_member(&mut members, "light_settings", light_settings);
        put_flag(&mut members, "local_only", self.local_only);
        let notification_priority = match &self.notification_priority {
            Some(p) => Some(p.to_value()),
            None => None,
        };
        put_member(&mut members, "notification_priority", notification_priority);
        put_text(&mut members, "sound", self.sound);
        put_text(&mut members, "tag", self.tag);
        put_flag(&mut members, "ticker", self.ticker);
        put_text(&mut members, "title", self.title);
        put_list(&mut members, "title_loc_args", &self.title_loc_args);
        put_text(&mut members, "title_loc_key", self.title_loc_key);
        put_list(&mut members, "vibrate_timings", &self.vibrate_timings);
        let visibility = match &self.visibility {
            Some(v) => Some(v.to_value()),
            None => None,
        };
        put_member(&mut members, "visibility", visibility);
        object_value(members)
    }
}

/// A builder for an [`AndroidNotification`].
pub struct AndroidNotificationBuilder<'a> {
    title: Option<&'a str>,
    body: Option<&'a str>,
    icon: Option<&'a str>,
    sound: Option<&'a str>,
    badge: Option<&'a str>,
    tag: Option<&'a str>,
    color: Option<&'a str>,
    click_action: Option<&'a str>,
    body_loc_key: Option<&'a str>,
    body_loc_args: Option<Vec<String>>,
    title_loc_key: Option<&'a str>,
    title_loc_args: Option<Vec<String>>,
    channel_id: Option<&'a str>,
    event_time: Option<&'a str>,
    image: Option<&'a str>,
    ticker: Option<bool>,
    local_only: Option<bool>,
    default_sound: Option<bool>,
    default_vibrate_timings: Option<bool>,
    default_light_settings: Option<bool>,
    vibrate_timings: Option<Vec<String>>,
    light_settings: Option<LightSettings<'a>>,
    notification_priority: Option<NotificationPriority>,
    visibility: Option<Visibility>,
}

impl<'a> View for AndroidNotificationBuilder<'a> {
    type V = AndroidNotificationView;

    closed spec fn view(&self) -> AndroidNotificationView {
        AndroidNotificationView {
            badge: text_view(self.badge),
            body: text_view(self.body),
            body_loc_args: list_view(self.body_loc_args),
            body_loc_key: text_view(self.body_loc_key),
            default_sound: self.default_sound,
            default_vibrate_timings: self.default_vibrate_timings,
            default_light_settings: self.default_light_settings,
            channel_id: text_view(self.channel_id),
            click_action: text_view(self.click_action),
            event_time: text_view(self.event_time),
            color: text_view(self.color),
            icon: text_view(self.icon),
            image: text_view(self.image),
            light_settings: LightSettingsView::of(self.light_settings),
            local_only: self.local_only,
            notification_priority: self.notification_priority,
            sound: text_view(self.sound),
            tag: text_view(self.tag),
            ticker: self.ticker,
            title: text_view(self.title),
            title_loc_args: list_view(self.title_loc_args),
            title_loc_key: text_view(self.title_loc_key),
            vibrate_timings: list_view(self.vibrate_timings),
            visibility: self.visibility,
        }
    }
}

impl<'a> AndroidNotificationBuilder<'a> {
    /// A builder with no field set.
    pub fn new() -> (b: AndroidNotificationBuilder<'a>)
        ensures
            b@ == AndroidNotificationView::unset(),
    {
        AndroidNotificationBuilder {
            title: None,
            body: None,
            icon: None,
            sound: None,
            badge: None,
            tag: None,
            color: None,
            click_action: None,
            body_loc_key: None,
            body_loc_args: None,
            title_loc_key: None,
            title_loc_args: None,
            channel_id: None,
            event_time: None,
            image: None,
            ticker: None,
            local_only: None,
            default_sound: None,
            default_vibrate_timings: None,
            default_light_settings: None,
            vibrate_timings: None,
            light_settings: None,
            notification_priority: None,
            visibility: None,
        }
    }

    /// Sets the title of the notification.
    pub fn title(&mut self, title: &'a str) -> (r: &mut Self)
        ensures
            r@ == (AndroidNotificationView { title: Some(title@), ..old(self)@ }),
            *final(self) == *final(r),
    {
        self.title = Some(title);
        self
    }

    /// Sets the body text of the notification.
    pub fn body(&mut self, body: &'a str) -> (r: &mut Self)
        ensures
            r@ == (AndroidNotificationView { body: Some(body@), ..old(self)@ }),
            *final(self) == *final(r),
    {
        self.body = Some(body);
        self
    }

    /// Sets the icon of the notification.
    pub fn icon(&mut self, icon: &'a str) -> (r: &mut Self)
        ensures
            r@ == (AndroidNotificationView { icon: Some(icon@), ..old(self)@ }),
            *final(self) == *final(r),
    {
        self.icon = Some(icon);
        self
    }

    /// Sets the sound to play when the notification arrives.
    pub fn sound(&mut self, sound: &'a str) -> (r: &mut Self)
        ensures
            r@ == (AndroidNotificationView { sound: Some(sound@), ..old(self)@ }),
            *final(self) == *final(r),
    {
        self.sound = Some(sound);
        self
    }

    /// Sets the badge of the notification.
    pub fn badge(&mut self, badge: &'a str) -> (r: &mut Self)
        ensures
            r@ == (AndroidNotificationView { badge: Some(badge@), ..old(self)@ }),
            *final(self) == *final(r),
    {
        self.badge = Some(badge);
        self
    }

    /// Sets the tag. A notification replaces an earlier one with the same tag.
    pub fn tag(&mut self, tag: &'a str) -> (r: &mut Self)
        ensures
            r@ == (AndroidNotificationView { tag: Some(tag@), ..old(self)@ }),
            *final(self) == *final(r),
    {
        self.tag = Some(tag);
        self
    }

    /// Sets the color of the icon, in `#rrggbb` form.
    pub fn color(&mut self, color: &'a str) -> (r: &mut Self)
        ensures
            r@ == (AndroidNotificationView { color: Some(color@), ..old(self)@ }),
            *final(self) == *final(r),
    {
        self.color = Some(color);
        self
    }

    /// Sets the action that a click on the notification starts.
    pub fn click_action(&mut self, click_action: &'a str) -> (r: &mut Self)
        ensures
            r@ == (AndroidNotificationView { click_action: Some(click_action@), ..old(self)@ }),
            *final(self) == *final(r),
    {
        self.click_action = Some(click_action);
        self
    }

    /// Sets the key of the body text among the app's string resources.
    pub fn body_loc_key(&mut self, body_loc_key: &'a str) -> (r: &mut Self)
        ensures
            r@ == (AndroidNotificationView { body_loc_key: Some(body_loc_key@), ..old(self)@ }),
            *final(self) == *final(r),
    {
        self.body_loc_key = Some(body_loc_key);
        self
    }

    /// Sets the values that fill the format placeholders of the localized body,
    /// by position. Their order is kept; an empty slice is kept as an empty
    /// list.
    pub fn body_loc_args<S: Text>(&mut self, body_loc_args: &[S]) -> (r: &mut Self)
        ensures
            r@ == (AndroidNotificationView {
                body_loc_args: Some(texts(body_loc_args@)),
                ..old(self)@
            }),
            *final(self) == *final(r),
    {
        self.body_loc_args = Some(copy_texts(body_loc_args));
        self
    }

    /// Sets the key of the title among the app's string resources.
    pub fn title_loc_key(&mut self, title_loc_key: &'a str) -> (r: &mut Self)
        ensures
            r@ == (AndroidNotificationView { title_loc_key: Some(title_loc_key@), ..old(self)@ }),
            *final(self) == *final(r),
    {
        self.title_loc_key = Some(title_loc_key);
        self
    }

    /// Sets the values that fill the format placeholders of the localized
    /// title, by position. Their order is kept; an empty slice is kept as an
    /// empty list.
    pub fn title_loc_args<S: Text>(&mut self, title_loc_args: &[S]) -> (r: &mut Self)
        ensures
            r@ == (AndroidNotificationView {
                title_loc_args: Some(texts(title_loc_args@)),
                ..old(self)@
            }),
            *final(self) == *final(r),
    {
        self.title_loc_args = Some(copy_texts(title_loc_args));
        self
    }

    /// Sets the notification channel.
    pub fn channel_id(&mut self, channel_id: &'a str) -> (r: &mut Self)
        ensures
            r@ == (AndroidNotificationView { channel_id: Some(channel_id@), ..old(self)@ }),
            *final(self) == *final(r),
    {
        self.channel_id = Some(channel_id);
        self
    }

    /// Sets the time of the event that the notification is about. The text is
    /// passed on as it is.
    pub fn event_time(&mut self, event_time: &'a str) -> (r: &mut Self)
        ensures
            r@ == (AndroidNotificationView { event_time: Some(event_time@), ..old(self)@ }),
            *final(self) == *final(r),
    {
        self.event_time = Some(event_time);
        self
    }

    /// Sets the address of an image to show in the notification.
    pub fn image(&mut self, image: &'a str) -> (r: &mut Self)
        ensures
            r@ == (AndroidNotificationView { image: Some(image@), ..old(self)@ }),
            *final(self) == *final(r),
    {
        self.image = Some(image);
        self
    }

    /// Sets the ticker flag.
    pub fn ticker(&mut self, ticker: bool) -> (r: &mut Self)
        ensures
            r@ == (AndroidNotificationView { ticker: Some(ticker), ..old(self)@ }),
            *final(self) == *final(r),
    {
        self.ticker = Some(ticker);
        self
    }

    /// Says whether the notification stays on this device.
    pub fn local_only(&mut self, local_only: bool) -> (r: &mut Self)
        ensures
            r@ == (AndroidNotificationView { local_only: Some(local_only), ..old(self)@ }),
            *final(self) == *final(r),
    {
        self.local_only = Some(local_only);
        self
    }

    /// Says whether the device's default sound is played.
    pub fn default_sound(&mut self, default_sound: bool) -> (r: &mut Self)
        ensures
            r@ == (AndroidNotificationView { default_sound: Some(default_sound), ..old(self)@ }),
            *final(self) == *final(r),
    {
        self.default_sound = Some(default_sound);
        self
    }

    /// Says whether the device's default vibration pattern is used.
    pub fn default_vibrate_timings(&mut self, default_vibrate_timings: bool) -> (r: &mut Self)
        ensures
            r@ == (AndroidNotificationView {
                default_vibrate_timings: Some(default_vibrate_timings),
                ..old(self)@
            }),
            *final(self) == *final(r),
    {
        self.default_vibrate_timings = Some(default_vibrate_timings);
        self
    }

    /// Says whether the device's default light settings are used.
    pub fn default_light_settings(&mut self, default_light_settings: bool) -> (r: &mut Self)
        ensures
            r@ == (AndroidNotificationView {
                default_light_settings: Some(default_light_settings),
                ..old(self)@
            }),
            *final(self) == *final(r),
    {
        self.default_light_settings = Some(default_light_settings);
        self
    }

    /// Sets the vibration pattern, a list of durations. Their order is kept and
    /// each text is passed on as it is.
    pub fn vibrate_timings<S: Text>(&mut self, vibrate_timings: &[S]) -> (r: &mut Self)
        ensures
            r@ == (AndroidNotificationView {
                vibrate_timings: Some(texts(vibrate_timings@)),
                ..old(self)@
            }),
            *final(self) == *final(r),
    {
        self.vibrate_timings = Some(copy_texts(vibrate_timings));
        self
    }

    /// Sets how the device's light blinks for the notification.
    pub fn light_settings(&mut self, light_settings: LightSettings<'a>) -> (r: &mut Self)
        ensures
            r@ == (AndroidNotificationView { light_settings: Some(light_settings@), ..old(self)@ }),
            *final(self) == *final(r),
    {
        self.light_settings = Some(light_settings);
        self
    }

    /// Sets the priority of the notification on the device.
    pub fn notification_priority(
        &mut self,
        notification_priority: NotificationPriority,
    ) -> (r: &mut Self)
        ensures
            r@ == (AndroidNotificationView {
                notification_priority: Some(notification_priority),
                ..old(self)@
            }),
            *final(self) == *final(r),
    {
        self.notification_priority = Some(notification_priority);
        self
    }

    /// Sets who may see the notification on a locked screen.
    pub fn visibility(&mut self, visibility: Visibility) -> (r: &mut Self)
        ensures
            r@ == (AndroidNotificationView { visibility: Some(visibility), ..old(self)@ }),
            *final(self) == *final(r),
    {
        self.visibility = Some(visibility);
        self
    }

    /// Completes the build: the notification holds what the builder held,
    /// field by field.
    pub fn finalize(self) -> (n: AndroidNotification<'a>)
        ensures
            n@ == self@,
    {
        AndroidNotification {
            badge: self.badge,
            body: self.body,
            body_loc_args: self.body_loc_args,
            body_loc_key: self.body_loc_key,
            default_sound: self.default_sound,
            default_vibrate_timings: self.default_vibrate_timings,
            default_light_settings: self.default_light_settings,
            channel_id: self.channel_id,
            click_action: self.click_action,
            event_time: self.event_time,
            color: self.color,
            icon: self.icon,
            image: self.image,
            light_settings: self.light_settings,
            local_only: self.local_only,
            notification_priority: self.notification_priority,
            sound: self.sound,
            tag: self.tag,
            ticker: self.ticker,
            title: self.title,
            title_loc_args: self.title_loc_args,
            title_loc_key: self.title_loc_key,
            vibrate_timings: self.vibrate_timings,
            visibility: self.visibility,
        }
    }
}

/// The configuration of a message for Android devices.
#[derive(Debug, PartialEq)]
pub struct AndroidConfig<'a> {
    collapse_key: Option<&'a str>,
    data: Option<Value>,
    direct_boot_ok: Option<bool>,
    fcm_options: Option<AndroidFcmOptions<'a>>,
    ttl: Option<&'a str>,
    notification: Option<AndroidNotification<'a>>,
    priority: Option<AndroidMessagePriority>,
    restricted_package_name: Option<&'a str>,
}

/// What an Android configuration holds.
pub struct AndroidConfigView {
    pub collapse_key: Option<Seq<char>>,
    pub data: Option<Json>,
    pub direct_boot_ok: Option<bool>,
    pub fcm_options: Option<AndroidFcmOptionsView>,
    pub ttl: Option<Seq<char>>,
    pub notification: Option<AndroidNotificationView>,
    pub priority: Option<AndroidMessagePriority>,
    pub restricted_package_name: Option<Seq<char>>,
}

impl AndroidConfigView {
    /// The configuration with no field set.
    pub open spec fn unset() -> AndroidConfigView {
        AndroidConfigView {
            collapse_key: None,
            data: None,
            direct_boot_ok: None,
            fcm_options: None,
            ttl: None,
            notification: None,
            priority: None,
            restricted_package_name: None,
        }
    }

    /// The view of an optional configuration.
    pub open spec fn of(value: Option<AndroidConfig>) -> Option<AndroidConfigView> {
        match value {
            Some(c) => Some(c@),
            None => None,
        }
    }

    /// The content of an optional configuration: its JSON object.
    pub open spec fn member(value: Option<AndroidConfigView>) -> Option<Json> {
        match value {
            Some(c) => Some(c.json()),
            None => None,
        }
    }

    /// Whether the configuration can be encoded: its data, where set, is a
    /// JSON object.
    pub open spec fn encodable(self) -> bool {
        is_mapping(self.data)
    }

    /// The members of the configuration's JSON object.
    pub open spec fn members(self) -> Fields {
        let m = Fields::empty();
        let m = with_member(m, "collapse_key"@, text_json(self.collapse_key));
        let m = with_member(m, "data"@, self.data);
        let m = with_member(m, "direct_boot_ok"@, flag_json(self.direct_boot_ok));
        let m = with_member(m, "fcm_options"@, AndroidFcmOptionsView::member(self.fcm_options));
        let m = with_member(m, "ttl"@, text_json(self.ttl));
        let m = with_member(m, "notification"@, AndroidNotificationView::member(self.notification));
        let m = with_member(m, "priority"@, AndroidMessagePriority::member(self.priority));
        let m = with_member(m, "restricted_package_name"@, text_json(self.restricted_package_name));
        m
    }

    /// The JSON encoding of the configuration.
    pub open spec fn json(self) -> Json {
        Json::Object(self.members())
    }

    /// The names that the members of the configuration's JSON object can
    /// have.
    pub open spec fn is_field_name(name: Seq<char>) -> bool {
        ||| name == "collapse_key"@
        ||| name == "data"@
        ||| name == "direct_boot_ok"@
        ||| name == "fcm_options"@
        ||| name == "ttl"@
        ||| name == "notification"@
        ||| name == "priority"@
        ||| name == "restricted_package_name"@
    }

    /// The JSON object of an Android configuration has one member for each
    /// field that is set, under the field's name and with the field's
    /// content, and no other member. The data is there as it was given.
    pub proof fn lemma_members(self)
        ensures
            has_member(self.members(), "collapse_key"@, text_json(self.collapse_key)),
            has_member(self.members(), "data"@, self.data),
            has_member(self.members(), "direct_boot_ok"@, flag_json(self.direct_boot_ok)),
            has_member(
                self.members(),
                "fcm_options"@,
                AndroidFcmOptionsView::member(self.fcm_options),
            ),
            has_member(self.members(), "ttl"@, text_json(self.ttl)),
            has_member(
                self.members(),
                "notification"@,
                AndroidNotificationView::member(self.notification),
            ),
            has_member(self.members(), "priority"@, AndroidMessagePriority::member(self.priority)),
            has_member(
                self.members(),
                "restricted_package_name"@,
                text_json(self.restricted_package_name),
            ),
            forall|name: Seq<char>| #[trigger]
                self.members().dom().contains(name) ==> Self::is_field_name(name),
    {
        broadcast use lemma_member_added;

        reveal_strlit("collapse_key");
        reveal_strlit("data");
        reveal_strlit("direct_boot_ok");
        reveal_strlit("fcm_options");
        reveal_strlit("ttl");
        reveal_strlit("notification");
        reveal_strlit("priority");
        reveal_strlit("restricted_package_name");
        assert(shape("collapse_key"@) == (12nat, 'c', 'y'));
        assert(shape("data"@) == (4nat, 'd', 'a'));
        assert(shape("direct_boot_ok"@) == (14nat, 'd', 'k'));
        assert(shape("fcm_options"@) == (11nat, 'f', 's'));
        assert(shape("ttl"@) == (3nat, 't', 'l'));
        assert(shape("notification"@) == (12nat, 'n', 'n'));
        assert(shape("priority"@) == (8nat, 'p', 'y'));
        assert(shape("restricted_package_name"@) == (23nat, 'r', 'e'));
    }

    /// Free-form data that is a JSON object is written under `data` as it was
    /// given, member for member, and the configuration can be encoded. Data
    /// that is anything else, an array or a scalar, leaves the configuration
    /// without an encoding.
    pub proof fn lemma_data(self, data: Json)
        requires
            self.data == Some(data),
        ensures
            has_member(self.members(), "data"@, Some(data)),
            self.encodable() <==> data is Object,
    {
        self.lemma_members();
    }

    /// Whether the data that the configuration was given holds no null.
    pub open spec fn given_null_free(self) -> bool {
        null_free_member(self.data)
    }

    /// The JSON of an Android configuration holds no null, at any depth,
    /// unless the data was given with one: the library writes no field as
    /// null.
    pub proof fn lemma_no_null(self)
        requires
            self.given_null_free(),
        ensures
            null_free(self.json()),
    {
        broadcast use lemma_null_free_added;

        match self.fcm_options {
            Some(x) => x.lemma_no_null(),
            None => {},
        }
        match self.notification {
            Some(x) => x.lemma_no_null(),
            None => {},
        }
    }
}

impl<'a> View for AndroidConfig<'a> {
    type V = AndroidConfigView;

    closed spec fn view(&self) -> AndroidConfigView {
        AndroidConfigView {
            collapse_key: text_view(self.collapse_key),
            data: value_view(self.data),
            direct_boot_ok: self.direct_boot_ok,
            fcm_options: AndroidFcmOptionsView::of(self.fcm_options),
            ttl: text_view(self.ttl),
            notification: AndroidNotificationView::of(self.notification),
            priority: self.priority,
            restricted_package_name: text_view(self.restricted_package_name),
        }
    }
}

impl<'a> AndroidConfig<'a> {
    /// Encodes the configuration as a JSON object. The encoding fails where
    /// the data is set and is no JSON object, and only there.
    pub fn to_value(&self) -> (r: Result<Value, DataEncodingError>)
        ensures
            r is Ok <==> self@.encodable(),
            r matches Ok(v) ==> json_of(v) == self@.json(),
    {
        let mut members = serde_json::Map::new();
        put_text(&mut members, "collapse_key", self.collapse_key);
        put_mapping(&mut members, "data", &self.data)?;
        put_flag(&mut members, "direct_boot_ok", self.direct_boot_ok);
        let fcm_options = match &self.fcm_options {
            Some(o) => Some(o.to_value()),
            None => None,
        };
        put_member(&mut members, "fcm_options", fcm_options);
        put_text(&mut members, "ttl", self.ttl);
        let notification = match &self.notification {
            Some(n) => Some(n.to_value()),
            None => None,
        };
        put_member(&mut members, "notification", notification);
        let priority = match &self.priority {
            Some(p) => Some(p.to_value()),
            None => None,
        };
        put_member(&mut members, "priority", priority);
        put_text(&mut members, "restricted_package_name", self.restricted_package_name);
        Ok(object_value(members))
    }
}

/// A builder for an [`AndroidConfig`].
pub struct AndroidConfigBuilder<'a> {
    collapse_key: Option<&'a str>,
    data: Option<Value>,
    direct_boot_ok: Option<bool>,
    fcm_options: Option<AndroidFcmOptions<'a>>,
    ttl: Option<&'a str>,
    notification: Option<AndroidNotification<'a>>,
    priority: Option<AndroidMessagePriority>,
    restricted_package_name: Option<&'a str>,
}

impl<'a> View for AndroidConfigBuilder<'a> {
    type V = AndroidConfigView;

    closed spec fn view(&self) -> AndroidConfigView {
        AndroidConfigView {
            collapse_key: text_view(self.collapse_key),
            data: value_view(self.data),
            direct_boot_ok: self.direct_boot_ok,
            fcm_options: AndroidFcmOptionsView::of(self.fcm_options),
            ttl: text_view(self.ttl),
            notification: AndroidNotificationView::of(self.notification),
            priority: self.priority,
            restricted_package_name: text_view(self.restricted_package_name),
        }
    }
}

impl<'a> AndroidConfigBuilder<'a> {
    /// A builder with no field set.
    pub fn new() -> (b: AndroidConfigBuilder<'a>)
        ensures
            b@ == AndroidConfigView::unset(),
    {
        AndroidConfigBuilder {
            collapse_key: None,
            data: None,
            direct_boot_ok: None,
            fcm_options: None,
            ttl: None,
            notification: None,
            priority: None,
            restricted_package_name: None,
        }
    }

    /// Sets the key by which the delivery service folds pending messages into
    /// one.
    pub fn collapse_key(&mut self, collapse_key: &'a str) -> (r: &mut Self)
        ensures
            r@ == (AndroidConfigView { collapse_key: Some(collapse_key@), ..old(self)@ }),
            *final(self) == *final(r),
    {
        self.collapse_key = Some(collapse_key);
        self
    }

    /// Sets the free-form data of the message. Any value is accepted here; one
    /// that is no JSON object is refused when the configuration is encoded.
    pub fn data(&mut self, data: Value) -> (r: &mut Self)
        ensures
            r@ == (AndroidConfigView { data: Some(json_of(data)), ..old(self)@ }),
            *final(self) == *final(r),
    {
        self.data = Some(data);
        self
    }

    /// Says whether the message may be delivered while the device is in direct
    /// boot mode.
    pub fn direct_boot_ok(&mut self, direct_boot_ok: bool) -> (r: &mut Self)
        ensures
            r@ == (AndroidConfigView { direct_boot_ok: Some(direct_boot_ok), ..old(self)@ }),
            *final(self) == *final(r),
    {
        self.direct_boot_ok = Some(direct_boot_ok);
        self
    }

    /// Sets the options of the delivery service.
    pub fn fcm_options(&mut self, fcm_options: AndroidFcmOptions<'a>) -> (r: &mut Self)
        ensures
            r@ == (AndroidConfigView { fcm_options: Some(fcm_options@), ..old(self)@ }),
            *final(self) == *final(r),
    {
        self.fcm_options = Some(fcm_options);
        self
    }

    /// Sets how long the message is kept while the device is offline, a
    /// duration such as `"3.5s"`. The text is passed on as it is.
    pub fn ttl(&mut self, ttl: &'a str) -> (r: &mut Self)
        ensures
            r@ == (AndroidConfigView { ttl: Some(ttl@), ..old(self)@ }),
            *final(self) == *final(r),
    {
        self.ttl = Some(ttl);
        self
    }

    /// Sets the notification to show.
    pub fn notification(&mut self, notification: AndroidNotification<'a>) -> (r: &mut Self)
        ensures
            r@ == (AndroidConfigView { notification: Some(notification@), ..old(self)@ }),
            *final(self) == *final(r),
    {
        self.notification = Some(notification);
        self
    }

    /// Sets the delivery priority.
    pub fn priority(&mut self, priority: AndroidMessagePriority) -> (r: &mut Self)
        ensures
            r@ == (AndroidConfigView { priority: Some(priority), ..old(self)@ }),
            *final(self) == *final(r),
    {
        self.priority = Some(priority);
        self
    }

    /// Sets the package name that the app must have to receive the message.
    pub fn restricted_package_name(&mut self, restricted_package_name: &'a str) -> (r: &mut Self)
        ensures
            r@ == (AndroidConfigView {
                restricted_package_name: Some(restricted_package_name@),
                ..old(self)@
            }),
            *final(self) == *final(r),
    {
        self.restricted_package_name = Some(restricted_package_name);
        self
    }

    /// Completes the build: the configuration holds what the builder held,
    /// field by field.
    pub fn finalize(self) -> (c: AndroidConfig<'a>)
        ensures
            c@ == self@,
    {
        AndroidConfig {
            collapse_key: self.collapse_key,
            data: self.data,
            direct_boot_ok: self.direct_boot_ok,
            fcm_options: self.fcm_options,
            ttl: self.ttl,
            notification: self.notification,
            priority: self.priority,
            restricted_package_name: self.restricted_package_name,
        }
    }
}

} // verus!
