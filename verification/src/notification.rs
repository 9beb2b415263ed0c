//! The notification that every platform shows.

use crate::json::{
    has_member, json_of, lemma_member_added, lemma_null_free_added, null_free, object_value,
    put_text, shape, text_json, text_view, with_member, Fields, Json,
};
use serde_json::Value;
use vstd::prelude::*;

verus! {

/// A notification: title, body and image, each of them optional.
#[derive(Debug, PartialEq)]
pub struct Notification<'a> {
    pub body: Option<&'a str>,
    pub image: Option<&'a str>,
    pub title: Option<&'a str>,
}

/// What a notification holds.
pub struct NotificationView {
    pub body: Option<Seq<char>>,
    pub image: Option<Seq<char>>,
    pub title: Option<Seq<char>>,
}

impl NotificationView {
    /// The notification with no field set.
    pub open spec fn unset() -> NotificationView {
        NotificationView { body: None, image: None, title: None }
    }

    /// The view of an optional notification.
    pub open spec fn of(value: Option<Notification>) -> Option<NotificationView> {
        match value {
            Some(n) => Some(n@),
            None => None,
        }
    }

    /// The content of an optional notification: its JSON object.
    pub open spec fn member(value: Option<NotificationView>) -> Option<Json> {
        match value {
            Some(n) => Some(n.json()),
            None => None,
        }
    }

    /// The members of the notification's JSON object.
    pub open spec fn members(self) -> Fields {
        let m = Fields::empty();
        let m = with_member(m, "body"@, text_json(self.body));
        let m = with_member(m, "image"@, text_json(self.image));
        let m = with_member(m, "title"@, text_json(self.title));
        m
    }

    /// The JSON encoding of the notification.
    pub open spec fn json(self) -> Json {
        Json::Object(self.members())
    }

    /// The JSON object of a notification has one member for each field that
    /// is set, under the field's name and with the field's text, and no other
    /// member: a field that is unset is not there at all.
    pub proof fn lemma_members(self)
        ensures
            has_member(self.members(), "body"@, text_json(self.body)),
            has_member(self.members(), "image"@, text_json(self.image)),
            has_member(self.members(), "title"@, text_json(self.title)),
            forall|name: Seq<char>| #[trigger]
                self.members().dom().contains(name) ==> name == "body"@ || name == "image"@ || name
                    == "title"@,
    {
        broadcast use lemma_member_added;

        reveal_strlit("body");
        reveal_strlit("image");
        reveal_strlit("title");
        assert(shape("body"@) == (4nat, 'b', 'y'));
        assert(shape("image"@) == (5nat, 'i', 'e'));
        assert(shape("title"@) == (5nat, 't', 'e'));
    }

    /// The JSON of a notification holds no null, at any depth: the library
    /// writes no field as null.
    pub proof fn lemma_no_null(self)
        ensures
            null_free(self.json()),
    {
        broadcast use lemma_null_free_added;
    }
}

impl<'a> View for Notification<'a> {
    type V = NotificationView;

    open spec fn view(&self) -> NotificationView {
        NotificationView {
            body: text_view(self.body),
            image: text_view(self.image),
            title: text_view(self.title),
        }
    }
}

impl<'a> Notification<'a> {
    /// Encodes the notification as a JSON object.
    pub fn to_value(&self) -> (v: Value)
        ensures
            json_of(v) == self@.json(),
    {
        let mut members = serde_json::Map::new();
        put_text(&mut members, "body", self.body);
        put_text(&mut members, "image", self.image);
        put_text(&mut members, "title", self.title);
        object_value(members)
    }
}

/// A builder for a [`Notification`].
pub struct NotificationBuilder<'a> {
    title: Option<&'a str>,
    body: Option<&'a str>,
    image: Option<&'a str>,
}

impl<'a> View for NotificationBuilder<'a> {
    type V = NotificationView;

    closed spec fn view(&self) -> NotificationView {
        NotificationView {
            body: text_view(self.body),
            image: text_view(self.image),
            title: text_view(self.title),
        }
    }
}

impl<'a> NotificationBuilder<'a> {
    /// A builder with no field set.
    pub fn new() -> (b: NotificationBuilder<'a>)
        ensures
            b@ == NotificationView::unset(),
    {
        NotificationBuilder { title: None, body: None, image: None }
    }

    /// Sets the title of the notification.
    pub fn title(&mut self, title: &'a str) -> (r: &mut Self)
        ensures
            r@ == (NotificationView { title: Some(title@), ..old(self)@ }),
            *final(self) == *final(r),
    {
        self.title = Some(title);
        self
    }

    /// Sets the body of the notification.
    pub fn body(&mut self, body: &'a str) -> (r: &mut Self)
        ensures
            r@ == (NotificationView { body: Some(body@), ..old(self)@ }),
            *final(self) == *final(r),
    {
        self.body = Some(body);
        self
    }

    /// Sets the image of the notification.
    pub fn image(&mut self, image: &'a str) -> (r: &mut Self)
        ensures
            r@ == (NotificationView { image: Some(image@), ..old(self)@ }),
            *final(self) == *final(r),
    {
        self.image = Some(image);
        self
    }

    /// Completes the build: the notification holds what the builder held.
    pub fn finalize(self) -> (n: Notification<'a>)
        ensures
            n@ == self@,
    {
        Notification { title: self.title, body: self.body, image: self.image }
    }
}

} // verus!
