//! Messages for Firebase Cloud Messaging: typed values for a message and its
//! platform configurations, builders for them, and their encoding as JSON.

pub mod android;
pub mod apns;
pub mod json;
pub mod message;
pub mod notification;
pub mod text;
pub mod webpush;

pub use android::{
    AndroidConfig, AndroidConfigBuilder, AndroidFcmOptions, AndroidMessagePriority,
    AndroidNotification, AndroidNotificationBuilder, Color, ColorBuilder, LightSettings,
    LightSettingsBuilder, Visibility,
};
pub use apns::{ApnsConfig, ApnsConfigBuilder, ApnsFcmOptions, Payload};
pub use json::DataEncodingError;
pub use message::{
    FcmOptions, Message, MessageBody, MessageBuilder, NotificationPriority, Priority,
};
pub use notification::{Notification, NotificationBuilder};
pub use text::Text;
pub use webpush::{WebNotification, WebpushConfig, WebpushConfigBuilder, WebpushFcmOptions};
