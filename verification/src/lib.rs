//! A typed client library for a discussion-forum HTTP API.
//!
//! The library builds authenticated HTTP requests for the forum's REST and
//! chat endpoints and interprets the JSON responses: a success body is
//! decoded into a typed record, a failure body is classified into a
//! structured or generic error. Sending the requests is left to the caller;
//! every function here is a pure mapping between plain values.

pub mod auth;
pub mod client;
pub mod codec;
pub mod encode;
pub mod error;
pub mod json;
pub mod text;
pub mod types;

pub use auth::AuthType;
pub use client::{DiscourseClient, HttpRequest, Method};
pub use error::Error;
pub use json::Json;
pub use types::{
    Category, CategoryList, CategoryListData, ChatChannel, ChatChannelsResponse, ChatMessage,
    ChatMessagesMeta, ChatMessagesResponse, CreateMessageResponse, CreatePostResponse,
    ErrorResponse, LatestResponse, Notification, NotificationData, NotificationsResponse, Post,
    PostStream, Poster, Topic, TopicList, TopicResponse, User,
};
