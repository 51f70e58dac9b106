//! The endpoint client: one request builder and one response handler per
//! supported remote operation.
//!
//! A builder turns the client's configuration and the call's arguments into
//! a complete request description: verb, URL, authentication headers and,
//! for writes, a JSON body. A handler turns the status code and body text
//! of the response into the operation's typed result, classifying failures
//! uniformly: a success body must decode or the call fails with a decode
//! error; a failure body yields the structured message when it has one and
//! the bare status code otherwise. Sending the request is the caller's
//! business; each call is one atomic exchange, never retried.

use vstd::prelude::*;
use vstd::string::StringExecFns;

use crate::auth::{AuthType, auth_headers, spec_auth_headers};
use crate::codec::{json_of, parse_json, render_json, render_of};
use crate::error::{
    Error, ErrorV, error_from_failure, spec_error_of, spec_is_success, status_is_success,
};
use crate::json::{
    Decodable, Json, JsonV, json_u64, jview, jview_pairs, lemma_jview_obj, spec_json_u64,
};
use crate::text::{push_u64, spec_digits};
use crate::types::{
    Category, CategoryList, CategoryV, ChatChannelsResponse, ChatChannelsResponseV,
    ChatMessagesResponse, ChatMessagesResponseV, CreateMessageResponse, CreateMessageResponseV,
    CreatePostResponse, CreatePostResponseV, LatestResponse, LatestResponseV, NotificationsResponse,
    NotificationsResponseV, Post, PostV, TopicResponse, TopicResponseV,
};

verus! {

broadcast use vstd::std_specs::vec::group_vec_axioms, vstd::seq::group_seq_axioms;

/// The verb of one request.
#[derive(Debug, Clone, Copy, PartialEq, Eq, Structural)]
pub enum Method {
    Get,
    Post,
    Put,
    Delete,
}

impl Method {
    /// The verb's wire name.
    pub fn as_str(&self) -> (r: &'static str)
        ensures
            *self is Get ==> r@ == "GET"@,
            *self is Post ==> r@ == "POST"@,
            *self is Put ==> r@ == "PUT"@,
            *self is Delete ==> r@ == "DELETE"@,
    {
        match self {
            Method::Get => "GET",
            Method::Post => "POST",
            Method::Put => "PUT",
            Method::Delete => "DELETE",
        }
    }
}

/// One fully-built request: everything the transport needs to send it.
#[derive(Debug, Clone, PartialEq)]
pub struct HttpRequest {
    pub method: Method,
    pub url: String,
    pub headers: Vec<(String, String)>,
    pub body: Option<String>,
}

/// The client: a base URL and one authentication mode, both fixed at
/// construction and immutable for the client's lifetime.
#[derive(Debug, Clone, PartialEq)]
pub struct DiscourseClient {
    pub base_url: String,
    pub auth: AuthType,
}

// ---- response classification ----

/// The body's decoding, once the body has parsed at all.
pub open spec fn spec_decode_body<T: Decodable>(parsed: Option<JsonV>) -> Option<T::V> {
    match parsed {
        Option::Some(j) => T::spec_decode(j),
        Option::None => Option::None,
    }
}

/// The uniform classification of one response: on a success status the
/// decoded payload is owed, and a body that did not decode is a decode
/// error; on a failure status the error classification decides.
pub open spec fn spec_response<T>(status: u16, parsed: Option<JsonV>, decoded: Option<T>) -> Result<
    T,
    ErrorV,
> {
    if spec_is_success(status) {
        match decoded {
            Option::Some(t) => Result::Ok(t),
            Option::None => Result::Err(ErrorV::Decode),
        }
    } else {
        Result::Err(spec_error_of(status, parsed))
    }
}

/// The result owed for a response carrying a record of type `T`.
pub open spec fn spec_record_result<T: Decodable>(status: u16, parsed: Option<JsonV>) -> Result<
    T::V,
    ErrorV,
> {
    spec_response(status, parsed, spec_decode_body::<T>(parsed))
}

/// The result owed for the category listing: the inner list, unwrapped
/// from its nested envelope.
pub open spec fn spec_categories_result(status: u16, parsed: Option<JsonV>) -> Result<
    Seq<CategoryV>,
    ErrorV,
> {
    spec_response(
        status,
        parsed,
        match spec_decode_body::<CategoryList>(parsed) {
            Option::Some(cl) => Option::Some(cl.category_list.categories),
            Option::None => Option::None,
        },
    )
}

/// The result owed for an operation with no typed payload: bare success on
/// a success status, the classified error otherwise.
pub open spec fn spec_action_result(status: u16, parsed: Option<JsonV>) -> Result<(), ErrorV> {
    if spec_is_success(status) {
        Result::Ok(())
    } else {
        Result::Err(spec_error_of(status, parsed))
    }
}

/// On a success status, a body that does not parse, or parses but does
/// not decode as the operation's record, yields a decode error: never a
/// silent default or empty result.
pub proof fn lemma_malformed_success_is_decode_error<T: Decodable>(
    status: u16,
    parsed: Option<JsonV>,
)
    requires
        spec_is_success(status),
        spec_decode_body::<T>(parsed) is None,
    ensures
        spec_record_result::<T>(status, parsed) == Result::Err::<T::V, ErrorV>(ErrorV::Decode),
{
}

/// On a success status, a body that decodes is owed as the result: success
/// is never converted into an error.
pub proof fn lemma_success_owed<T: Decodable>(status: u16, parsed: Option<JsonV>)
    requires
        spec_is_success(status),
        spec_decode_body::<T>(parsed) is Some,
    ensures
        spec_record_result::<T>(status, parsed) == Result::Ok::<T::V, ErrorV>(
            spec_decode_body::<T>(parsed)->0,
        ),
{
}

/// Handle a topic-listing response.
pub fn latest_response(status: u16, body: &str) -> (r: Result<LatestResponse, Error>)
    ensures
        match r {
            Result::Ok(v) => spec_record_result::<LatestResponse>(status, json_of(body@))
                == Result::Ok::<LatestResponseV, ErrorV>(v.deep_view()),
            Result::Err(e) => spec_record_result::<LatestResponse>(status, json_of(body@))
                == Result::Err::<LatestResponseV, ErrorV>(e.deep_view()),
        },
{
    let parsed = parse_json(body);
    if !status_is_success(status) {
        return Result::Err(error_from_failure(status, &parsed));
    }
    match parsed {
        Option::Some(j) => match LatestResponse::decode(&j) {
            Option::Some(v) => Result::Ok(v),
            Option::None => Result::Err(Error::Decode),
        },
        Option::None => Result::Err(Error::Decode),
    }
}

/// Handle a category-listing response, unwrapping the nested envelope.
pub fn categories_response(status: u16, body: &str) -> (r: Result<Vec<Category>, Error>)
    ensures
        match r {
            Result::Ok(v) => spec_categories_result(status, json_of(body@)) == Result::Ok::<
                Seq<CategoryV>,
                ErrorV,
            >(v.deep_view()),
            Result::Err(e) => spec_categories_result(status, json_of(body@)) == Result::Err::<
                Seq<CategoryV>,
                ErrorV,
            >(e.deep_view()),
        },
{
    let parsed = parse_json(body);
    if !status_is_success(status) {
        return Result::Err(error_from_failure(status, &parsed));
    }
    match parsed {
        Option::Some(j) => match CategoryList::decode(&j) {
            Option::Some(cl) => Result::Ok(cl.category_list.categories),
            Option::None => Result::Err(Error::Decode),
        },
        Option::None => Result::Err(Error::Decode),
    }
}

/// Handle a topic-detail response.
pub fn topic_response(status: u16, body: &str) -> (r: Result<TopicResponse, Error>)
    ensures
        match r {
            Result::Ok(v) => spec_record_result::<TopicResponse>(status, json_of(body@))
                == Result::Ok::<TopicResponseV, ErrorV>(v.deep_view()),
            Result::Err(e) => spec_record_result::<TopicResponse>(status, json_of(body@))
                == Result::Err::<TopicResponseV, ErrorV>(e.deep_view()),
        },
{
    let parsed = parse_json(body);
    if !status_is_success(status) {
        return Result::Err(error_from_failure(status, &parsed));
    }
    match parsed {
        Option::Some(j) => match TopicResponse::decode(&j) {
            Option::Some(v) => Result::Ok(v),
            Option::None => Result::Err(Error::Decode),
        },
        Option::None => Result::Err(Error::Decode),
    }
}

/// Handle a single-post response.
pub fn post_response(status: u16, body: &str) -> (r: Result<Post, Error>)
    ensures
        match r {
            Result::Ok(v) => spec_record_result::<Post>(status, json_of(body@)) == Result::Ok::<
                PostV,
                ErrorV,
            >(v.deep_view()),
            Result::Err(e) => spec_record_result::<Post>(status, json_of(body@)) == Result::Err::<
                PostV,
                ErrorV,
            >(e.deep_view()),
        },
{
    let parsed = parse_json(body);
    if !status_is_success(status) {
        return Result::Err(error_from_failure(status, &parsed));
    }
    match parsed {
        Option::Some(j) => match Post::decode(&j) {
            Option::Some(v) => Result::Ok(v),
            Option::None => Result::Err(Error::Decode),
        },
        Option::None => Result::Err(Error::Decode),
    }
}

/// Handle a chat-channel listing response.
pub fn channels_response(status: u16, body: &str) -> (r: Result<ChatChannelsResponse, Error>)
    ensures
        match r {
            Result::Ok(v) => spec_record_result::<ChatChannelsResponse>(status, json_of(body@))
                == Result::Ok::<ChatChannelsResponseV, ErrorV>(v.deep_view()),
            Result::Err(e) => spec_record_result::<ChatChannelsResponse>(status, json_of(body@))
                == Result::Err::<ChatChannelsResponseV, ErrorV>(e.deep_view()),
        },
{
    let parsed = parse_json(body);
    if !status_is_success(status) {
        return Result::Err(error_from_failure(status, &parsed));
    }
    match parsed {
        Option::Some(j) => match ChatChannelsResponse::decode(&j) {
            Option::Some(v) => Result::Ok(v),
            Option::None => Result::Err(Error::Decode),
        },
        Option::None => Result::Err(Error::Decode),
    }
}

/// Handle a chat-message listing response.
pub fn channel_messages_response(status: u16, body: &str) -> (r: Result<
    ChatMessagesResponse,
    Error,
>)
    ensures
        match r {
            Result::Ok(v) => spec_record_result::<ChatMessagesResponse>(status, json_of(body@))
                == Result::Ok::<ChatMessagesResponseV, ErrorV>(v.deep_view()),
            Result::Err(e) => spec_record_result::<ChatMessagesResponse>(status, json_of(body@))
                == Result::Err::<ChatMessagesResponseV, ErrorV>(e.deep_view()),
        },
{
    let parsed = parse_json(body);
    if !status_is_success(status) {
        return Result::Err(error_from_failure(status, &parsed));
    }
    match parsed {
        Option::Some(j) => match ChatMessagesResponse::decode(&j) {
            Option::Some(v) => Result::Ok(v),
            Option::None => Result::Err(Error::Decode),
        },
        Option::None => Result::Err(Error::Decode),
    }
}

/// Handle the confirmation for a sent chat message.
pub fn chat_message_response(status: u16, body: &str) -> (r: Result<CreateMessageResponse, Error>)
    ensures
        match r {
            Result::Ok(v) => spec_record_result::<CreateMessageResponse>(status, json_of(body@))
                == Result::Ok::<CreateMessageResponseV, ErrorV>(v.deep_view()),
            Result::Err(e) => spec_record_result::<CreateMessageResponse>(status, json_of(body@))
                == Result::Err::<CreateMessageResponseV, ErrorV>(e.deep_view()),
        },
{
    let parsed = parse_json(body);
    if !status_is_success(status) {
        return Result::Err(error_from_failure(status, &parsed));
    }
    match parsed {
        Option::Some(j) => match CreateMessageResponse::decode(&j) {
            Option::Some(v) => Result::Ok(v),
            Option::None => Result::Err(Error::Decode),
        },
        Option::None => Result::Err(Error::Decode),
    }
}

/// Handle the record returned for a created topic or post.
pub fn created_post_response(status: u16, body: &str) -> (r: Result<CreatePostResponse, Error>)
    ensures
        match r {
            Result::Ok(v) => spec_record_result::<CreatePostResponse>(status, json_of(body@))
                == Result::Ok::<CreatePostResponseV, ErrorV>(v.deep_view()),
            Result::Err(e) => spec_record_result::<CreatePostResponse>(status, json_of(body@))
                == Result::Err::<CreatePostResponseV, ErrorV>(e.deep_view()),
        },
{
    let parsed = parse_json(body);
    if !status_is_success(status) {
        return Result::Err(error_from_failure(status, &parsed));
    }
    match parsed {
        Option::Some(j) => match CreatePostResponse::decode(&j) {
            Option::Some(v) => Result::Ok(v),
            Option::None => Result::Err(Error::Decode),
        },
        Option::None => Result::Err(Error::Decode),
    }
}

/// Handle a notification listing response.
pub fn notifications_response(status: u16, body: &str) -> (r: Result<NotificationsResponse, Error>)
    ensures
        match r {
            Result::Ok(v) => spec_record_result::<NotificationsResponse>(status, json_of(body@))
                == Result::Ok::<NotificationsResponseV, ErrorV>(v.deep_view()),
            Result::Err(e) => spec_record_result::<NotificationsResponse>(status, json_of(body@))
                == Result::Err::<NotificationsResponseV, ErrorV>(e.deep_view()),
        },
{
    let parsed = parse_json(body);
    if !status_is_success(status) {
        return Result::Err(error_from_failure(status, &parsed));
    }
    match parsed {
        Option::Some(j) => match NotificationsResponse::decode(&j) {
            Option::Some(v) => Result::Ok(v),
            Option::None => Result::Err(Error::Decode),
        },
        Option::None => Result::Err(Error::Decode),
    }
}

/// Handle a response with no typed payload: liking, unliking, updating or
/// deleting. Any success status is enough; the body is never required to
/// decode.
pub fn action_response(status: u16, body: &str) -> (r: Result<(), Error>)
    ensures
        match r {
            Result::Ok(_) => spec_action_result(status, json_of(body@)) == Result::Ok::<
                (),
                ErrorV,
            >(()),
            Result::Err(e) => spec_action_result(status, json_of(body@)) == Result::Err::<
                (),
                ErrorV,
            >(e.deep_view()),
        },
{
    if status_is_success(status) {
        return Result::Ok(());
    }
    let parsed = parse_json(body);
    Result::Err(error_from_failure(status, &parsed))
}

// ---- request bodies ----

/// The body sent with a chat message.
pub open spec fn spec_message_body(message: Seq<char>) -> JsonV {
    JsonV::Obj(seq![("message"@, JsonV::Str(message))])
}

fn message_body(message: &str) -> (r: Json)
    ensures
        jview(r) == spec_message_body(message@),
{
    let mut fields: Vec<(String, Json)> = Vec::new();
    fields.push(("message".to_owned(), Json::Str(message.to_owned())));
    proof {
        lemma_jview_obj(fields);
        assert(jview_pairs(fields@) =~= seq![("message"@, JsonV::Str(message@))]);
    }
    Json::Obj(fields)
}

/// The body sent when replying in a topic.
pub open spec fn spec_create_post_body(
    topic_id: u64,
    raw: Seq<char>,
    reply_to_post_number: Option<u32>,
) -> JsonV {
    match reply_to_post_number {
        Option::None => JsonV::Obj(
            seq![("raw"@, JsonV::Str(raw)), ("topic_id"@, spec_json_u64(topic_id))],
        ),
        Option::Some(n) => JsonV::Obj(
            seq![
                ("raw"@, JsonV::Str(raw)),
                ("topic_id"@, spec_json_u64(topic_id)),
                ("reply_to_post_number"@, spec_json_u64(n as u64)),
            ],
        ),
    }
}

fn create_post_body(topic_id: u64, raw: &str, reply_to_post_number: Option<u32>) -> (r: Json)
    ensures
        jview(r) == spec_create_post_body(topic_id, raw@, reply_to_post_number),
{
    let mut fields: Vec<(String, Json)> = Vec::new();
    fields.push(("raw".to_owned(), Json::Str(raw.to_owned())));
    fields.push(("topic_id".to_owned(), json_u64(topic_id)));
    match reply_to_post_number {
        Option::Some(n) => {
            fields.push(("reply_to_post_number".to_owned(), json_u64(n as u64)));
            proof {
                lemma_jview_obj(fields);
                assert(jview_pairs(fields@) =~= seq![
                    ("raw"@, JsonV::Str(raw@)),
                    ("topic_id"@, spec_json_u64(topic_id)),
                    ("reply_to_post_number"@, spec_json_u64(n as u64)),
                ]);
            }
        },
        Option::None => {
            proof {
                lemma_jview_obj(fields);
                assert(jview_pairs(fields@) =~= seq![
                    ("raw"@, JsonV::Str(raw@)),
                    ("topic_id"@, spec_json_u64(topic_id)),
                ]);
            }
        },
    }
    Json::Obj(fields)
}

/// The body sent when opening a new topic.
pub open spec fn spec_create_topic_body(
    title: Seq<char>,
    raw: Seq<char>,
    category_id: Option<u64>,
) -> JsonV {
    match category_id {
        Option::None => JsonV::Obj(seq![("title"@, JsonV::Str(title)), ("raw"@, JsonV::Str(raw))]),
        Option::Some(c) => JsonV::Obj(
            seq![
                ("title"@, JsonV::Str(title)),
                ("raw"@, JsonV::Str(raw)),
                ("category_id"@, spec_json_u64(c)),
            ],
        ),
    }
}

fn create_topic_body(title: &str, raw: &str, category_id: Option<u64>) -> (r: Json)
    ensures
        jview(r) == spec_create_topic_body(title@, raw@, category_id),
{
    let mut fields: Vec<(String, Json)> = Vec::new();
    fields.push(("title".to_owned(), Json::Str(title.to_owned())));
    fields.push(("raw".to_owned(), Json::Str(raw.to_owned())));
    match category_id {
        Option::Some(c) => {
            fields.push(("category_id".to_owned(), json_u64(c)));
            proof {
                lemma_jview_obj(fields);
                assert(jview_pairs(fields@) =~= seq![
                    ("title"@, JsonV::Str(title@)),
                    ("raw"@, JsonV::Str(raw@)),
                    ("category_id"@, spec_json_u64(c)),
                ]);
            }
        },
        Option::None => {
            proof {
                lemma_jview_obj(fields);
                assert(jview_pairs(fields@) =~= seq![
                    ("title"@, JsonV::Str(title@)),
                    ("raw"@, JsonV::Str(raw@)),
                ]);
            }
        },
    }
    Json::Obj(fields)
}

/// The body sent when rewriting a post.
pub open spec fn spec_update_post_body(raw: Seq<char>) -> JsonV {
    JsonV::Obj(seq![("raw"@, JsonV::Str(raw))])
}

fn update_post_body(raw: &str) -> (r: Json)
    ensures
        jview(r) == spec_update_post_body(raw@),
{
    let mut fields: Vec<(String, Json)> = Vec::new();
    fields.push(("raw".to_owned(), Json::Str(raw.to_owned())));
    proof {
        lemma_jview_obj(fields);
        assert(jview_pairs(fields@) =~= seq![("raw"@, JsonV::Str(raw@))]);
    }
    Json::Obj(fields)
}

/// The body sent when liking a post: the post-action kind for a like.
pub open spec fn spec_like_body(post_id: u64) -> JsonV {
    JsonV::Obj(
        seq![("id"@, spec_json_u64(post_id)), ("post_action_type_id"@, JsonV::Int(2))],
    )
}

fn like_body(post_id: u64) -> (r: Json)
    ensures
        jview(r) == spec_like_body(post_id),
{
    let mut fields: Vec<(String, Json)> = Vec::new();
    fields.push(("id".to_owned(), json_u64(post_id)));
    fields.push(("post_action_type_id".to_owned(), Json::Int(2)));
    proof {
        lemma_jview_obj(fields);
        assert(jview_pairs(fields@) =~= seq![
            ("id"@, spec_json_u64(post_id)),
            ("post_action_type_id"@, JsonV::Int(2)),
        ]);
    }
    Json::Obj(fields)
}

// ---- the client ----

impl DiscourseClient {
    /// An anonymous client.
    pub fn new(base_url: &str) -> (r: Self)
        ensures
            r.base_url@ == base_url@,
            r.auth is NoAuth,
    {
        DiscourseClient { base_url: base_url.to_owned(), auth: AuthType::NoAuth }
    }

    /// A client with an admin key pair.
    pub fn with_api_key(base_url: &str, api_key: &str, api_username: &str) -> (r: Self)
        ensures
            r.base_url@ == base_url@,
            r.auth matches AuthType::AdminKey { api_key: k, api_username: u } && k@ == api_key@
                && u@ == api_username@,
    {
        DiscourseClient {
            base_url: base_url.to_owned(),
            auth: AuthType::AdminKey {
                api_key: api_key.to_owned(),
                api_username: api_username.to_owned(),
            },
        }
    }

    /// A client with a user token and no client id.
    pub fn with_user_api_key(base_url: &str, user_api_key: &str) -> (r: Self)
        ensures
            r.base_url@ == base_url@,
            r.auth matches AuthType::UserKey { user_api_key: k, user_api_client_id: c } && k@
                == user_api_key@ && c is None,
    {
        DiscourseClient {
            base_url: base_url.to_owned(),
            auth: AuthType::UserKey {
                user_api_key: user_api_key.to_owned(),
                user_api_client_id: Option::None,
            },
        }
    }

    /// A client with a user token and a client id.
    pub fn with_user_api_key_and_client_id(
        base_url: &str,
        user_api_key: &str,
        user_api_client_id: &str,
    ) -> (r: Self)
        ensures
            r.base_url@ == base_url@,
            r.auth matches AuthType::UserKey { user_api_key: k, user_api_client_id: c } && k@
                == user_api_key@ && (c matches Option::Some(ci) && ci@ == user_api_client_id@),
    {
        DiscourseClient {
            base_url: base_url.to_owned(),
            auth: AuthType::UserKey {
                user_api_key: user_api_key.to_owned(),
                user_api_client_id: Option::Some(user_api_client_id.to_owned()),
            },
        }
    }

    /// The base URL followed by a fixed path.
    fn build_url(&self, path: &str) -> (r: String)
        ensures
            r@ == self.base_url@ + path@,
    {
        self.base_url.clone().concat(path)
    }

    /// The base URL, a prefix, a decimal id and a suffix.
    fn build_url_id(&self, pre: &str, id: u64, post: &str) -> (r: String)
        ensures
            r@ == self.base_url@ + pre@ + spec_digits(id) + post@,
    {
        let mut s: String = self.base_url.clone();
        s.append(pre);
        push_u64(&mut s, id);
        s.append(post);
        proof {
            assert(s@ =~= self.base_url@ + pre@ + spec_digits(id) + post@);
        }
        s
    }

    /// The request fetching the latest topics.
    pub fn get_latest_request(&self) -> (r: HttpRequest)
        ensures
            r.method is Get,
            r.url@ == self.base_url@ + "/latest.json"@,
            r.headers.deep_view() == spec_auth_headers(self.auth),
            r.body is None,
    {
        HttpRequest {
            method: Method::Get,
            url: self.build_url("/latest.json"),
            headers: auth_headers(&self.auth),
            body: Option::None,
        }
    }

    /// The request fetching the category listing.
    pub fn get_categories_request(&self) -> (r: HttpRequest)
        ensures
            r.method is Get,
            r.url@ == self.base_url@ + "/categories.json"@,
            r.headers.deep_view() == spec_auth_headers(self.auth),
            r.body is None,
    {
        HttpRequest {
            method: Method::Get,
            url: self.build_url("/categories.json"),
            headers: auth_headers(&self.auth),
            body: Option::None,
        }
    }

    /// The request fetching one topic with its raw post bodies.
    pub fn get_topic_request(&self, topic_id: u64) -> (r: HttpRequest)
        ensures
            r.method is Get,
            r.url@ == self.base_url@ + "/t/"@ + spec_digits(topic_id) + ".json?include_raw=1"@,
            r.headers.deep_view() == spec_auth_headers(self.auth),
            r.body is None,
    {
        HttpRequest {
            method: Method::Get,
            url: self.build_url_id("/t/", topic_id, ".json?include_raw=1"),
            headers: auth_headers(&self.auth),
            body: Option::None,
        }
    }

    /// The request fetching one post.
    pub fn get_post_request(&self, post_id: u64) -> (r: HttpRequest)
        ensures
            r.method is Get,
            r.url@ == self.base_url@ + "/posts/"@ + spec_digits(post_id) + ".json"@,
            r.headers.deep_view() == spec_auth_headers(self.auth),
            r.body is None,
    {
        HttpRequest {
            method: Method::Get,
            url: self.build_url_id("/posts/", post_id, ".json"),
            headers: auth_headers(&self.auth),
            body: Option::None,
        }
    }

    /// The request fetching a category's latest topics.
    pub fn get_category_topics_request(&self, category_id: u64) -> (r: HttpRequest)
        ensures
            r.method is Get,
            r.url@ == self.base_url@ + "/c/"@ + spec_digits(category_id) + "/l/latest.json"@,
            r.headers.deep_view() == spec_auth_headers(self.auth),
            r.body is None,
    {
        HttpRequest {
            method: Method::Get,
            url: self.build_url_id("/c/", category_id, "/l/latest.json"),
            headers: auth_headers(&self.auth),
            body: Option::None,
        }
    }

    /// The request fetching the chat channels visible to the user.
    pub fn get_user_channels_request(&self) -> (r: HttpRequest)
        ensures
            r.method is Get,
            r.url@ == self.base_url@ + "/chat/api/me/channels"@,
            r.headers.deep_view() == spec_auth_headers(self.auth),
            r.body is None,
    {
        HttpRequest {
            method: Method::Get,
            url: self.build_url("/chat/api/me/channels"),
            headers: auth_headers(&self.auth),
            body: Option::None,
        }
    }

    /// The request fetching one channel's messages.
    pub fn get_channel_messages_request(&self, channel_id: u64) -> (r: HttpRequest)
        ensures
            r.method is Get,
            r.url@ == self.base_url@ + "/chat/api/channels/"@ + spec_digits(channel_id)
                + "/messages"@,
            r.headers.deep_view() == spec_auth_headers(self.auth),
            r.body is None,
    {
        HttpRequest {
            method: Method::Get,
            url: self.build_url_id("/chat/api/channels/", channel_id, "/messages"),
            headers: auth_headers(&self.auth),
            body: Option::None,
        }
    }

    /// The request sending one chat message.
    pub fn send_chat_message_request(&self, channel_id: u64, message: &str) -> (r: HttpRequest)
        ensures
            r.method is Post,
            r.url@ == self.base_url@ + "/chat/"@ + spec_digits(channel_id),
            r.headers.deep_view() == spec_auth_headers(self.auth),
            r.body matches Option::Some(b) && b@ == render_of(spec_message_body(message@)),
    {
        let url = self.build_url_id("/chat/", channel_id, "");
        proof {
            reveal_strlit("");
            assert(url@ =~= self.base_url@ + "/chat/"@ + spec_digits(channel_id));
        }
        HttpRequest {
            method: Method::Post,
            url,
            headers: auth_headers(&self.auth),
            body: Option::Some(render_json(&message_body(message))),
        }
    }

    /// The request replying in a topic.
    pub fn create_post_request(
        &self,
        topic_id: u64,
        raw: &str,
        reply_to_post_number: Option<u32>,
    ) -> (r: HttpRequest)
        ensures
            r.method is Post,
            r.url@ == self.base_url@ + "/posts.json"@,
            r.headers.deep_view() == spec_auth_headers(self.auth),
            r.body matches Option::Some(b) && b@ == render_of(
                spec_create_post_body(topic_id, raw@, reply_to_post_number),
            ),
    {
        HttpRequest {
            method: Method::Post,
            url: self.build_url("/posts.json"),
            headers: auth_headers(&self.auth),
            body: Option::Some(
                render_json(&create_post_body(topic_id, raw, reply_to_post_number)),
            ),
        }
    }

    /// The request opening a new topic; its first post is the body.
    pub fn create_topic_request(
        &self,
        title: &str,
        raw: &str,
        category_id: Option<u64>,
    ) -> (r: HttpRequest)
        ensures
            r.method is Post,
            r.url@ == self.base_url@ + "/posts.json"@,
            r.headers.deep_view() == spec_auth_headers(self.auth),
            r.body matches Option::Some(b) && b@ == render_of(
                spec_create_topic_body(title@, raw@, category_id),
            ),
    {
        HttpRequest {
            method: Method::Post,
            url: self.build_url("/posts.json"),
            headers: auth_headers(&self.auth),
            body: Option::Some(render_json(&create_topic_body(title, raw, category_id))),
        }
    }

    /// The request rewriting a post's body.
    pub fn update_post_request(&self, post_id: u64, raw: &str) -> (r: HttpRequest)
        ensures
            r.method is Put,
            r.url@ == self.base_url@ + "/posts/"@ + spec_digits(post_id) + ".json"@,
            r.headers.deep_view() == spec_auth_headers(self.auth),
            r.body matches Option::Some(b) && b@ == render_of(spec_update_post_body(raw@)),
    {
        HttpRequest {
            method: Method::Put,
            url: self.build_url_id("/posts/", post_id, ".json"),
            headers: auth_headers(&self.auth),
            body: Option::Some(render_json(&update_post_body(raw))),
        }
    }

    /// The request deleting a post.
    pub fn delete_post_request(&self, post_id: u64) -> (r: HttpRequest)
        ensures
            r.method is Delete,
            r.url@ == self.base_url@ + "/posts/"@ + spec_digits(post_id) + ".json"@,
            r.headers.deep_view() == spec_auth_headers(self.auth),
            r.body is None,
    {
        HttpRequest {
            method: Method::Delete,
            url: self.build_url_id("/posts/", post_id, ".json"),
            headers: auth_headers(&self.auth),
            body: Option::None,
        }
    }

    /// The request liking a post.
    pub fn like_post_request(&self, post_id: u64) -> (r: HttpRequest)
        ensures
            r.method is Post,
            r.url@ == self.base_url@ + "/post_actions.json"@,
            r.headers.deep_view() == spec_auth_headers(self.auth),
            r.body matches Option::Some(b) && b@ == render_of(spec_like_body(post_id)),
    {
        HttpRequest {
            method: Method::Post,
            url: self.build_url("/post_actions.json"),
            headers: auth_headers(&self.auth),
            body: Option::Some(render_json(&like_body(post_id))),
        }
    }

    /// The request withdrawing a like.
    pub fn unlike_post_request(&self, post_id: u64) -> (r: HttpRequest)
        ensures
            r.method is Delete,
            r.url@ == self.base_url@ + "/post_actions/"@ + spec_digits(post_id)
                + ".json?post_action_type_id=2"@,
            r.headers.deep_view() == spec_auth_headers(self.auth),
            r.body is None,
    {
        HttpRequest {
            method: Method::Delete,
            url: self.build_url_id("/post_actions/", post_id, ".json?post_action_type_id=2"),
            headers: auth_headers(&self.auth),
            body: Option::None,
        }
    }

    /// The request fetching the user's notifications.
    pub fn get_notifications_request(&self) -> (r: HttpRequest)
        ensures
            r.method is Get,
            r.url@ == self.base_url@ + "/notifications.json"@,
            r.headers.deep_view() == spec_auth_headers(self.auth),
            r.body is None,
    {
        HttpRequest {
            method: Method::Get,
            url: self.build_url("/notifications.json"),
            headers: auth_headers(&self.auth),
            body: Option::None,
        }
    }
}

} // verus!
