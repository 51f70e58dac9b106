//! The typed records the forum's JSON responses decode into.
//!
//! Every record is an immutable snapshot of one response body. Each has a
//! mathematical view (`..V`) over character sequences and sequences, and a
//! decoder whose exact behaviour is pinned by its `spec_decode`: a field the
//! remote service may omit is optional and tolerates absence or null; a
//! required field must be present with the right shape, or the whole record
//! fails to decode.

use vstd::prelude::*;

use crate::json::{
    Decodable, Json, JsonV, get_bool, get_i64, get_opt_bool, get_opt_json, get_opt_string,
    get_opt_u32, get_opt_u64, get_opt_vec, get_opt_vec_opt, get_record, get_string, get_u32,
    get_u64, get_vec, j_field, obj_get, opt_bool, opt_json, opt_seq, opt_seq_opt, opt_string,
    opt_u32, opt_u64, req_bool, req_i64, req_record, req_seq, req_string, req_u32, req_u64,
};

verus! {

broadcast use vstd::std_specs::vec::group_vec_axioms, vstd::seq::group_seq_axioms;

/// Structured failure payload from the remote service.
#[derive(Debug, Clone, PartialEq)]
pub struct ErrorResponse {
    pub errors: Vec<String>,
    pub error_type: Option<String>,
}

pub struct ErrorResponseV {
    pub errors: Seq<Seq<char>>,
    pub error_type: Option<Seq<char>>,
}

impl DeepView for ErrorResponse {
    type V = ErrorResponseV;

    open spec fn deep_view(&self) -> ErrorResponseV {
        ErrorResponseV { errors: self.errors.deep_view(), error_type: self.error_type.deep_view() }
    }
}

impl Decodable for ErrorResponse {
    open spec fn spec_decode(j: JsonV) -> Option<ErrorResponseV> {
        let errors = req_seq::<String>(j, "errors"@);
        let error_type = opt_string(j, "error_type"@);
        if errors is Some && error_type is Some {
            Option::Some(ErrorResponseV { errors: errors->0, error_type: error_type->0 })
        } else {
            Option::None
        }
    }

    fn decode(j: &Json) -> (r: Option<ErrorResponse>) {
        let errors = match get_vec::<String>(j, "errors") {
            Option::Some(x) => x,
            Option::None => {
                return Option::None;
            },
        };
        let error_type = match get_opt_string(j, "error_type") {
            Option::Some(x) => x,
            Option::None => {
                return Option::None;
            },
        };
        Option::Some(ErrorResponse { errors, error_type })
    }
}

/// One participant entry on a topic summary.
#[derive(Debug, Clone, PartialEq)]
pub struct Poster {
    pub user_id: i64,
    pub description: String,
    pub extras: Option<String>,
    pub primary_group_id: Option<u64>,
    pub flair_group_id: Option<u64>,
}

pub struct PosterV {
    pub user_id: i64,
    pub description: Seq<char>,
    pub extras: Option<Seq<char>>,
    pub primary_group_id: Option<u64>,
    pub flair_group_id: Option<u64>,
}

impl DeepView for Poster {
    type V = PosterV;

    open spec fn deep_view(&self) -> PosterV {
        PosterV {
            user_id: self.user_id,
            description: self.description.deep_view(),
            extras: self.extras.deep_view(),
            primary_group_id: self.primary_group_id,
            flair_group_id: self.flair_group_id,
        }
    }
}

impl Decodable for Poster {
    open spec fn spec_decode(j: JsonV) -> Option<PosterV> {
        let user_id = req_i64(j, "user_id"@);
        let description = req_string(j, "description"@);
        let extras = opt_string(j, "extras"@);
        let primary_group_id = opt_u64(j, "primary_group_id"@);
        let flair_group_id = opt_u64(j, "flair_group_id"@);
        if user_id is Some && description is Some && extras is Some && primary_group_id is Some
            && flair_group_id is Some {
            Option::Some(
                PosterV {
                    user_id: user_id->0,
                    description: description->0,
                    extras: extras->0,
                    primary_group_id: primary_group_id->0,
                    flair_group_id: flair_group_id->0,
                },
            )
        } else {
            Option::None
        }
    }

    fn decode(j: &Json) -> (r: Option<Poster>) {
        let user_id = match get_i64(j, "user_id") {
            Option::Some(x) => x,
            Option::None => {
                return Option::None;
            },
        };
        let description = match get_string(j, "description") {
            Option::Some(x) => x,
            Option::None => {
                return Option::None;
            },
        };
        let extras = match get_opt_string(j, "extras") {
            Option::Some(x) => x,
            Option::None => {
                return Option::None;
            },
        };
        let primary_group_id = match get_opt_u64(j, "primary_group_id") {
            Option::Some(x) => x,
            Option::None => {
                return Option::None;
            },
        };
        let flair_group_id = match get_opt_u64(j, "flair_group_id") {
            Option::Some(x) => x,
            Option::None => {
                return Option::None;
            },
        };
        Option::Some(Poster { user_id, description, extras, primary_group_id, flair_group_id })
    }
}

/// A forum member reference.
#[derive(Debug, Clone, PartialEq)]
pub struct User {
    pub id: i64,
    pub username: String,
    pub name: Option<String>,
    pub avatar_template: String,
}

pub struct UserV {
    pub id: i64,
    pub username: Seq<char>,
    pub name: Option<Seq<char>>,
    pub avatar_template: Seq<char>,
}

impl DeepView for User {
    type V = UserV;

    open spec fn deep_view(&self) -> UserV {
        UserV {
            id: self.id,
            username: self.username.deep_view(),
            name: self.name.deep_view(),
            avatar_template: self.avatar_template.deep_view(),
        }
    }
}

impl Decodable for User {
    open spec fn spec_decode(j: JsonV) -> Option<UserV> {
        let id = req_i64(j, "id"@);
        let username = req_string(j, "username"@);
        let name = opt_string(j, "name"@);
        let avatar_template = req_string(j, "avatar_template"@);
        if id is Some && username is Some && name is Some && avatar_template is Some {
            Option::Some(
                UserV {
                    id: id->0,
                    username: username->0,
                    name: name->0,
                    avatar_template: avatar_template->0,
                },
            )
        } else {
            Option::None
        }
    }

    fn decode(j: &Json) -> (r: Option<User>) {
        let id = match get_i64(j, "id") {
            Option::Some(x) => x,
            Option::None => {
                return Option::None;
            },
        };
        let username = match get_string(j, "username") {
            Option::Some(x) => x,
            Option::None => {
                return Option::None;
            },
        };
        let name = match get_opt_string(j, "name") {
            Option::Some(x) => x,
            Option::None => {
                return Option::None;
            },
        };
        let avatar_template = match get_string(j, "avatar_template") {
            Option::Some(x) => x,
            Option::None => {
                return Option::None;
            },
        };
        Option::Some(User { id, username, name, avatar_template })
    }
}

/// A forum category.
#[derive(Debug, Clone, PartialEq)]
pub struct Category {
    pub id: u64,
    pub name: String,
    pub color: String,
    pub text_color: String,
    pub slug: String,
    pub topic_count: u32,
    pub description: Option<String>,
    pub description_text: Option<String>,
    pub has_children: Option<bool>,
    pub parent_category_id: Option<u64>,
}

pub struct CategoryV {
    pub id: u64,
    pub name: Seq<char>,
    pub color: Seq<char>,
    pub text_color: Seq<char>,
    pub slug: Seq<char>,
    pub topic_count: u32,
    pub description: Option<Seq<char>>,
    pub description_text: Option<Seq<char>>,
    pub has_children: Option<bool>,
    pub parent_category_id: Option<u64>,
}

impl DeepView for Category {
    type V = CategoryV;

    open spec fn deep_view(&self) -> CategoryV {
        CategoryV {
            id: self.id,
            name: self.name.deep_view(),
            color: self.color.deep_view(),
            text_color: self.text_color.deep_view(),
            slug: self.slug.deep_view(),
            topic_count: self.topic_count,
            description: self.description.deep_view(),
            description_text: self.description_text.deep_view(),
            has_children: self.has_children,
            parent_category_id: self.parent_category_id,
        }
    }
}

impl Decodable for Category {
    open spec fn spec_decode(j: JsonV) -> Option<CategoryV> {
        let id = req_u64(j, "id"@);
        let name = req_string(j, "name"@);
        let color = req_string(j, "color"@);
        let text_color = req_string(j, "text_color"@);
        let slug = req_string(j, "slug"@);
        let topic_count = req_u32(j, "topic_count"@);
        let description = opt_string(j, "description"@);
        let description_text = opt_string(j, "description_text"@);
        let has_children = opt_bool(j, "has_children"@);
        let parent_category_id = opt_u64(j, "parent_category_id"@);
        if id is Some && name is Some && color is Some && text_color is Some && slug is Some
            && topic_count is Some && description is Some && description_text is Some
            && has_children is Some && parent_category_id is Some {
            Option::Some(
                CategoryV {
                    id: id->0,
                    name: name->0,
                    color: color->0,
                    text_color: text_color->0,
                    slug: slug->0,
                    topic_count: topic_count->0,
                    description: description->0,
                    description_text: description_text->0,
                    has_children: has_children->0,
                    parent_category_id: parent_category_id->0,
                },
            )
        } else {
            Option::None
        }
    }

    fn decode(j: &Json) -> (r: Option<Category>) {
        let id = match get_u64(j, "id") {
            Option::Some(x) => x,
            Option::None => {
                return Option::None;
            },
        };
        let name = match get_string(j, "name") {
            Option::Some(x) => x,
            Option::None => {
                return Option::None;
            },
        };
        let color = match get_string(j, "color") {
            Option::Some(x) => x,
            Option::None => {
                return Option::None;
            },
        };
        let text_color = match get_string(j, "text_color") {
            Option::Some(x) => x,
            Option::None => {
                return Option::None;
            },
        };
        let slug = match get_string(j, "slug") {
            Option::Some(x) => x,
            Option::None => {
                return Option::None;
            },
        };
        let topic_count = match get_u32(j, "topic_count") {
            Option::Some(x) => x,
            Option::None => {
                return Option::None;
            },
        };
        let description = match get_opt_string(j, "description") {
            Option::Some(x) => x,
            Option::None => {
                return Option::None;
            },
        };
        let description_text = match get_opt_string(j, "description_text") {
            Option::Some(x) => x,
            Option::None => {
                return Option::None;
            },
        };
        let has_children = match get_opt_bool(j, "has_children") {
            Option::Some(x) => x,
            Option::None => {
                return Option::None;
            },
        };
        let parent_category_id = match get_opt_u64(j, "parent_category_id") {
            Option::Some(x) => x,
            Option::None => {
                return Option::None;
            },
        };
        Option::Some(
            Category {
                id,
                name,
                color,
                text_color,
                slug,
                topic_count,
                description,
                description_text,
                has_children,
                parent_category_id,
            },
        )
    }
}

/// The inner envelope of the category listing.
#[derive(Debug, Clone, PartialEq)]
pub struct CategoryListData {
    pub categories: Vec<Category>,
}

pub struct CategoryListDataV {
    pub categories: Seq<CategoryV>,
}

impl DeepView for CategoryListData {
    type V = CategoryListDataV;

    open spec fn deep_view(&self) -> CategoryListDataV {
        CategoryListDataV { categories: self.categories.deep_view() }
    }
}

impl Decodable for CategoryListData {
    open spec fn spec_decode(j: JsonV) -> Option<CategoryListDataV> {
        let categories = req_seq::<Category>(j, "categories"@);
        if categories is Some {
            Option::Some(CategoryListDataV { categories: categories->0 })
        } else {
            Option::None
        }
    }

    fn decode(j: &Json) -> (r: Option<CategoryListData>) {
        let categories = match get_vec::<Category>(j, "categories") {
            Option::Some(x) => x,
            Option::None => {
                return Option::None;
            },
        };
        Option::Some(CategoryListData { categories })
    }
}

/// The outer envelope of the category listing.
#[derive(Debug, Clone, PartialEq)]
pub struct CategoryList {
    pub category_list: CategoryListData,
}

pub struct CategoryListV {
    pub category_list: CategoryListDataV,
}

impl DeepView for CategoryList {
    type V = CategoryListV;

    open spec fn deep_view(&self) -> CategoryListV {
        CategoryListV { category_list: self.category_list.deep_view() }
    }
}

impl Decodable for CategoryList {
    open spec fn spec_decode(j: JsonV) -> Option<CategoryListV> {
        let category_list = req_record::<CategoryListData>(j, "category_list"@);
        if category_list is Some {
            Option::Some(CategoryListV { category_list: category_list->0 })
        } else {
            Option::None
        }
    }

    fn decode(j: &Json) -> (r: Option<CategoryList>) {
        let category_list = match get_record::<CategoryListData>(j, "category_list") {
            Option::Some(x) => x,
            Option::None => {
                return Option::None;
            },
        };
        Option::Some(CategoryList { category_list })
    }
}

/// Pagination hints on a chat message listing.
#[derive(Debug, Clone, PartialEq)]
pub struct ChatMessagesMeta {
    pub can_load_more_past: Option<bool>,
    pub can_load_more_future: Option<bool>,
}

pub struct ChatMessagesMetaV {
    pub can_load_more_past: Option<bool>,
    pub can_load_more_future: Option<bool>,
}

impl DeepView for ChatMessagesMeta {
    type V = ChatMessagesMetaV;

    open spec fn deep_view(&self) -> ChatMessagesMetaV {
        ChatMessagesMetaV {
            can_load_more_past: self.can_load_more_past,
            can_load_more_future: self.can_load_more_future,
        }
    }
}

impl Decodable for ChatMessagesMeta {
    open spec fn spec_decode(j: JsonV) -> Option<ChatMessagesMetaV> {
        let can_load_more_past = opt_bool(j, "can_load_more_past"@);
        let can_load_more_future = opt_bool(j, "can_load_more_future"@);
        if can_load_more_past is Some && can_load_more_future is Some {
            Option::Some(
                ChatMessagesMetaV {
                    can_load_more_past: can_load_more_past->0,
                    can_load_more_future: can_load_more_future->0,
                },
            )
        } else {
            Option::None
        }
    }

    fn decode(j: &Json) -> (r: Option<ChatMessagesMeta>) {
        let can_load_more_past = match get_opt_bool(j, "can_load_more_past") {
            Option::Some(x) => x,
            Option::None => {
                return Option::None;
            },
        };
        let can_load_more_future = match get_opt_bool(j, "can_load_more_future") {
            Option::Some(x) => x,
            Option::None => {
                return Option::None;
            },
        };
        Option::Some(ChatMessagesMeta { can_load_more_past, can_load_more_future })
    }
}

/// Extra context carried by a notification.
#[derive(Debug, Clone, PartialEq)]
pub struct NotificationData {
    pub topic_title: Option<String>,
    pub original_username: Option<String>,
    pub display_username: Option<String>,
    pub display_name: Option<String>,
}

pub struct NotificationDataV {
    pub topic_title: Option<Seq<char>>,
    pub original_username: Option<Seq<char>>,
    pub display_username: Option<Seq<char>>,
    pub display_name: Option<Seq<char>>,
}

impl DeepView for NotificationData {
    type V = NotificationDataV;

    open spec fn deep_view(&self) -> NotificationDataV {
        NotificationDataV {
            topic_title: self.topic_title.deep_view(),
            original_username: self.original_username.deep_view(),
            display_username: self.display_username.deep_view(),
            display_name: self.display_name.deep_view(),
        }
    }
}

impl Decodable for NotificationData {
    open spec fn spec_decode(j: JsonV) -> Option<NotificationDataV> {
        let topic_title = opt_string(j, "topic_title"@);
        let original_username = opt_string(j, "original_username"@);
        let display_username = opt_string(j, "display_username"@);
        let display_name = opt_string(j, "display_name"@);
        if topic_title is Some && original_username is Some && display_username is Some
            && display_name is Some {
            Option::Some(
                NotificationDataV {
                    topic_title: topic_title->0,
                    original_username: original_username->0,
                    display_username: display_username->0,
                    display_name: display_name->0,
                },
            )
        } else {
            Option::None
        }
    }

    fn decode(j: &Json) -> (r: Option<NotificationData>) {
        let topic_title = match get_opt_string(j, "topic_title") {
            Option::Some(x) => x,
            Option::None => {
                return Option::None;
            },
        };
        let original_username = match get_opt_string(j, "original_username") {
            Option::Some(x) => x,
            Option::None => {
                return Option::None;
            },
        };
        let display_username = match get_opt_string(j, "display_username") {
            Option::Some(x) => x,
            Option::None => {
                return Option::None;
            },
        };
        let display_name = match get_opt_string(j, "display_name") {
            Option::Some(x) => x,
            Option::None => {
                return Option::None;
            },
        };
        Option::Some(
            NotificationData { topic_title, original_username, display_username, display_name },
        )
    }
}

/// Confirmation for a sent chat message.
#[derive(Debug, Clone, PartialEq)]
pub struct CreateMessageResponse {
    pub success: String,
    pub message_id: u64,
}

pub struct CreateMessageResponseV {
    pub success: Seq<char>,
    pub message_id: u64,
}

impl DeepView for CreateMessageResponse {
    type V = CreateMessageResponseV;

    open spec fn deep_view(&self) -> CreateMessageResponseV {
        CreateMessageResponseV {
            success: self.success.deep_view(),
            message_id: self.message_id,
        }
    }
}

impl Decodable for CreateMessageResponse {
    open spec fn spec_decode(j: JsonV) -> Option<CreateMessageResponseV> {
        let success = req_string(j, "success"@);
        let message_id = req_u64(j, "message_id"@);
        if success is Some && message_id is Some {
            Option::Some(CreateMessageResponseV { success: success->0, message_id: message_id->0 })
        } else {
            Option::None
        }
    }

    fn decode(j: &Json) -> (r: Option<CreateMessageResponse>) {
        let success = match get_string(j, "success") {
            Option::Some(x) => x,
            Option::None => {
                return Option::None;
            },
        };
        let message_id = match get_u64(j, "message_id") {
            Option::Some(x) => x,
            Option::None => {
                return Option::None;
            },
        };
        Option::Some(CreateMessageResponse { success, message_id })
    }
}

/// The created post returned by the post-creation endpoints.
#[derive(Debug, Clone, PartialEq)]
pub struct CreatePostResponse {
    pub id: u64,
    pub name: Option<String>,
    pub username: String,
    pub avatar_template: String,
    pub created_at: String,
    pub cooked: String,
    pub post_number: u32,
    pub post_type: u32,
    pub updated_at: String,
    pub reply_count: u32,
    pub reply_to_post_number: Option<u32>,
    pub quote_count: u32,
    pub topic_id: u64,
    pub topic_slug: String,
}

pub struct CreatePostResponseV {
    pub id: u64,
    pub name: Option<Seq<char>>,
    pub username: Seq<char>,
    pub avatar_template: Seq<char>,
    pub created_at: Seq<char>,
    pub cooked: Seq<char>,
    pub post_number: u32,
    pub post_type: u32,
    pub updated_at: Seq<char>,
    pub reply_count: u32,
    pub reply_to_post_number: Option<u32>,
    pub quote_count: u32,
    pub topic_id: u64,
    pub topic_slug: Seq<char>,
}

impl DeepView for CreatePostResponse {
    type V = CreatePostResponseV;

    open spec fn deep_view(&self) -> CreatePostResponseV {
        CreatePostResponseV {
            id: self.id,
            name: self.name.deep_view(),
            username: self.username.deep_view(),
            avatar_template: self.avatar_template.deep_view(),
            created_at: self.created_at.deep_view(),
            cooked: self.cooked.deep_view(),
            post_number: self.post_number,
            post_type: self.post_type,
            updated_at: self.updated_at.deep_view(),
            reply_count: self.reply_count,
            reply_to_post_number: self.reply_to_post_number,
            quote_count: self.quote_count,
            topic_id: self.topic_id,
            topic_slug: self.topic_slug.deep_view(),
        }
    }
}

impl Decodable for CreatePostResponse {
    open spec fn spec_decode(j: JsonV) -> Option<CreatePostResponseV> {
        let id = req_u64(j, "id"@);
        let name = opt_string(j, "name"@);
        let username = req_string(j, "username"@);
        let avatar_template = req_string(j, "avatar_template"@);
        let created_at = req_string(j, "created_at"@);
        let cooked = req_string(j, "cooked"@);
        let post_number = req_u32(j, "post_number"@);
        let post_type = req_u32(j, "post_type"@);
        let updated_at = req_string(j, "updated_at"@);
        let reply_count = req_u32(j, "reply_count"@);
        let reply_to_post_number = opt_u32(j, "reply_to_post_number"@);
        let quote_count = req_u32(j, "quote_count"@);
        let topic_id = req_u64(j, "topic_id"@);
        let topic_slug = req_string(j, "topic_slug"@);
        if id is Some && name is Some && username is Some && avatar_template is Some
            && created_at is Some && cooked is Some && post_number is Some && post_type is Some
            && updated_at is Some && reply_count is Some && reply_to_post_number is Some
            && quote_count is Some && topic_id is Some && topic_slug is Some {
            Option::Some(
                CreatePostResponseV {
                    id: id->0,
                    name: name->0,
                    username: username->0,
                    avatar_template: avatar_template->0,
                    created_at: created_at->0,
                    cooked: cooked->0,
                    post_number: post_number->0,
                    post_type: post_type->0,
                    updated_at: updated_at->0,
                    reply_count: reply_count->0,
                    reply_to_post_number: reply_to_post_number->0,
                    quote_count: quote_count->0,
                    topic_id: topic_id->0,
                    topic_slug: topic_slug->0,
                },
            )
        } else {
            Option::None
        }
    }

    fn decode(j: &Json) -> (r: Option<CreatePostResponse>) {
        let id = match get_u64(j, "id") {
            Option::Some(x) => x,
            Option::None => {
                return Option::None;
            },
        };
        let name = match get_opt_string(j, "name") {
            Option::Some(x) => x,
            Option::None => {
                return Option::None;
            },
        };
        let username = match get_string(j, "username") {
            Option::Some(x) => x,
            Option::None => {
                return Option::None;
            },
        };
        let avatar_template = match get_string(j, "avatar_template") {
            Option::Some(x) => x,
            Option::None => {
                return Option::None;
            },
        };
        let created_at = match get_string(j, "created_at") {
            Option::Some(x) => x,
            Option::None => {
                return Option::None;
            },
        };
        let cooked = match get_string(j, "cooked") {
            Option::Some(x) => x,
            Option::None => {
                return Option::None;
            },
        };
        let post_number = match get_u32(j, "post_number") {
            Option::Some(x) => x,
            Option::None => {
                return Option::None;
            },
        };
        let post_type = match get_u32(j, "post_type") {
            Option::Some(x) => x,
            Option::None => {
                return Option::None;
            },
        };
        let updated_at = match get_string(j, "updated_at") {
            Option::Some(x) => x,
            Option::None => {
                return Option::None;
            },
        };
        let reply_count = match get_u32(j, "reply_count") {
            Option::Some(x) => x,
            Option::None => {
                return Option::None;
            },
        };
        let reply_to_post_number = match get_opt_u32(j, "reply_to_post_number") {
            Option::Some(x) => x,
            Option::None => {
                return Option::None;
            },
        };
        let quote_count = match get_u32(j, "quote_count") {
            Option::Some(x) => x,
            Option::None => {
                return Option::None;
            },
        };
        let topic_id = match get_u64(j, "topic_id") {
            Option::Some(x) => x,
            Option::None => {
                return Option::None;
            },
        };
        let topic_slug = match get_string(j, "topic_slug") {
            Option::Some(x) => x,
            Option::None => {
                return Option::None;
            },
        };
        Option::Some(
            CreatePostResponse {
                id,
                name,
                username,
                avatar_template,
                created_at,
                cooked,
                post_number,
                post_type,
                updated_at,
                reply_count,
                reply_to_post_number,
                quote_count,
                topic_id,
                topic_slug,
            },
        )
    }
}

/// A discussion thread summary.
#[derive(Debug, Clone, PartialEq)]
pub struct Topic {
    pub id: u64,
    pub title: String,
    pub slug: String,
    pub posts_count: u32,
    pub reply_count: u32,
    pub views: u32,
    pub like_count: u32,
    pub created_at: String,
    pub last_posted_at: Option<String>,
    pub pinned: bool,
    pub visible: bool,
    pub closed: bool,
    pub archived: bool,
    pub has_summary: bool,
    pub category_id: Option<u64>,
    pub posters: Vec<Poster>,
}

pub struct TopicV {
    pub id: u64,
    pub title: Seq<char>,
    pub slug: Seq<char>,
    pub posts_count: u32,
    pub reply_count: u32,
    pub views: u32,
    pub like_count: u32,
    pub created_at: Seq<char>,
    pub last_posted_at: Option<Seq<char>>,
    pub pinned: bool,
    pub visible: bool,
    pub closed: bool,
    pub archived: bool,
    pub has_summary: bool,
    pub category_id: Option<u64>,
    pub posters: Seq<PosterV>,
}

impl DeepView for Topic {
    type V = TopicV;

    open spec fn deep_view(&self) -> TopicV {
        TopicV {
            id: self.id,
            title: self.title.deep_view(),
            slug: self.slug.deep_view(),
            posts_count: self.posts_count,
            reply_count: self.reply_count,
            views: self.views,
            like_count: self.like_count,
            created_at: self.created_at.deep_view(),
            last_posted_at: self.last_posted_at.deep_view(),
            pinned: self.pinned,
            visible: self.visible,
            closed: self.closed,
            archived: self.archived,
            has_summary: self.has_summary,
            category_id: self.category_id,
            posters: self.posters.deep_view(),
        }
    }
}

impl Decodable for Topic {
    open spec fn spec_decode(j: JsonV) -> Option<TopicV> {
        let id = req_u64(j, "id"@);
        let title = req_string(j, "title"@);
        let slug = req_string(j, "slug"@);
        let posts_count = req_u32(j, "posts_count"@);
        let reply_count = req_u32(j, "reply_count"@);
        let views = req_u32(j, "views"@);
        let like_count = req_u32(j, "like_count"@);
        let created_at = req_string(j, "created_at"@);
        let last_posted_at = opt_string(j, "last_posted_at"@);
        let pinned = req_bool(j, "pinned"@);
        let visible = req_bool(j, "visible"@);
        let closed = req_bool(j, "closed"@);
        let archived = req_bool(j, "archived"@);
        let has_summary = req_bool(j, "has_summary"@);
        let category_id = opt_u64(j, "category_id"@);
        let posters = req_seq::<Poster>(j, "posters"@);
        if id is Some && title is Some && slug is Some && posts_count is Some
            && reply_count is Some && views is Some && like_count is Some && created_at is Some
            && last_posted_at is Some && pinned is Some && visible is Some && closed is Some
            && archived is Some && has_summary is Some && category_id is Some && posters is Some {
            Option::Some(
                TopicV {
                    id: id->0,
                    title: title->0,
                    slug: slug->0,
                    posts_count: posts_count->0,
                    reply_count: reply_count->0,
                    views: views->0,
                    like_count: like_count->0,
                    created_at: created_at->0,
                    last_posted_at: last_posted_at->0,
                    pinned: pinned->0,
                    visible: visible->0,
                    closed: closed->0,
                    archived: archived->0,
                    has_summary: has_summary->0,
                    category_id: category_id->0,
                    posters: posters->0,
                },
            )
        } else {
            Option::None
        }
    }

    fn decode(j: &Json) -> (r: Option<Topic>) {
        let id = match get_u64(j, "id") {
            Option::Some(x) => x,
            Option::None => {
                return Option::None;
            },
        };
        let title = match get_string(j, "title") {
            Option::Some(x) => x,
            Option::None => {
                return Option::None;
            },
        };
        let slug = match get_string(j, "slug") {
            Option::Some(x) => x,
            Option::None => {
                return Option::None;
            },
        };
        let posts_count = match get_u32(j, "posts_count") {
            Option::Some(x) => x,
            Option::None => {
                return Option::None;
            },
        };
        let reply_count = match get_u32(j, "reply_count") {
            Option::Some(x) => x,
            Option::None => {
                return Option::None;
            },
        };
        let views = match get_u32(j, "views") {
            Option::Some(x) => x,
            Option::None => {
                return Option::None;
            },
        };
        let like_count = match get_u32(j, "like_count") {
            Option::Some(x) => x,
            Option::None => {
                return Option::None;
            },
        };
        let created_at = match get_string(j, "created_at") {
            Option::Some(x) => x,
            Option::None => {
                return Option::None;
            },
        };
        let last_posted_at = match get_opt_string(j, "last_posted_at") {
            Option::Some(x) => x,
            Option::None => {
                return Option::None;
            },
        };
        let pinned = match get_bool(j, "pinned") {
            Option::Some(x) => x,
            Option::None => {
                return Option::None;
            },
        };
        let visible = match get_bool(j, "visible") {
            Option::Some(x) => x,
            Option::None => {
                return Option::None;
            },
        };
        let closed = match get_bool(j, "closed") {
            Option::Some(x) => x,
            Option::None => {
                return Option::None;
            },
        };
        let archived = match get_bool(j, "archived") {
            Option::Some(x) => x,
            Option::None => {
                return Option::None;
            },
        };
        let has_summary = match get_bool(j, "has_summary") {
            Option::Some(x) => x,
            Option::None => {
                return Option::None;
            },
        };
        let category_id = match get_opt_u64(j, "category_id") {
            Option::Some(x) => x,
            Option::None => {
                return Option::None;
            },
        };
        let posters = match get_vec::<Poster>(j, "posters") {
            Option::Some(x) => x,
            Option::None => {
                return Option::None;
            },
        };
        Option::Some(
            Topic {
                id,
                title,
                slug,
                posts_count,
                reply_count,
                views,
                like_count,
                created_at,
                last_posted_at,
                pinned,
                visible,
                closed,
                archived,
                has_summary,
                category_id,
                posters,
            },
        )
    }
}

/// The list of topics inside a topic-listing response.
#[derive(Debug, Clone, PartialEq)]
pub struct TopicList {
    pub topics: Vec<Topic>,
}

pub struct TopicListV {
    pub topics: Seq<TopicV>,
}

impl DeepView for TopicList {
    type V = TopicListV;

    open spec fn deep_view(&self) -> TopicListV {
        TopicListV { topics: self.topics.deep_view() }
    }
}

impl Decodable for TopicList {
    open spec fn spec_decode(j: JsonV) -> Option<TopicListV> {
        let topics = req_seq::<Topic>(j, "topics"@);
        if topics is Some {
            Option::Some(TopicListV { topics: topics->0 })
        } else {
            Option::None
        }
    }

    fn decode(j: &Json) -> (r: Option<TopicList>) {
        let topics = match get_vec::<Topic>(j, "topics") {
            Option::Some(x) => x,
            Option::None => {
                return Option::None;
            },
        };
        Option::Some(TopicList { topics })
    }
}

/// A topic-listing response: topics plus the users they reference.
#[derive(Debug, Clone, PartialEq)]
pub struct LatestResponse {
    pub topic_list: TopicList,
    pub users: Vec<User>,
}

pub struct LatestResponseV {
    pub topic_list: TopicListV,
    pub users: Seq<UserV>,
}

impl DeepView for LatestResponse {
    type V = LatestResponseV;

    open spec fn deep_view(&self) -> LatestResponseV {
        LatestResponseV { topic_list: self.topic_list.deep_view(), users: self.users.deep_view() }
    }
}

impl Decodable for LatestResponse {
    open spec fn spec_decode(j: JsonV) -> Option<LatestResponseV> {
        let topic_list = req_record::<TopicList>(j, "topic_list"@);
        let users = req_seq::<User>(j, "users"@);
        if topic_list is Some && users is Some {
            Option::Some(LatestResponseV { topic_list: topic_list->0, users: users->0 })
        } else {
            Option::None
        }
    }

    fn decode(j: &Json) -> (r: Option<LatestResponse>) {
        let topic_list = match get_record::<TopicList>(j, "topic_list") {
            Option::Some(x) => x,
            Option::None => {
                return Option::None;
            },
        };
        let users = match get_vec::<User>(j, "users") {
            Option::Some(x) => x,
            Option::None => {
                return Option::None;
            },
        };
        Option::Some(LatestResponse { topic_list, users })
    }
}

/// A single message within a topic.
#[derive(Debug, Clone, PartialEq)]
pub struct Post {
    pub id: u64,
    pub username: String,
    pub created_at: String,
    pub cooked: String,
    pub raw: Option<String>,
    pub post_number: u32,
    pub post_type: u32,
    pub reply_count: u32,
    pub quote_count: u32,
    pub reads: u32,
    pub topic_id: u64,
}

pub struct PostV {
    pub id: u64,
    pub username: Seq<char>,
    pub created_at: Seq<char>,
    pub cooked: Seq<char>,
    pub raw: Option<Seq<char>>,
    pub post_number: u32,
    pub post_type: u32,
    pub reply_count: u32,
    pub quote_count: u32,
    pub reads: u32,
    pub topic_id: u64,
}

impl DeepView for Post {
    type V = PostV;

    open spec fn deep_view(&self) -> PostV {
        PostV {
            id: self.id,
            username: self.username.deep_view(),
            created_at: self.created_at.deep_view(),
            cooked: self.cooked.deep_view(),
            raw: self.raw.deep_view(),
            post_number: self.post_number,
            post_type: self.post_type,
            reply_count: self.reply_count,
            quote_count: self.quote_count,
            reads: self.reads,
            topic_id: self.topic_id,
        }
    }
}

impl Decodable for Post {
    open spec fn spec_decode(j: JsonV) -> Option<PostV> {
        let id = req_u64(j, "id"@);
        let username = req_string(j, "username"@);
        let created_at = req_string(j, "created_at"@);
        let cooked = req_string(j, "cooked"@);
        let raw = opt_string(j, "raw"@);
        let post_number = req_u32(j, "post_number"@);
        let post_type = req_u32(j, "post_type"@);
        let reply_count = req_u32(j, "reply_count"@);
        let quote_count = req_u32(j, "quote_count"@);
        let reads = req_u32(j, "reads"@);
        let topic_id = req_u64(j, "topic_id"@);
        if id is Some && username is Some && created_at is Some && cooked is Some && raw is Some
            && post_number is Some && post_type is Some && reply_count is Some
            && quote_count is Some && reads is Some && topic_id is Some {
            Option::Some(
                PostV {
                    id: id->0,
                    username: username->0,
                    created_at: created_at->0,
                    cooked: cooked->0,
                    raw: raw->0,
                    post_number: post_number->0,
                    post_type: post_type->0,
                    reply_count: reply_count->0,
                    quote_count: quote_count->0,
                    reads: reads->0,
                    topic_id: topic_id->0,
                },
            )
        } else {
            Option::None
        }
    }

    fn decode(j: &Json) -> (r: Option<Post>) {
        let id = match get_u64(j, "id") {
            Option::Some(x) => x,
            Option::None => {
                return Option::None;
            },
        };
        let username = match get_string(j, "username") {
            Option::Some(x) => x,
            Option::None => {
                return Option::None;
            },
        };
        let created_at = match get_string(j, "created_at") {
            Option::Some(x) => x,
            Option::None => {
                return Option::None;
            },
        };
        let cooked = match get_string(j, "cooked") {
            Option::Some(x) => x,
            Option::None => {
                return Option::None;
            },
        };
        let raw = match get_opt_string(j, "raw") {
            Option::Some(x) => x,
            Option::None => {
                return Option::None;
            },
        };
        let post_number = match get_u32(j, "post_number") {
            Option::Some(x) => x,
            Option::None => {
                return Option::None;
            },
        };
        let post_type = match get_u32(j, "post_type") {
            Option::Some(x) => x,
            Option::None => {
                return Option::None;
            },
        };
        let reply_count = match get_u32(j, "reply_count") {
            Option::Some(x) => x,
            Option::None => {
                return Option::None;
            },
        };
        let quote_count = match get_u32(j, "quote_count") {
            Option::Some(x) => x,
            Option::None => {
                return Option::None;
            },
        };
        let reads = match get_u32(j, "reads") {
            Option::Some(x) => x,
            Option::None => {
                return Option::None;
            },
        };
        let topic_id = match get_u64(j, "topic_id") {
            Option::Some(x) => x,
            Option::None => {
                return Option::None;
            },
        };
        Option::Some(
            Post {
                id,
                username,
                created_at,
                cooked,
                raw,
                post_number,
                post_type,
                reply_count,
                quote_count,
                reads,
                topic_id,
            },
        )
    }
}

/// The stream of posts embedded in a topic detail.
#[derive(Debug, Clone, PartialEq)]
pub struct PostStream {
    pub posts: Vec<Post>,
    pub stream: Vec<u64>,
}

pub struct PostStreamV {
    pub posts: Seq<PostV>,
    pub stream: Seq<u64>,
}

impl DeepView for PostStream {
    type V = PostStreamV;

    open spec fn deep_view(&self) -> PostStreamV {
        PostStreamV { posts: self.posts.deep_view(), stream: self.stream.deep_view() }
    }
}

impl Decodable for PostStream {
    open spec fn spec_decode(j: JsonV) -> Option<PostStreamV> {
        let posts = req_seq::<Post>(j, "posts"@);
        let stream = opt_seq::<u64>(j, "stream"@);
        if posts is Some && stream is Some {
            Option::Some(PostStreamV { posts: posts->0, stream: stream->0 })
        } else {
            Option::None
        }
    }

    fn decode(j: &Json) -> (r: Option<PostStream>) {
        let posts = match get_vec::<Post>(j, "posts") {
            Option::Some(x) => x,
            Option::None => {
                return Option::None;
            },
        };
        let stream = match get_opt_vec::<u64>(j, "stream") {
            Option::Some(x) => x,
            Option::None => {
                return Option::None;
            },
        };
        Option::Some(PostStream { posts, stream })
    }
}

/// A topic detail with its embedded post stream.
#[derive(Debug, Clone, PartialEq)]
pub struct TopicResponse {
    pub post_stream: PostStream,
    pub id: u64,
    pub title: Option<String>,
    pub posts_count: Option<u32>,
    pub category_id: Option<u64>,
}

pub struct TopicResponseV {
    pub post_stream: PostStreamV,
    pub id: u64,
    pub title: Option<Seq<char>>,
    pub posts_count: Option<u32>,
    pub category_id: Option<u64>,
}

impl DeepView for TopicResponse {
    type V = TopicResponseV;

    open spec fn deep_view(&self) -> TopicResponseV {
        TopicResponseV {
            post_stream: self.post_stream.deep_view(),
            id: self.id,
            title: self.title.deep_view(),
            posts_count: self.posts_count,
            category_id: self.category_id,
        }
    }
}

impl Decodable for TopicResponse {
    open spec fn spec_decode(j: JsonV) -> Option<TopicResponseV> {
        let post_stream = req_record::<PostStream>(j, "post_stream"@);
        let id = req_u64(j, "id"@);
        let title = opt_string(j, "title"@);
        let posts_count = opt_u32(j, "posts_count"@);
        let category_id = opt_u64(j, "category_id"@);
        if post_stream is Some && id is Some && title is Some && posts_count is Some
            && category_id is Some {
            Option::Some(
                TopicResponseV {
                    post_stream: post_stream->0,
                    id: id->0,
                    title: title->0,
                    posts_count: posts_count->0,
                    category_id: category_id->0,
                },
            )
        } else {
            Option::None
        }
    }

    fn decode(j: &Json) -> (r: Option<TopicResponse>) {
        let post_stream = match get_record::<PostStream>(j, "post_stream") {
            Option::Some(x) => x,
            Option::None => {
                return Option::None;
            },
        };
        let id = match get_u64(j, "id") {
            Option::Some(x) => x,
            Option::None => {
                return Option::None;
            },
        };
        let title = match get_opt_string(j, "title") {
            Option::Some(x) => x,
            Option::None => {
                return Option::None;
            },
        };
        let posts_count = match get_opt_u32(j, "posts_count") {
            Option::Some(x) => x,
            Option::None => {
                return Option::None;
            },
        };
        let category_id = match get_opt_u64(j, "category_id") {
            Option::Some(x) => x,
            Option::None => {
                return Option::None;
            },
        };
        Option::Some(TopicResponse { post_stream, id, title, posts_count, category_id })
    }
}

/// A message in a chat channel.
#[derive(Debug, Clone, PartialEq)]
pub struct ChatMessage {
    pub id: u64,
    pub message: String,
    pub cooked: String,
    pub created_at: String,
    pub user: User,
    pub chat_channel_id: u64,
    pub deleted_at: Option<String>,
    pub excerpt: Option<String>,
}

pub struct ChatMessageV {
    pub id: u64,
    pub message: Seq<char>,
    pub cooked: Seq<char>,
    pub created_at: Seq<char>,
    pub user: UserV,
    pub chat_channel_id: u64,
    pub deleted_at: Option<Seq<char>>,
    pub excerpt: Option<Seq<char>>,
}

impl DeepView for ChatMessage {
    type V = ChatMessageV;

    open spec fn deep_view(&self) -> ChatMessageV {
        ChatMessageV {
            id: self.id,
            message: self.message.deep_view(),
            cooked: self.cooked.deep_view(),
            created_at: self.created_at.deep_view(),
            user: self.user.deep_view(),
            chat_channel_id: self.chat_channel_id,
            deleted_at: self.deleted_at.deep_view(),
            excerpt: self.excerpt.deep_view(),
        }
    }
}

impl Decodable for ChatMessage {
    open spec fn spec_decode(j: JsonV) -> Option<ChatMessageV> {
        let id = req_u64(j, "id"@);
        let message = req_string(j, "message"@);
        let cooked = req_string(j, "cooked"@);
        let created_at = req_string(j, "created_at"@);
        let user = req_record::<User>(j, "user"@);
        let chat_channel_id = req_u64(j, "chat_channel_id"@);
        let deleted_at = opt_string(j, "deleted_at"@);
        let excerpt = opt_string(j, "excerpt"@);
        if id is Some && message is Some && cooked is Some && created_at is Some && user is Some
            && chat_channel_id is Some && deleted_at is Some && excerpt is Some {
            Option::Some(
                ChatMessageV {
                    id: id->0,
                    message: message->0,
                    cooked: cooked->0,
                    created_at: created_at->0,
                    user: user->0,
                    chat_channel_id: chat_channel_id->0,
                    deleted_at: deleted_at->0,
                    excerpt: excerpt->0,
                },
            )
        } else {
            Option::None
        }
    }

    fn decode(j: &Json) -> (r: Option<ChatMessage>) {
        let id = match get_u64(j, "id") {
            Option::Some(x) => x,
            Option::None => {
                return Option::None;
            },
        };
        let message = match get_string(j, "message") {
            Option::Some(x) => x,
            Option::None => {
                return Option::None;
            },
        };
        let cooked = match get_string(j, "cooked") {
            Option::Some(x) => x,
            Option::None => {
                return Option::None;
            },
        };
        let created_at = match get_string(j, "created_at") {
            Option::Some(x) => x,
            Option::None => {
                return Option::None;
            },
        };
        let user = match get_record::<User>(j, "user") {
            Option::Some(x) => x,
            Option::None => {
                return Option::None;
            },
        };
        let chat_channel_id = match get_u64(j, "chat_channel_id") {
            Option::Some(x) => x,
            Option::None => {
                return Option::None;
            },
        };
        let deleted_at = match get_opt_string(j, "deleted_at") {
            Option::Some(x) => x,
            Option::None => {
                return Option::None;
            },
        };
        let excerpt = match get_opt_string(j, "excerpt") {
            Option::Some(x) => x,
            Option::None => {
                return Option::None;
            },
        };
        Option::Some(
            ChatMessage {
                id,
                message,
                cooked,
                created_at,
                user,
                chat_channel_id,
                deleted_at,
                excerpt,
            },
        )
    }
}

/// A chat message listing with pagination hints; a missing or null `meta`
/// yields empty hints.
#[derive(Debug, Clone, PartialEq)]
pub struct ChatMessagesResponse {
    pub messages: Vec<ChatMessage>,
    pub meta: ChatMessagesMeta,
}

pub struct ChatMessagesResponseV {
    pub messages: Seq<ChatMessageV>,
    pub meta: ChatMessagesMetaV,
}

impl DeepView for ChatMessagesResponse {
    type V = ChatMessagesResponseV;

    open spec fn deep_view(&self) -> ChatMessagesResponseV {
        ChatMessagesResponseV {
            messages: self.messages.deep_view(),
            meta: self.meta.deep_view(),
        }
    }
}

impl Decodable for ChatMessagesResponse {
    open spec fn spec_decode(j: JsonV) -> Option<ChatMessagesResponseV> {
        let messages = req_seq::<ChatMessage>(j, "messages"@);
        let meta = match j_field(j, "meta"@) {
            Option::None => Option::Some(
                ChatMessagesMetaV {
                    can_load_more_past: Option::None,
                    can_load_more_future: Option::None,
                },
            ),
            Option::Some(JsonV::Null) => Option::Some(
                ChatMessagesMetaV {
                    can_load_more_past: Option::None,
                    can_load_more_future: Option::None,
                },
            ),
            Option::Some(v) => ChatMessagesMeta::spec_decode(v),
        };
        if messages is Some && meta is Some {
            Option::Some(ChatMessagesResponseV { messages: messages->0, meta: meta->0 })
        } else {
            Option::None
        }
    }

    fn decode(j: &Json) -> (r: Option<ChatMessagesResponse>) {
        let messages = match get_vec::<ChatMessage>(j, "messages") {
            Option::Some(x) => x,
            Option::None => {
                return Option::None;
            },
        };
        let meta = match obj_get(j, "meta") {
            Option::None => ChatMessagesMeta {
                can_load_more_past: Option::None,
                can_load_more_future: Option::None,
            },
            Option::Some(Json::Null) => ChatMessagesMeta {
                can_load_more_past: Option::None,
                can_load_more_future: Option::None,
            },
            Option::Some(v) => match ChatMessagesMeta::decode(v) {
                Option::Some(m) => m,
                Option::None => {
                    return Option::None;
                },
            },
        };
        Option::Some(ChatMessagesResponse { messages, meta })
    }
}

/// A chat room, public or direct-message. Fields the remote service has
/// been seen to omit are optional; free-form subobjects are kept as raw
/// JSON trees.
#[derive(Debug, PartialEq)]
pub struct ChatChannel {
    pub id: u64,
    pub title: String,
    pub slug: Option<String>,
    pub description: Option<String>,
    pub chatable_id: Option<u64>,
    pub chatable_type: Option<String>,
    pub memberships_count: Option<u32>,
    pub status: Option<String>,
    pub allow_channel_wide_mentions: Option<bool>,
    pub chatable: Option<Json>,
    pub chatable_url: Option<String>,
    pub current_user_membership: Option<Json>,
    pub icon_upload_url: Option<String>,
    pub last_message: Option<Json>,
    pub meta: Option<Json>,
    pub threading_enabled: Option<bool>,
    pub unicode_title: Option<String>,
}

pub struct ChatChannelV {
    pub id: u64,
    pub title: Seq<char>,
    pub slug: Option<Seq<char>>,
    pub description: Option<Seq<char>>,
    pub chatable_id: Option<u64>,
    pub chatable_type: Option<Seq<char>>,
    pub memberships_count: Option<u32>,
    pub status: Option<Seq<char>>,
    pub allow_channel_wide_mentions: Option<bool>,
    pub chatable: Option<JsonV>,
    pub chatable_url: Option<Seq<char>>,
    pub current_user_membership: Option<JsonV>,
    pub icon_upload_url: Option<Seq<char>>,
    pub last_message: Option<JsonV>,
    pub meta: Option<JsonV>,
    pub threading_enabled: Option<bool>,
    pub unicode_title: Option<Seq<char>>,
}

impl DeepView for ChatChannel {
    type V = ChatChannelV;

    open spec fn deep_view(&self) -> ChatChannelV {
        ChatChannelV {
            id: self.id,
            title: self.title.deep_view(),
            slug: self.slug.deep_view(),
            description: self.description.deep_view(),
            chatable_id: self.chatable_id,
            chatable_type: self.chatable_type.deep_view(),
            memberships_count: self.memberships_count,
            status: self.status.deep_view(),
            allow_channel_wide_mentions: self.allow_channel_wide_mentions,
            chatable: self.chatable.deep_view(),
            chatable_url: self.chatable_url.deep_view(),
            current_user_membership: self.current_user_membership.deep_view(),
            icon_upload_url: self.icon_upload_url.deep_view(),
            last_message: self.last_message.deep_view(),
            meta: self.meta.deep_view(),
            threading_enabled: self.threading_enabled,
            unicode_title: self.unicode_title.deep_view(),
        }
    }
}

impl Decodable for ChatChannel {
    open spec fn spec_decode(j: JsonV) -> Option<ChatChannelV> {
        let id = req_u64(j, "id"@);
        let title = req_string(j, "title"@);
        let slug = opt_string(j, "slug"@);
        let description = opt_string(j, "description"@);
        let chatable_id = opt_u64(j, "chatable_id"@);
        let chatable_type = opt_string(j, "chatable_type"@);
        let memberships_count = opt_u32(j, "memberships_count"@);
        let status = opt_string(j, "status"@);
        let allow_channel_wide_mentions = opt_bool(j, "allow_channel_wide_mentions"@);
        let chatable_url = opt_string(j, "chatable_url"@);
        let icon_upload_url = opt_string(j, "icon_upload_url"@);
        let threading_enabled = opt_bool(j, "threading_enabled"@);
        let unicode_title = opt_string(j, "unicode_title"@);
        if id is Some && title is Some && slug is Some && description is Some
            && chatable_id is Some && chatable_type is Some && memberships_count is Some
            && status is Some && allow_channel_wide_mentions is Some && chatable_url is Some
            && icon_upload_url is Some && threading_enabled is Some && unicode_title is Some {
            Option::Some(
                ChatChannelV {
                    id: id->0,
                    title: title->0,
                    slug: slug->0,
                    description: description->0,
                    chatable_id: chatable_id->0,
                    chatable_type: chatable_type->0,
                    memberships_count: memberships_count->0,
                    status: status->0,
                    allow_channel_wide_mentions: allow_channel_wide_mentions->0,
                    chatable: opt_json(j, "chatable"@),
                    chatable_url: chatable_url->0,
                    current_user_membership: opt_json(j, "current_user_membership"@),
                    icon_upload_url: icon_upload_url->0,
                    last_message: opt_json(j, "last_message"@),
                    meta: opt_json(j, "meta"@),
                    threading_enabled: threading_enabled->0,
                    unicode_title: unicode_title->0,
                },
            )
        } else {
            Option::None
        }
    }

    fn decode(j: &Json) -> (r: Option<ChatChannel>) {
        let id = match get_u64(j, "id") {
            Option::Some(x) => x,
            Option::None => {
                return Option::None;
            },
        };
        let title = match get_string(j, "title") {
            Option::Some(x) => x,
            Option::None => {
                return Option::None;
            },
        };
        let slug = match get_opt_string(j, "slug") {
            Option::Some(x) => x,
            Option::None => {
                return Option::None;
            },
        };
        let description = match get_opt_string(j, "description") {
            Option::Some(x) => x,
            Option::None => {
                return Option::None;
            },
        };
        let chatable_id = match get_opt_u64(j, "chatable_id") {
            Option::Some(x) => x,
            Option::None => {
                return Option::None;
            },
        };
        let chatable_type = match get_opt_string(j, "chatable_type") {
            Option::Some(x) => x,
            Option::None => {
                return Option::None;
            },
        };
        let memberships_count = match get_opt_u32(j, "memberships_count") {
            Option::Some(x) => x,
            Option::None => {
                return Option::None;
            },
        };
        let status = match get_opt_string(j, "status") {
            Option::Some(x) => x,
            Option::None => {
                return Option::None;
            },
        };
        let allow_channel_wide_mentions = match get_opt_bool(j, "allow_channel_wide_mentions") {
            Option::Some(x) => x,
            Option::None => {
                return Option::None;
            },
        };
        let chatable = get_opt_json(j, "chatable");
        let chatable_url = match get_opt_string(j, "chatable_url") {
            Option::Some(x) => x,
            Option::None => {
                return Option::None;
            },
        };
        let current_user_membership = get_opt_json(j, "current_user_membership");
        let icon_upload_url = match get_opt_string(j, "icon_upload_url") {
            Option::Some(x) => x,
            Option::None => {
                return Option::None;
            },
        };
        let last_message = get_opt_json(j, "last_message");
        let meta = get_opt_json(j, "meta");
        let threading_enabled = match get_opt_bool(j, "threading_enabled") {
            Option::Some(x) => x,
            Option::None => {
                return Option::None;
            },
        };
        let unicode_title = match get_opt_string(j, "unicode_title") {
            Option::Some(x) => x,
            Option::None => {
                return Option::None;
            },
        };
        Option::Some(
            ChatChannel {
                id,
                title,
                slug,
                description,
                chatable_id,
                chatable_type,
                memberships_count,
                status,
                allow_channel_wide_mentions,
                chatable,
                chatable_url,
                current_user_membership,
                icon_upload_url,
                last_message,
                meta,
                threading_enabled,
                unicode_title,
            },
        )
    }
}

/// The channels a user can see: public rooms and direct messages, plus
/// free-form bookkeeping kept as raw JSON.
#[derive(Debug, PartialEq)]
pub struct ChatChannelsResponse {
    pub public_channels: Option<Vec<ChatChannel>>,
    pub direct_message_channels: Option<Vec<ChatChannel>>,
    pub channels: Vec<ChatChannel>,
    pub meta: Option<Json>,
    pub tracking: Option<Json>,
    pub global_presence_channel_state: Option<Json>,
    pub unread_thread_overview: Option<Json>,
}

pub struct ChatChannelsResponseV {
    pub public_channels: Option<Seq<ChatChannelV>>,
    pub direct_message_channels: Option<Seq<ChatChannelV>>,
    pub channels: Seq<ChatChannelV>,
    pub meta: Option<JsonV>,
    pub tracking: Option<JsonV>,
    pub global_presence_channel_state: Option<JsonV>,
    pub unread_thread_overview: Option<JsonV>,
}

impl DeepView for ChatChannelsResponse {
    type V = ChatChannelsResponseV;

    open spec fn deep_view(&self) -> ChatChannelsResponseV {
        ChatChannelsResponseV {
            public_channels: self.public_channels.deep_view(),
            direct_message_channels: self.direct_message_channels.deep_view(),
            channels: self.channels.deep_view(),
            meta: self.meta.deep_view(),
            tracking: self.tracking.deep_view(),
            global_presence_channel_state: self.global_presence_channel_state.deep_view(),
            unread_thread_overview: self.unread_thread_overview.deep_view(),
        }
    }
}

impl Decodable for ChatChannelsResponse {
    open spec fn spec_decode(j: JsonV) -> Option<ChatChannelsResponseV> {
        let public_channels = opt_seq_opt::<ChatChannel>(j, "public_channels"@);
        let direct_message_channels = opt_seq_opt::<ChatChannel>(j, "direct_message_channels"@);
        let channels = opt_seq::<ChatChannel>(j, "channels"@);
        if public_channels is Some && direct_message_channels is Some && channels is Some {
            Option::Some(
                ChatChannelsResponseV {
                    public_channels: public_channels->0,
                    direct_message_channels: direct_message_channels->0,
                    channels: channels->0,
                    meta: opt_json(j, "meta"@),
                    tracking: opt_json(j, "tracking"@),
                    global_presence_channel_state: opt_json(
                        j,
                        "global_presence_channel_state"@,
                    ),
                    unread_thread_overview: opt_json(j, "unread_thread_overview"@),
                },
            )
        } else {
            Option::None
        }
    }

    fn decode(j: &Json) -> (r: Option<ChatChannelsResponse>) {
        let public_channels = match get_opt_vec_opt::<ChatChannel>(j, "public_channels") {
            Option::Some(x) => x,
            Option::None => {
                return Option::None;
            },
        };
        let direct_message_channels = match get_opt_vec_opt::<ChatChannel>(
            j,
            "direct_message_channels",
        ) {
            Option::Some(x) => x,
            Option::None => {
                return Option::None;
            },
        };
        let channels = match get_opt_vec::<ChatChannel>(j, "channels") {
            Option::Some(x) => x,
            Option::None => {
                return Option::None;
            },
        };
        let meta = get_opt_json(j, "meta");
        let tracking = get_opt_json(j, "tracking");
        let global_presence_channel_state = get_opt_json(j, "global_presence_channel_state");
        let unread_thread_overview = get_opt_json(j, "unread_thread_overview");
        Option::Some(
            ChatChannelsResponse {
                public_channels,
                direct_message_channels,
                channels,
                meta,
                tracking,
                global_presence_channel_state,
                unread_thread_overview,
            },
        )
    }
}

/// A user-facing event record.
#[derive(Debug, Clone, PartialEq)]
pub struct Notification {
    pub id: u64,
    pub user_id: u64,
    pub notification_type: u32,
    pub read: bool,
    pub high_priority: bool,
    pub created_at: String,
    pub post_number: Option<u32>,
    pub topic_id: Option<u64>,
    pub slug: Option<String>,
    pub fancy_title: Option<String>,
    pub data: NotificationData,
    pub acting_user_avatar_template: Option<String>,
    pub acting_user_name: Option<String>,
}

pub struct NotificationV {
    pub id: u64,
    pub user_id: u64,
    pub notification_type: u32,
    pub read: bool,
    pub high_priority: bool,
    pub created_at: Seq<char>,
    pub post_number: Option<u32>,
    pub topic_id: Option<u64>,
    pub slug: Option<Seq<char>>,
    pub fancy_title: Option<Seq<char>>,
    pub data: NotificationDataV,
    pub acting_user_avatar_template: Option<Seq<char>>,
    pub acting_user_name: Option<Seq<char>>,
}

impl DeepView for Notification {
    type V = NotificationV;

    open spec fn deep_view(&self) -> NotificationV {
        NotificationV {
            id: self.id,
            user_id: self.user_id,
            notification_type: self.notification_type,
            read: self.read,
            high_priority: self.high_priority,
            created_at: self.created_at.deep_view(),
            post_number: self.post_number,
            topic_id: self.topic_id,
            slug: self.slug.deep_view(),
            fancy_title: self.fancy_title.deep_view(),
            data: self.data.deep_view(),
            acting_user_avatar_template: self.acting_user_avatar_template.deep_view(),
            acting_user_name: self.acting_user_name.deep_view(),
        }
    }
}

impl Decodable for Notification {
    open spec fn spec_decode(j: JsonV) -> Option<NotificationV> {
        let id = req_u64(j, "id"@);
        let user_id = req_u64(j, "user_id"@);
        let notification_type = req_u32(j, "notification_type"@);
        let read = req_bool(j, "read"@);
        let high_priority = req_bool(j, "high_priority"@);
        let created_at = req_string(j, "created_at"@);
        let post_number = opt_u32(j, "post_number"@);
        let topic_id = opt_u64(j, "topic_id"@);
        let slug = opt_string(j, "slug"@);
        let fancy_title = opt_string(j, "fancy_title"@);
        let data = match j_field(j, "data"@) {
            Option::None => Option::Some(
                NotificationDataV {
                    topic_title: Option::None,
                    original_username: Option::None,
                    display_username: Option::None,
                    display_name: Option::None,
                },
            ),
            Option::Some(JsonV::Null) => Option::Some(
                NotificationDataV {
                    topic_title: Option::None,
                    original_username: Option::None,
                    display_username: Option::None,
                    display_name: Option::None,
                },
            ),
            Option::Some(v) => NotificationData::spec_decode(v),
        };
        let acting_user_avatar_template = opt_string(j, "acting_user_avatar_template"@);
        let acting_user_name = opt_string(j, "acting_user_name"@);
        if id is Some && user_id is Some && notification_type is Some && read is Some
            && high_priority is Some && created_at is Some && post_number is Some
            && topic_id is Some && slug is Some && fancy_title is Some && data is Some
            && acting_user_avatar_template is Some && acting_user_name is Some {
            Option::Some(
                NotificationV {
                    id: id->0,
                    user_id: user_id->0,
                    notification_type: notification_type->0,
                    read: read->0,
                    high_priority: high_priority->0,
                    created_at: created_at->0,
                    post_number: post_number->0,
                    topic_id: topic_id->0,
                    slug: slug->0,
                    fancy_title: fancy_title->0,
                    data: data->0,
                    acting_user_avatar_template: acting_user_avatar_template->0,
                    acting_user_name: acting_user_name->0,
                },
            )
        } else {
            Option::None
        }
    }

    fn decode(j: &Json) -> (r: Option<Notification>) {
        let id = match get_u64(j, "id") {
            Option::Some(x) => x,
            Option::None => {
                return Option::None;
            },
        };
        let user_id = match get_u64(j, "user_id") {
            Option::Some(x) => x,
            Option::None => {
                return Option::None;
            },
        };
        let notification_type = match get_u32(j, "notification_type") {
            Option::Some(x) => x,
            Option::None => {
                return Option::None;
            },
        };
        let read = match get_bool(j, "read") {
            Option::Some(x) => x,
            Option::None => {
                return Option::None;
            },
        };
        let high_priority = match get_bool(j, "high_priority") {
            Option::Some(x) => x,
            Option::None => {
                return Option::None;
            },
        };
        let created_at = match get_string(j, "created_at") {
            Option::Some(x) => x,
            Option::None => {
                return Option::None;
            },
        };
        let post_number = match get_opt_u32(j, "post_number") {
            Option::Some(x) => x,
            Option::None => {
                return Option::None;
            },
        };
        let topic_id = match get_opt_u64(j, "topic_id") {
            Option::Some(x) => x,
            Option::None => {
                return Option::None;
            },
        };
        let slug = match get_opt_string(j, "slug") {
            Option::Some(x) => x,
            Option::None => {
                return Option::None;
            },
        };
        let fancy_title = match get_opt_string(j, "fancy_title") {
            Option::Some(x) => x,
            Option::None => {
                return Option::None;
            },
        };
        let data = match obj_get(j, "data") {
            Option::None => NotificationData {
                topic_title: Option::None,
                original_username: Option::None,
                display_username: Option::None,
                display_name: Option::None,
            },
            Option::Some(Json::Null) => NotificationData {
                topic_title: Option::None,
                original_username: Option::None,
                display_username: Option::None,
                display_name: Option::None,
            },
            Option::Some(v) => match NotificationData::decode(v) {
                Option::Some(d) => d,
                Option::None => {
                    return Option::None;
                },
            },
        };
        let acting_user_avatar_template = match get_opt_string(j, "acting_user_avatar_template") {
            Option::Some(x) => x,
            Option::None => {
                return Option::None;
            },
        };
        let acting_user_name = match get_opt_string(j, "acting_user_name") {
            Option::Some(x) => x,
            Option::None => {
                return Option::None;
            },
        };
        Option::Some(
            Notification {
                id,
                user_id,
                notification_type,
                read,
                high_priority,
                created_at,
                post_number,
                topic_id,
                slug,
                fancy_title,
                data,
                acting_user_avatar_template,
                acting_user_name,
            },
        )
    }
}

/// The notification listing.
#[derive(Debug, Clone, PartialEq)]
pub struct NotificationsResponse {
    pub notifications: Vec<Notification>,
}

pub struct NotificationsResponseV {
    pub notifications: Seq<NotificationV>,
}

impl DeepView for NotificationsResponse {
    type V = NotificationsResponseV;

    open spec fn deep_view(&self) -> NotificationsResponseV {
        NotificationsResponseV { notifications: self.notifications.deep_view() }
    }
}

impl Decodable for NotificationsResponse {
    open spec fn spec_decode(j: JsonV) -> Option<NotificationsResponseV> {
        let notifications = req_seq::<Notification>(j, "notifications"@);
        if notifications is Some {
            Option::Some(NotificationsResponseV { notifications: notifications->0 })
        } else {
            Option::None
        }
    }

    fn decode(j: &Json) -> (r: Option<NotificationsResponse>) {
        let notifications = match get_vec::<Notification>(j, "notifications") {
            Option::Some(x) => x,
            Option::None => {
                return Option::None;
            },
        };
        Option::Some(NotificationsResponse { notifications })
    }
}

} // verus!
