//! Encoders for the records, each proved to round-trip through its
//! decoder: decoding what was encoded gives back the record, field for
//! field. An absent optional field is encoded as null, which the decoders
//! read back as absence.

use vstd::prelude::*;

use crate::json::{
    Decodable, Json, JsonV, json_deep_copy, json_u64, jview, jview_pairs, jviews,
    lemma_jview_arr, lemma_jview_obj, spec_decode_seq, spec_json_u64,
};
use crate::types::{
    Category, CategoryList, CategoryListData, ChatMessage, ChatMessagesMeta,
    ChatMessagesResponse, CreateMessageResponse, CreatePostResponse, ErrorResponse,
    LatestResponse, Notification, NotificationData, NotificationsResponse, Post, PostStream,
    Poster, Topic, TopicList, TopicResponse, User,
};
use crate::types::ChatChannel;

verus! {

broadcast use
    vstd::std_specs::vec::group_vec_axioms,
    vstd::seq::group_seq_axioms,
    vstd::string::group_string_axioms;

/// A type whose values can be written as JSON that its own decoder reads
/// back unchanged.
pub trait Encodable: Decodable {
    /// Encode one value; decoding the result gives the value back.
    fn encode(&self) -> (r: Json)
        ensures
            Self::spec_decode(jview(r)) == Option::Some(self.deep_view()),
    ;
}

impl Encodable for String {
    fn encode(&self) -> (r: Json) {
        Json::Str(self.clone())
    }
}

impl Encodable for u64 {
    fn encode(&self) -> (r: Json) {
        json_u64(*self)
    }
}

/// Encode a list as a JSON array whose elements decode back to the same
/// entries.
pub fn encode_vec<T: Encodable>(v: &Vec<T>) -> (r: Json)
    ensures
        jview(r) matches JsonV::Arr(items) && spec_decode_seq::<T>(items) == Option::Some(
            v.deep_view(),
        ),
{
    let mut out: Vec<Json> = Vec::new();
    let mut i: usize = 0;
    proof {
        assert(jviews(out@) =~= Seq::<JsonV>::empty());
        assert(v.deep_view().subrange(0, 0) =~= Seq::<T::V>::empty());
    }
    while i < v.len()
        invariant
            i <= v.len(),
            v.deep_view().len() == v.len(),
            spec_decode_seq::<T>(jviews(out@)) == Option::Some(
                v.deep_view().subrange(0, i as int),
            ),
        decreases v.len() - i,
    {
        let ghost prev = jviews(out@);
        let enc = v[i].encode();
        out.push(enc);
        i = i + 1;
        proof {
            assert(jviews(out@) =~= prev.push(jview(enc)));
            assert(jviews(out@).drop_last() =~= prev);
            assert(v.deep_view().subrange(0, i as int).drop_last() =~= v.deep_view().subrange(
                0,
                i as int - 1,
            ));
            assert(v.deep_view().subrange(0, i as int).last() == v.deep_view()[i as int - 1]);
        }
    }
    proof {
        assert(v.deep_view().subrange(0, v.len() as int) =~= v.deep_view());
        lemma_jview_arr(out);
    }
    Json::Arr(out)
}

/// An optional string as a JSON value: null when absent.
pub open spec fn spec_opt_string_json(o: Option<Seq<char>>) -> JsonV {
    match o {
        Option::Some(s) => JsonV::Str(s),
        Option::None => JsonV::Null,
    }
}

fn opt_string_json(o: &Option<String>) -> (r: Json)
    ensures
        jview(r) == spec_opt_string_json(o.deep_view()),
{
    match o {
        Option::Some(s) => Json::Str(s.clone()),
        Option::None => Json::Null,
    }
}

/// An optional integer as a JSON value: null when absent.
pub open spec fn spec_opt_u64_json(o: Option<u64>) -> JsonV {
    match o {
        Option::Some(n) => spec_json_u64(n),
        Option::None => JsonV::Null,
    }
}

fn opt_u64_json(o: &Option<u64>) -> (r: Json)
    ensures
        jview(r) == spec_opt_u64_json(*o),
{
    match o {
        Option::Some(n) => json_u64(*n),
        Option::None => Json::Null,
    }
}

/// An optional counter as a JSON value: null when absent.
pub open spec fn spec_opt_u32_json(o: Option<u32>) -> JsonV {
    match o {
        Option::Some(n) => JsonV::Int(n as i64),
        Option::None => JsonV::Null,
    }
}

fn opt_u32_json(o: &Option<u32>) -> (r: Json)
    ensures
        jview(r) == spec_opt_u32_json(*o),
{
    match o {
        Option::Some(n) => Json::Int(*n as i64),
        Option::None => Json::Null,
    }
}

/// An optional boolean as a JSON value: null when absent.
pub open spec fn spec_opt_bool_json(o: Option<bool>) -> JsonV {
    match o {
        Option::Some(b) => JsonV::Bool(b),
        Option::None => JsonV::Null,
    }
}

fn opt_bool_json(o: &Option<bool>) -> (r: Json)
    ensures
        jview(r) == spec_opt_bool_json(*o),
{
    match o {
        Option::Some(b) => Json::Bool(*b),
        Option::None => Json::Null,
    }
}


impl Encodable for Category {
    fn encode(&self) -> (r: Json) {
        let mut fields: Vec<(String, Json)> = Vec::new();
        fields.push(("id".to_owned(), json_u64(self.id)));
        fields.push(("name".to_owned(), Json::Str(self.name.clone())));
        fields.push(("color".to_owned(), Json::Str(self.color.clone())));
        fields.push(("text_color".to_owned(), Json::Str(self.text_color.clone())));
        fields.push(("slug".to_owned(), Json::Str(self.slug.clone())));
        fields.push(("topic_count".to_owned(), Json::Int(self.topic_count as i64)));
        fields.push(("description".to_owned(), opt_string_json(&self.description)));
        fields.push(("description_text".to_owned(), opt_string_json(&self.description_text)));
        fields.push(("has_children".to_owned(), opt_bool_json(&self.has_children)));
        fields.push(("parent_category_id".to_owned(), opt_u64_json(&self.parent_category_id)));
        proof {
            reveal_strlit("id");
            reveal_strlit("name");
            reveal_strlit("color");
            reveal_strlit("text_color");
            reveal_strlit("slug");
            reveal_strlit("topic_count");
            reveal_strlit("description");
            reveal_strlit("description_text");
            reveal_strlit("has_children");
            reveal_strlit("parent_category_id");
            lemma_jview_obj(fields);
            reveal_with_fuel(crate::json::j_get_from, 12);
            assert(jview_pairs(fields@) =~= seq![
                ("id"@, spec_json_u64(self.id)),
                ("name"@, JsonV::Str(self.name@)),
                ("color"@, JsonV::Str(self.color@)),
                ("text_color"@, JsonV::Str(self.text_color@)),
                ("slug"@, JsonV::Str(self.slug@)),
                ("topic_count"@, JsonV::Int(self.topic_count as i64)),
                ("description"@, spec_opt_string_json(self.description.deep_view())),
                ("description_text"@, spec_opt_string_json(self.description_text.deep_view())),
                ("has_children"@, spec_opt_bool_json(self.has_children)),
                ("parent_category_id"@, spec_opt_u64_json(self.parent_category_id)),
            ]);
            assert(("id"@).len() == 2);
            assert(("name"@).len() == 4);
            assert(("color"@).len() == 5);
            assert(("text_color"@).len() == 10);
            assert(("slug"@).len() == 4);
            assert(("topic_count"@).len() == 11);
            assert(("description"@).len() == 11);
            assert(("description_text"@).len() == 16);
            assert(("has_children"@).len() == 12);
            assert(("parent_category_id"@).len() == 18);
            assert(("name"@)[0] == 'n' && ("slug"@)[0] == 's');
            assert(("topic_count"@)[0] == 't' && ("description"@)[0] == 'd');
            assert("name"@ != "slug"@);
            assert("topic_count"@ != "description"@);
            let jv = JsonV::Obj(jview_pairs(fields@));
            assert(jview(Json::Obj(fields)) == jv);
            assert(crate::json::req_u64(jv, "id"@) == Option::Some(self.id));
            assert(crate::json::req_string(jv, "name"@) == Option::Some(self.name@));
            assert(crate::json::req_string(jv, "color"@) == Option::Some(self.color@));
            assert(crate::json::req_string(jv, "text_color"@) == Option::Some(self.text_color@));
            assert(crate::json::req_string(jv, "slug"@) == Option::Some(self.slug@));
            assert(crate::json::req_u32(jv, "topic_count"@) == Option::Some(self.topic_count));
            assert(crate::json::opt_string(jv, "description"@) == Option::Some(
                self.description.deep_view(),
            ));
            assert(crate::json::opt_string(jv, "description_text"@) == Option::Some(
                self.description_text.deep_view(),
            ));
            assert(crate::json::opt_bool(jv, "has_children"@) == Option::Some(self.has_children));
            assert(crate::json::opt_u64(jv, "parent_category_id"@) == Option::Some(
                self.parent_category_id,
            ));
            assert(Category::spec_decode(jv) == Option::Some(self.deep_view()));
        }
        Json::Obj(fields)
    }
}

impl Encodable for ErrorResponse {
    fn encode(&self) -> (r: Json) {
        let mut fields: Vec<(String, Json)> = Vec::new();
        fields.push(("errors".to_owned(), encode_vec(&self.errors)));
        fields.push(("error_type".to_owned(), opt_string_json(&self.error_type)));
        proof {
            reveal_strlit("errors");
            reveal_strlit("error_type");
            assert(("errors"@).len() == 6);
            assert(("error_type"@).len() == 10);
            lemma_jview_obj(fields);
            reveal_with_fuel(crate::json::j_get_from, 4);
            assert(jview_pairs(fields@) =~= seq![
                ("errors"@, jview(fields@[0].1)),
                ("error_type"@, spec_opt_string_json(self.error_type.deep_view())),
            ]);
            let jv = JsonV::Obj(jview_pairs(fields@));
            assert(crate::json::req_seq::<String>(jv, "errors"@) == Option::Some(
                self.errors.deep_view(),
            ));
            assert(crate::json::opt_string(jv, "error_type"@) == Option::Some(
                self.error_type.deep_view(),
            ));
            assert(ErrorResponse::spec_decode(jv) == Option::Some(self.deep_view()));
        }
        Json::Obj(fields)
    }
}

impl Encodable for User {
    fn encode(&self) -> (r: Json) {
        let mut fields: Vec<(String, Json)> = Vec::new();
        fields.push(("id".to_owned(), Json::Int(self.id)));
        fields.push(("username".to_owned(), Json::Str(self.username.clone())));
        fields.push(("name".to_owned(), opt_string_json(&self.name)));
        fields.push(("avatar_template".to_owned(), Json::Str(self.avatar_template.clone())));
        proof {
            reveal_strlit("id");
            reveal_strlit("username");
            reveal_strlit("name");
            reveal_strlit("avatar_template");
            assert(("id"@).len() == 2);
            assert(("username"@).len() == 8);
            assert(("name"@).len() == 4);
            assert(("avatar_template"@).len() == 15);
            lemma_jview_obj(fields);
            reveal_with_fuel(crate::json::j_get_from, 6);
            assert(jview_pairs(fields@) =~= seq![
                ("id"@, JsonV::Int(self.id)),
                ("username"@, JsonV::Str(self.username@)),
                ("name"@, spec_opt_string_json(self.name.deep_view())),
                ("avatar_template"@, JsonV::Str(self.avatar_template@)),
            ]);
            let jv = JsonV::Obj(jview_pairs(fields@));
            assert(crate::json::req_i64(jv, "id"@) == Option::Some(self.id));
            assert(crate::json::req_string(jv, "username"@) == Option::Some(self.username@));
            assert(crate::json::opt_string(jv, "name"@) == Option::Some(self.name.deep_view()));
            assert(crate::json::req_string(jv, "avatar_template"@) == Option::Some(
                self.avatar_template@,
            ));
            assert(User::spec_decode(jv) == Option::Some(self.deep_view()));
        }
        Json::Obj(fields)
    }
}

impl Encodable for Poster {
    fn encode(&self) -> (r: Json) {
        let mut fields: Vec<(String, Json)> = Vec::new();
        fields.push(("user_id".to_owned(), Json::Int(self.user_id)));
        fields.push(("description".to_owned(), Json::Str(self.description.clone())));
        fields.push(("extras".to_owned(), opt_string_json(&self.extras)));
        fields.push(("primary_group_id".to_owned(), opt_u64_json(&self.primary_group_id)));
        fields.push(("flair_group_id".to_owned(), opt_u64_json(&self.flair_group_id)));
        proof {
            reveal_strlit("user_id");
            reveal_strlit("description");
            reveal_strlit("extras");
            reveal_strlit("primary_group_id");
            reveal_strlit("flair_group_id");
            assert(("user_id"@).len() == 7);
            assert(("description"@).len() == 11);
            assert(("extras"@).len() == 6);
            assert(("primary_group_id"@).len() == 16);
            assert(("flair_group_id"@).len() == 14);
            lemma_jview_obj(fields);
            reveal_with_fuel(crate::json::j_get_from, 7);
            assert(jview_pairs(fields@) =~= seq![
                ("user_id"@, JsonV::Int(self.user_id)),
                ("description"@, JsonV::Str(self.description@)),
                ("extras"@, spec_opt_string_json(self.extras.deep_view())),
                ("primary_group_id"@, spec_opt_u64_json(self.primary_group_id)),
                ("flair_group_id"@, spec_opt_u64_json(self.flair_group_id)),
            ]);
            let jv = JsonV::Obj(jview_pairs(fields@));
            assert(crate::json::req_i64(jv, "user_id"@) == Option::Some(self.user_id));
            assert(crate::json::req_string(jv, "description"@) == Option::Some(self.description@));
            assert(crate::json::opt_string(jv, "extras"@) == Option::Some(self.extras.deep_view()));
            assert(crate::json::opt_u64(jv, "primary_group_id"@) == Option::Some(
                self.primary_group_id,
            ));
            assert(crate::json::opt_u64(jv, "flair_group_id"@) == Option::Some(self.flair_group_id));
            assert(Poster::spec_decode(jv) == Option::Some(self.deep_view()));
        }
        Json::Obj(fields)
    }
}

impl Encodable for CreateMessageResponse {
    fn encode(&self) -> (r: Json) {
        let mut fields: Vec<(String, Json)> = Vec::new();
        fields.push(("success".to_owned(), Json::Str(self.success.clone())));
        fields.push(("message_id".to_owned(), json_u64(self.message_id)));
        proof {
            reveal_strlit("success");
            reveal_strlit("message_id");
            assert(("success"@).len() == 7);
            assert(("message_id"@).len() == 10);
            lemma_jview_obj(fields);
            reveal_with_fuel(crate::json::j_get_from, 4);
            assert(jview_pairs(fields@) =~= seq![
                ("success"@, JsonV::Str(self.success@)),
                ("message_id"@, spec_json_u64(self.message_id)),
            ]);
            let jv = JsonV::Obj(jview_pairs(fields@));
            assert(crate::json::req_string(jv, "success"@) == Option::Some(self.success@));
            assert(crate::json::req_u64(jv, "message_id"@) == Option::Some(self.message_id));
            assert(CreateMessageResponse::spec_decode(jv) == Option::Some(self.deep_view()));
        }
        Json::Obj(fields)
    }
}

impl Encodable for CreatePostResponse {
    fn encode(&self) -> (r: Json) {
        let mut fields: Vec<(String, Json)> = Vec::new();
        fields.push(("id".to_owned(), json_u64(self.id)));
        fields.push(("name".to_owned(), opt_string_json(&self.name)));
        fields.push(("username".to_owned(), Json::Str(self.username.clone())));
        fields.push(("avatar_template".to_owned(), Json::Str(self.avatar_template.clone())));
        fields.push(("created_at".to_owned(), Json::Str(self.created_at.clone())));
        fields.push(("cooked".to_owned(), Json::Str(self.cooked.clone())));
        fields.push(("post_number".to_owned(), Json::Int(self.post_number as i64)));
        fields.push(("post_type".to_owned(), Json::Int(self.post_type as i64)));
        fields.push(("updated_at".to_owned(), Json::Str(self.updated_at.clone())));
        fields.push(("reply_count".to_owned(), Json::Int(self.reply_count as i64)));
        fields.push(("reply_to_post_number".to_owned(), opt_u32_json(&self.reply_to_post_number)));
        fields.push(("quote_count".to_owned(), Json::Int(self.quote_count as i64)));
        fields.push(("topic_id".to_owned(), json_u64(self.topic_id)));
        fields.push(("topic_slug".to_owned(), Json::Str(self.topic_slug.clone())));
        proof {
            reveal_strlit("id");
            reveal_strlit("name");
            reveal_strlit("username");
            reveal_strlit("avatar_template");
            reveal_strlit("created_at");
            reveal_strlit("cooked");
            reveal_strlit("post_number");
            reveal_strlit("post_type");
            reveal_strlit("updated_at");
            reveal_strlit("reply_count");
            reveal_strlit("reply_to_post_number");
            reveal_strlit("quote_count");
            reveal_strlit("topic_id");
            reveal_strlit("topic_slug");
            assert(("id"@).len() == 2);
            assert(("name"@).len() == 4);
            assert(("username"@).len() == 8);
            assert(("avatar_template"@).len() == 15);
            assert(("created_at"@).len() == 10);
            assert(("cooked"@).len() == 6);
            assert(("post_number"@).len() == 11);
            assert(("post_type"@).len() == 9);
            assert(("updated_at"@).len() == 10);
            assert(("reply_count"@).len() == 11);
            assert(("reply_to_post_number"@).len() == 20);
            assert(("quote_count"@).len() == 11);
            assert(("topic_id"@).len() == 8);
            assert(("topic_slug"@).len() == 10);
            assert(("created_at"@)[0] == 'c' && ("updated_at"@)[0] == 'u' && ("topic_slug"@)[0]
                == 't');
            assert(("post_number"@)[0] == 'p' && ("reply_count"@)[0] == 'r' && ("quote_count"@)[0]
                == 'q');
            assert(("username"@)[0] == 'u' && ("topic_id"@)[0] == 't');
            assert("created_at"@ != "updated_at"@ && "created_at"@ != "topic_slug"@ && "updated_at"@
                != "topic_slug"@);
            assert("post_number"@ != "reply_count"@ && "post_number"@ != "quote_count"@
                && "reply_count"@ != "quote_count"@);
            assert("username"@ != "topic_id"@);
            lemma_jview_obj(fields);
            reveal_with_fuel(crate::json::j_get_from, 16);
            assert(jview_pairs(fields@) =~= seq![
                ("id"@, spec_json_u64(self.id)),
                ("name"@, spec_opt_string_json(self.name.deep_view())),
                ("username"@, JsonV::Str(self.username@)),
                ("avatar_template"@, JsonV::Str(self.avatar_template@)),
                ("created_at"@, JsonV::Str(self.created_at@)),
                ("cooked"@, JsonV::Str(self.cooked@)),
                ("post_number"@, JsonV::Int(self.post_number as i64)),
                ("post_type"@, JsonV::Int(self.post_type as i64)),
                ("updated_at"@, JsonV::Str(self.updated_at@)),
                ("reply_count"@, JsonV::Int(self.reply_count as i64)),
                ("reply_to_post_number"@, spec_opt_u32_json(self.reply_to_post_number)),
                ("quote_count"@, JsonV::Int(self.quote_count as i64)),
                ("topic_id"@, spec_json_u64(self.topic_id)),
                ("topic_slug"@, JsonV::Str(self.topic_slug@)),
            ]);
            let jv = JsonV::Obj(jview_pairs(fields@));
            assert(crate::json::req_u64(jv, "id"@) == Option::Some(self.id));
            assert(crate::json::opt_string(jv, "name"@) == Option::Some(self.name.deep_view()));
            assert(crate::json::req_string(jv, "username"@) == Option::Some(self.username@));
            assert(crate::json::req_string(jv, "avatar_template"@) == Option::Some(
                self.avatar_template@,
            ));
            assert(crate::json::req_string(jv, "created_at"@) == Option::Some(self.created_at@));
            assert(crate::json::req_string(jv, "cooked"@) == Option::Some(self.cooked@));
            assert(crate::json::req_u32(jv, "post_number"@) == Option::Some(self.post_number));
            assert(crate::json::req_u32(jv, "post_type"@) == Option::Some(self.post_type));
            assert(crate::json::req_string(jv, "updated_at"@) == Option::Some(self.updated_at@));
            assert(crate::json::req_u32(jv, "reply_count"@) == Option::Some(self.reply_count));
            assert(crate::json::opt_u32(jv, "reply_to_post_number"@) == Option::Some(
                self.reply_to_post_number,
            ));
            assert(crate::json::req_u32(jv, "quote_count"@) == Option::Some(self.quote_count));
            assert(crate::json::req_u64(jv, "topic_id"@) == Option::Some(self.topic_id));
            assert(crate::json::req_string(jv, "topic_slug"@) == Option::Some(self.topic_slug@));
            assert(CreatePostResponse::spec_decode(jv) == Option::Some(self.deep_view()));
        }
        Json::Obj(fields)
    }
}

impl Encodable for ChatMessagesMeta {
    fn encode(&self) -> (r: Json) {
        let mut fields: Vec<(String, Json)> = Vec::new();
        fields.push(("can_load_more_past".to_owned(), opt_bool_json(&self.can_load_more_past)));
        fields.push(("can_load_more_future".to_owned(), opt_bool_json(&self.can_load_more_future)));
        proof {
            reveal_strlit("can_load_more_past");
            reveal_strlit("can_load_more_future");
            assert(("can_load_more_past"@).len() == 18);
            assert(("can_load_more_future"@).len() == 20);
            lemma_jview_obj(fields);
            reveal_with_fuel(crate::json::j_get_from, 4);
            assert(jview_pairs(fields@) =~= seq![
                ("can_load_more_past"@, spec_opt_bool_json(self.can_load_more_past)),
                ("can_load_more_future"@, spec_opt_bool_json(self.can_load_more_future)),
            ]);
            let jv = JsonV::Obj(jview_pairs(fields@));
            assert(crate::json::opt_bool(jv, "can_load_more_past"@) == Option::Some(
                self.can_load_more_past,
            ));
            assert(crate::json::opt_bool(jv, "can_load_more_future"@) == Option::Some(
                self.can_load_more_future,
            ));
            assert(ChatMessagesMeta::spec_decode(jv) == Option::Some(self.deep_view()));
        }
        Json::Obj(fields)
    }
}

impl Encodable for NotificationData {
    fn encode(&self) -> (r: Json) {
        let mut fields: Vec<(String, Json)> = Vec::new();
        fields.push(("topic_title".to_owned(), opt_string_json(&self.topic_title)));
        fields.push(("original_username".to_owned(), opt_string_json(&self.original_username)));
        fields.push(("display_username".to_owned(), opt_string_json(&self.display_username)));
        fields.push(("display_name".to_owned(), opt_string_json(&self.display_name)));
        proof {
            reveal_strlit("topic_title");
            reveal_strlit("original_username");
            reveal_strlit("display_username");
            reveal_strlit("display_name");
            assert(("topic_title"@).len() == 11);
            assert(("original_username"@).len() == 17);
            assert(("display_username"@).len() == 16);
            assert(("display_name"@).len() == 12);
            lemma_jview_obj(fields);
            reveal_with_fuel(crate::json::j_get_from, 6);
            assert(jview_pairs(fields@) =~= seq![
                ("topic_title"@, spec_opt_string_json(self.topic_title.deep_view())),
                ("original_username"@, spec_opt_string_json(self.original_username.deep_view())),
                ("display_username"@, spec_opt_string_json(self.display_username.deep_view())),
                ("display_name"@, spec_opt_string_json(self.display_name.deep_view())),
            ]);
            let jv = JsonV::Obj(jview_pairs(fields@));
            assert(crate::json::opt_string(jv, "topic_title"@) == Option::Some(
                self.topic_title.deep_view(),
            ));
            assert(crate::json::opt_string(jv, "original_username"@) == Option::Some(
                self.original_username.deep_view(),
            ));
            assert(crate::json::opt_string(jv, "display_username"@) == Option::Some(
                self.display_username.deep_view(),
            ));
            assert(crate::json::opt_string(jv, "display_name"@) == Option::Some(
                self.display_name.deep_view(),
            ));
            assert(NotificationData::spec_decode(jv) == Option::Some(self.deep_view()));
        }
        Json::Obj(fields)
    }
}

impl Encodable for Topic {
    fn encode(&self) -> (r: Json) {
        let mut fields: Vec<(String, Json)> = Vec::new();
        fields.push(("id".to_owned(), json_u64(self.id)));
        fields.push(("title".to_owned(), Json::Str(self.title.clone())));
        fields.push(("slug".to_owned(), Json::Str(self.slug.clone())));
        fields.push(("posts_count".to_owned(), Json::Int(self.posts_count as i64)));
        fields.push(("reply_count".to_owned(), Json::Int(self.reply_count as i64)));
        fields.push(("views".to_owned(), Json::Int(self.views as i64)));
        fields.push(("like_count".to_owned(), Json::Int(self.like_count as i64)));
        fields.push(("created_at".to_owned(), Json::Str(self.created_at.clone())));
        fields.push(("last_posted_at".to_owned(), opt_string_json(&self.last_posted_at)));
        fields.push(("pinned".to_owned(), Json::Bool(self.pinned)));
        fields.push(("visible".to_owned(), Json::Bool(self.visible)));
        fields.push(("closed".to_owned(), Json::Bool(self.closed)));
        fields.push(("archived".to_owned(), Json::Bool(self.archived)));
        fields.push(("has_summary".to_owned(), Json::Bool(self.has_summary)));
        fields.push(("category_id".to_owned(), opt_u64_json(&self.category_id)));
        let posters_json = encode_vec(&self.posters);
        fields.push(("posters".to_owned(), posters_json));
        proof {
            reveal_strlit("id");
            reveal_strlit("title");
            reveal_strlit("slug");
            reveal_strlit("posts_count");
            reveal_strlit("reply_count");
            reveal_strlit("views");
            reveal_strlit("like_count");
            reveal_strlit("created_at");
            reveal_strlit("last_posted_at");
            reveal_strlit("pinned");
            reveal_strlit("visible");
            reveal_strlit("closed");
            reveal_strlit("archived");
            reveal_strlit("has_summary");
            reveal_strlit("category_id");
            reveal_strlit("posters");
            assert(("id"@).len() == 2);
            assert(("title"@).len() == 5);
            assert(("slug"@).len() == 4);
            assert(("posts_count"@).len() == 11);
            assert(("reply_count"@).len() == 11);
            assert(("views"@).len() == 5);
            assert(("like_count"@).len() == 10);
            assert(("created_at"@).len() == 10);
            assert(("last_posted_at"@).len() == 14);
            assert(("pinned"@).len() == 6);
            assert(("visible"@).len() == 7);
            assert(("closed"@).len() == 6);
            assert(("archived"@).len() == 8);
            assert(("has_summary"@).len() == 11);
            assert(("category_id"@).len() == 11);
            assert(("posters"@).len() == 7);
            assert(("title"@)[0] == 't' && ("views"@)[0] == 'v');
            assert(("posts_count"@)[0] == 'p' && ("reply_count"@)[0] == 'r' && ("has_summary"@)[0]
                == 'h' && ("category_id"@)[0] == 'c');
            assert(("like_count"@)[0] == 'l' && ("created_at"@)[0] == 'c');
            assert(("pinned"@)[0] == 'p' && ("closed"@)[0] == 'c');
            assert(("visible"@)[0] == 'v' && ("posters"@)[0] == 'p');
            assert("title"@ != "views"@);
            assert("posts_count"@ != "reply_count"@ && "posts_count"@ != "has_summary"@
                && "posts_count"@ != "category_id"@);
            assert("reply_count"@ != "has_summary"@ && "reply_count"@ != "category_id"@);
            assert("has_summary"@ != "category_id"@);
            assert("like_count"@ != "created_at"@);
            assert("pinned"@ != "closed"@);
            assert("visible"@ != "posters"@);
            lemma_jview_obj(fields);
            reveal_with_fuel(crate::json::j_get_from, 18);
            assert(jview_pairs(fields@) =~= seq![
                ("id"@, spec_json_u64(self.id)),
                ("title"@, JsonV::Str(self.title@)),
                ("slug"@, JsonV::Str(self.slug@)),
                ("posts_count"@, JsonV::Int(self.posts_count as i64)),
                ("reply_count"@, JsonV::Int(self.reply_count as i64)),
                ("views"@, JsonV::Int(self.views as i64)),
                ("like_count"@, JsonV::Int(self.like_count as i64)),
                ("created_at"@, JsonV::Str(self.created_at@)),
                ("last_posted_at"@, spec_opt_string_json(self.last_posted_at.deep_view())),
                ("pinned"@, JsonV::Bool(self.pinned)),
                ("visible"@, JsonV::Bool(self.visible)),
                ("closed"@, JsonV::Bool(self.closed)),
                ("archived"@, JsonV::Bool(self.archived)),
                ("has_summary"@, JsonV::Bool(self.has_summary)),
                ("category_id"@, spec_opt_u64_json(self.category_id)),
                ("posters"@, jview(posters_json)),
            ]);
            let jv = JsonV::Obj(jview_pairs(fields@));
            assert(crate::json::req_u64(jv, "id"@) == Option::Some(self.id));
            assert(crate::json::req_string(jv, "title"@) == Option::Some(self.title@));
            assert(crate::json::req_string(jv, "slug"@) == Option::Some(self.slug@));
            assert(crate::json::req_u32(jv, "posts_count"@) == Option::Some(self.posts_count));
            assert(crate::json::req_u32(jv, "reply_count"@) == Option::Some(self.reply_count));
            assert(crate::json::req_u32(jv, "views"@) == Option::Some(self.views));
            assert(crate::json::req_u32(jv, "like_count"@) == Option::Some(self.like_count));
            assert(crate::json::req_string(jv, "created_at"@) == Option::Some(self.created_at@));
            assert(crate::json::opt_string(jv, "last_posted_at"@) == Option::Some(
                self.last_posted_at.deep_view(),
            ));
            assert(crate::json::req_bool(jv, "pinned"@) == Option::Some(self.pinned));
            assert(crate::json::req_bool(jv, "visible"@) == Option::Some(self.visible));
            assert(crate::json::req_bool(jv, "closed"@) == Option::Some(self.closed));
            assert(crate::json::req_bool(jv, "archived"@) == Option::Some(self.archived));
            assert(crate::json::req_bool(jv, "has_summary"@) == Option::Some(self.has_summary));
            assert(crate::json::opt_u64(jv, "category_id"@) == Option::Some(self.category_id));
            assert(crate::json::req_seq::<Poster>(jv, "posters"@) == Option::Some(
                self.posters.deep_view(),
            ));
            assert(Topic::spec_decode(jv) == Option::Some(self.deep_view()));
        }
        Json::Obj(fields)
    }
}

impl Encodable for Post {
    fn encode(&self) -> (r: Json) {
        let mut fields: Vec<(String, Json)> = Vec::new();
        fields.push(("id".to_owned(), json_u64(self.id)));
        fields.push(("username".to_owned(), Json::Str(self.username.clone())));
        fields.push(("created_at".to_owned(), Json::Str(self.created_at.clone())));
        fields.push(("cooked".to_owned(), Json::Str(self.cooked.clone())));
        fields.push(("raw".to_owned(), opt_string_json(&self.raw)));
        fields.push(("post_number".to_owned(), Json::Int(self.post_number as i64)));
        fields.push(("post_type".to_owned(), Json::Int(self.post_type as i64)));
        fields.push(("reply_count".to_owned(), Json::Int(self.reply_count as i64)));
        fields.push(("quote_count".to_owned(), Json::Int(self.quote_count as i64)));
        fields.push(("reads".to_owned(), Json::Int(self.reads as i64)));
        fields.push(("topic_id".to_owned(), json_u64(self.topic_id)));
        proof {
            reveal_strlit("id");
            reveal_strlit("username");
            reveal_strlit("created_at");
            reveal_strlit("cooked");
            reveal_strlit("raw");
            reveal_strlit("post_number");
            reveal_strlit("post_type");
            reveal_strlit("reply_count");
            reveal_strlit("quote_count");
            reveal_strlit("reads");
            reveal_strlit("topic_id");
            assert(("id"@).len() == 2);
            assert(("username"@).len() == 8);
            assert(("created_at"@).len() == 10);
            assert(("cooked"@).len() == 6);
            assert(("raw"@).len() == 3);
            assert(("post_number"@).len() == 11);
            assert(("post_type"@).len() == 9);
            assert(("reply_count"@).len() == 11);
            assert(("quote_count"@).len() == 11);
            assert(("reads"@).len() == 5);
            assert(("topic_id"@).len() == 8);
            assert(("username"@)[0] == 'u' && ("topic_id"@)[0] == 't');
            assert(("post_number"@)[0] == 'p' && ("reply_count"@)[0] == 'r'
                && ("quote_count"@)[0] == 'q');
            assert("username"@ != "topic_id"@);
            assert("post_number"@ != "reply_count"@ && "post_number"@ != "quote_count"@
                && "reply_count"@ != "quote_count"@);
            lemma_jview_obj(fields);
            reveal_with_fuel(crate::json::j_get_from, 13);
            assert(jview_pairs(fields@) =~= seq![
                ("id"@, spec_json_u64(self.id)),
                ("username"@, JsonV::Str(self.username@)),
                ("created_at"@, JsonV::Str(self.created_at@)),
                ("cooked"@, JsonV::Str(self.cooked@)),
                ("raw"@, spec_opt_string_json(self.raw.deep_view())),
                ("post_number"@, JsonV::Int(self.post_number as i64)),
                ("post_type"@, JsonV::Int(self.post_type as i64)),
                ("reply_count"@, JsonV::Int(self.reply_count as i64)),
                ("quote_count"@, JsonV::Int(self.quote_count as i64)),
                ("reads"@, JsonV::Int(self.reads as i64)),
                ("topic_id"@, spec_json_u64(self.topic_id)),
            ]);
            let jv = JsonV::Obj(jview_pairs(fields@));
            assert(crate::json::req_u64(jv, "id"@) == Option::Some(self.id));
            assert(crate::json::req_string(jv, "username"@) == Option::Some(self.username@));
            assert(crate::json::req_string(jv, "created_at"@) == Option::Some(self.created_at@));
            assert(crate::json::req_string(jv, "cooked"@) == Option::Some(self.cooked@));
            assert(crate::json::opt_string(jv, "raw"@) == Option::Some(self.raw.deep_view()));
            assert(crate::json::req_u32(jv, "post_number"@) == Option::Some(self.post_number));
            assert(crate::json::req_u32(jv, "post_type"@) == Option::Some(self.post_type));
            assert(crate::json::req_u32(jv, "reply_count"@) == Option::Some(self.reply_count));
            assert(crate::json::req_u32(jv, "quote_count"@) == Option::Some(self.quote_count));
            assert(crate::json::req_u32(jv, "reads"@) == Option::Some(self.reads));
            assert(crate::json::req_u64(jv, "topic_id"@) == Option::Some(self.topic_id));
            assert(Post::spec_decode(jv) == Option::Some(self.deep_view()));
        }
        Json::Obj(fields)
    }
}

impl Encodable for PostStream {
    fn encode(&self) -> (r: Json) {
        let mut fields: Vec<(String, Json)> = Vec::new();
        let posts_json = encode_vec(&self.posts);
        let stream_json = encode_vec(&self.stream);
        fields.push(("posts".to_owned(), posts_json));
        fields.push(("stream".to_owned(), stream_json));
        proof {
            reveal_strlit("posts");
            reveal_strlit("stream");
            assert(("posts"@).len() == 5);
            assert(("stream"@).len() == 6);
            lemma_jview_obj(fields);
            reveal_with_fuel(crate::json::j_get_from, 4);
            assert(jview_pairs(fields@) =~= seq![
                ("posts"@, jview(posts_json)),
                ("stream"@, jview(stream_json)),
            ]);
            let jv = JsonV::Obj(jview_pairs(fields@));
            assert(crate::json::req_seq::<Post>(jv, "posts"@) == Option::Some(
                self.posts.deep_view(),
            ));
            assert(crate::json::opt_seq::<u64>(jv, "stream"@) == Option::Some(
                self.stream.deep_view(),
            ));
            assert(PostStream::spec_decode(jv) == Option::Some(self.deep_view()));
        }
        Json::Obj(fields)
    }
}

impl Encodable for TopicResponse {
    fn encode(&self) -> (r: Json) {
        let mut fields: Vec<(String, Json)> = Vec::new();
        let stream_json = self.post_stream.encode();
        fields.push(("post_stream".to_owned(), stream_json));
        fields.push(("id".to_owned(), json_u64(self.id)));
        fields.push(("title".to_owned(), opt_string_json(&self.title)));
        fields.push(("posts_count".to_owned(), opt_u32_json(&self.posts_count)));
        fields.push(("category_id".to_owned(), opt_u64_json(&self.category_id)));
        proof {
            reveal_strlit("post_stream");
            reveal_strlit("id");
            reveal_strlit("title");
            reveal_strlit("posts_count");
            reveal_strlit("category_id");
            assert(("post_stream"@).len() == 11);
            assert(("id"@).len() == 2);
            assert(("title"@).len() == 5);
            assert(("posts_count"@).len() == 11);
            assert(("category_id"@).len() == 11);
            assert(("post_stream"@)[4] == '_' && ("posts_count"@)[4] == 's');
            assert(("post_stream"@)[0] == 'p' && ("posts_count"@)[0] == 'p'
                && ("category_id"@)[0] == 'c');
            assert("post_stream"@ != "posts_count"@);
            assert("post_stream"@ != "category_id"@ && "posts_count"@ != "category_id"@);
            lemma_jview_obj(fields);
            reveal_with_fuel(crate::json::j_get_from, 7);
            assert(jview_pairs(fields@) =~= seq![
                ("post_stream"@, jview(stream_json)),
                ("id"@, spec_json_u64(self.id)),
                ("title"@, spec_opt_string_json(self.title.deep_view())),
                ("posts_count"@, spec_opt_u32_json(self.posts_count)),
                ("category_id"@, spec_opt_u64_json(self.category_id)),
            ]);
            let jv = JsonV::Obj(jview_pairs(fields@));
            assert(crate::json::req_record::<PostStream>(jv, "post_stream"@) == Option::Some(
                self.post_stream.deep_view(),
            ));
            assert(crate::json::req_u64(jv, "id"@) == Option::Some(self.id));
            assert(crate::json::opt_string(jv, "title"@) == Option::Some(self.title.deep_view()));
            assert(crate::json::opt_u32(jv, "posts_count"@) == Option::Some(self.posts_count));
            assert(crate::json::opt_u64(jv, "category_id"@) == Option::Some(self.category_id));
            assert(TopicResponse::spec_decode(jv) == Option::Some(self.deep_view()));
        }
        Json::Obj(fields)
    }
}

impl Encodable for TopicList {
    fn encode(&self) -> (r: Json) {
        let mut fields: Vec<(String, Json)> = Vec::new();
        let topics_json = encode_vec(&self.topics);
        fields.push(("topics".to_owned(), topics_json));
        proof {
            reveal_strlit("topics");
            assert(("topics"@).len() == 6);
            lemma_jview_obj(fields);
            reveal_with_fuel(crate::json::j_get_from, 3);
            assert(jview_pairs(fields@) =~= seq![("topics"@, jview(topics_json))]);
            let jv = JsonV::Obj(jview_pairs(fields@));
            assert(crate::json::req_seq::<Topic>(jv, "topics"@) == Option::Some(
                self.topics.deep_view(),
            ));
            assert(TopicList::spec_decode(jv) == Option::Some(self.deep_view()));
        }
        Json::Obj(fields)
    }
}

impl Encodable for LatestResponse {
    fn encode(&self) -> (r: Json) {
        let mut fields: Vec<(String, Json)> = Vec::new();
        let list_json = self.topic_list.encode();
        let users_json = encode_vec(&self.users);
        fields.push(("topic_list".to_owned(), list_json));
        fields.push(("users".to_owned(), users_json));
        proof {
            reveal_strlit("topic_list");
            reveal_strlit("users");
            assert(("topic_list"@).len() == 10);
            assert(("users"@).len() == 5);
            lemma_jview_obj(fields);
            reveal_with_fuel(crate::json::j_get_from, 4);
            assert(jview_pairs(fields@) =~= seq![
                ("topic_list"@, jview(list_json)),
                ("users"@, jview(users_json)),
            ]);
            let jv = JsonV::Obj(jview_pairs(fields@));
            assert(crate::json::req_record::<TopicList>(jv, "topic_list"@) == Option::Some(
                self.topic_list.deep_view(),
            ));
            assert(crate::json::req_seq::<User>(jv, "users"@) == Option::Some(
                self.users.deep_view(),
            ));
            assert(LatestResponse::spec_decode(jv) == Option::Some(self.deep_view()));
        }
        Json::Obj(fields)
    }
}

impl Encodable for CategoryListData {
    fn encode(&self) -> (r: Json) {
        let mut fields: Vec<(String, Json)> = Vec::new();
        let cats_json = encode_vec(&self.categories);
        fields.push(("categories".to_owned(), cats_json));
        proof {
            reveal_strlit("categories");
            assert(("categories"@).len() == 10);
            lemma_jview_obj(fields);
            reveal_with_fuel(crate::json::j_get_from, 3);
            assert(jview_pairs(fields@) =~= seq![("categories"@, jview(cats_json))]);
            let jv = JsonV::Obj(jview_pairs(fields@));
            assert(crate::json::req_seq::<Category>(jv, "categories"@) == Option::Some(
                self.categories.deep_view(),
            ));
            assert(CategoryListData::spec_decode(jv) == Option::Some(self.deep_view()));
        }
        Json::Obj(fields)
    }
}

impl Encodable for CategoryList {
    fn encode(&self) -> (r: Json) {
        let mut fields: Vec<(String, Json)> = Vec::new();
        let inner_json = self.category_list.encode();
        fields.push(("category_list".to_owned(), inner_json));
        proof {
            reveal_strlit("category_list");
            assert(("category_list"@).len() == 13);
            lemma_jview_obj(fields);
            reveal_with_fuel(crate::json::j_get_from, 3);
            assert(jview_pairs(fields@) =~= seq![("category_list"@, jview(inner_json))]);
            let jv = JsonV::Obj(jview_pairs(fields@));
            assert(crate::json::req_record::<CategoryListData>(jv, "category_list"@)
                == Option::Some(self.category_list.deep_view()));
            assert(CategoryList::spec_decode(jv) == Option::Some(self.deep_view()));
        }
        Json::Obj(fields)
    }
}

impl Encodable for ChatMessage {
    fn encode(&self) -> (r: Json) {
        let mut fields: Vec<(String, Json)> = Vec::new();
        let user_json = self.user.encode();
        fields.push(("id".to_owned(), json_u64(self.id)));
        fields.push(("message".to_owned(), Json::Str(self.message.clone())));
        fields.push(("cooked".to_owned(), Json::Str(self.cooked.clone())));
        fields.push(("created_at".to_owned(), Json::Str(self.created_at.clone())));
        fields.push(("user".to_owned(), user_json));
        fields.push(("chat_channel_id".to_owned(), json_u64(self.chat_channel_id)));
        fields.push(("deleted_at".to_owned(), opt_string_json(&self.deleted_at)));
        fields.push(("excerpt".to_owned(), opt_string_json(&self.excerpt)));
        proof {
            reveal_strlit("id");
            reveal_strlit("message");
            reveal_strlit("cooked");
            reveal_strlit("created_at");
            reveal_strlit("user");
            reveal_strlit("chat_channel_id");
            reveal_strlit("deleted_at");
            reveal_strlit("excerpt");
            assert(("id"@).len() == 2);
            assert(("message"@).len() == 7);
            assert(("cooked"@).len() == 6);
            assert(("created_at"@).len() == 10);
            assert(("user"@).len() == 4);
            assert(("chat_channel_id"@).len() == 15);
            assert(("deleted_at"@).len() == 10);
            assert(("excerpt"@).len() == 7);
            assert(("message"@)[0] == 'm' && ("excerpt"@)[0] == 'e');
            assert(("created_at"@)[0] == 'c' && ("deleted_at"@)[0] == 'd');
            assert("message"@ != "excerpt"@);
            assert("created_at"@ != "deleted_at"@);
            lemma_jview_obj(fields);
            reveal_with_fuel(crate::json::j_get_from, 10);
            assert(jview_pairs(fields@) =~= seq![
                ("id"@, spec_json_u64(self.id)),
                ("message"@, JsonV::Str(self.message@)),
                ("cooked"@, JsonV::Str(self.cooked@)),
                ("created_at"@, JsonV::Str(self.created_at@)),
                ("user"@, jview(user_json)),
                ("chat_channel_id"@, spec_json_u64(self.chat_channel_id)),
                ("deleted_at"@, spec_opt_string_json(self.deleted_at.deep_view())),
                ("excerpt"@, spec_opt_string_json(self.excerpt.deep_view())),
            ]);
            let jv = JsonV::Obj(jview_pairs(fields@));
            assert(crate::json::req_u64(jv, "id"@) == Option::Some(self.id));
            assert(crate::json::req_string(jv, "message"@) == Option::Some(self.message@));
            assert(crate::json::req_string(jv, "cooked"@) == Option::Some(self.cooked@));
            assert(crate::json::req_string(jv, "created_at"@) == Option::Some(self.created_at@));
            assert(crate::json::req_record::<User>(jv, "user"@) == Option::Some(
                self.user.deep_view(),
            ));
            assert(crate::json::req_u64(jv, "chat_channel_id"@) == Option::Some(
                self.chat_channel_id,
            ));
            assert(crate::json::opt_string(jv, "deleted_at"@) == Option::Some(
                self.deleted_at.deep_view(),
            ));
            assert(crate::json::opt_string(jv, "excerpt"@) == Option::Some(
                self.excerpt.deep_view(),
            ));
            assert(ChatMessage::spec_decode(jv) == Option::Some(self.deep_view()));
        }
        Json::Obj(fields)
    }
}

impl Encodable for ChatMessagesResponse {
    fn encode(&self) -> (r: Json) {
        let mut fields: Vec<(String, Json)> = Vec::new();
        let messages_json = encode_vec(&self.messages);
        let meta_json = self.meta.encode();
        fields.push(("messages".to_owned(), messages_json));
        fields.push(("meta".to_owned(), meta_json));
        proof {
            reveal_strlit("messages");
            reveal_strlit("meta");
            assert(("messages"@).len() == 8);
            assert(("meta"@).len() == 4);
            lemma_jview_obj(fields);
            reveal_with_fuel(crate::json::j_get_from, 4);
            assert(jview_pairs(fields@) =~= seq![
                ("messages"@, jview(messages_json)),
                ("meta"@, jview(meta_json)),
            ]);
            let jv = JsonV::Obj(jview_pairs(fields@));
            assert(crate::json::req_seq::<ChatMessage>(jv, "messages"@) == Option::Some(
                self.messages.deep_view(),
            ));
            assert(crate::json::j_field(jv, "meta"@) == Option::Some(jview(meta_json)));
            assert(ChatMessagesResponse::spec_decode(jv) == Option::Some(self.deep_view()));
        }
        Json::Obj(fields)
    }
}

impl Encodable for Notification {
    fn encode(&self) -> (r: Json) {
        let mut fields: Vec<(String, Json)> = Vec::new();
        let data_json = self.data.encode();
        fields.push(("id".to_owned(), json_u64(self.id)));
        fields.push(("user_id".to_owned(), json_u64(self.user_id)));
        fields.push(("notification_type".to_owned(), Json::Int(self.notification_type as i64)));
        fields.push(("read".to_owned(), Json::Bool(self.read)));
        fields.push(("high_priority".to_owned(), Json::Bool(self.high_priority)));
        fields.push(("created_at".to_owned(), Json::Str(self.created_at.clone())));
        fields.push(("post_number".to_owned(), opt_u32_json(&self.post_number)));
        fields.push(("topic_id".to_owned(), opt_u64_json(&self.topic_id)));
        fields.push(("slug".to_owned(), opt_string_json(&self.slug)));
        fields.push(("fancy_title".to_owned(), opt_string_json(&self.fancy_title)));
        fields.push(("data".to_owned(), data_json));
        fields.push((
            "acting_user_avatar_template".to_owned(),
            opt_string_json(&self.acting_user_avatar_template),
        ));
        fields.push(("acting_user_name".to_owned(), opt_string_json(&self.acting_user_name)));
        proof {
            reveal_strlit("id");
            reveal_strlit("user_id");
            reveal_strlit("notification_type");
            reveal_strlit("read");
            reveal_strlit("high_priority");
            reveal_strlit("created_at");
            reveal_strlit("post_number");
            reveal_strlit("topic_id");
            reveal_strlit("slug");
            reveal_strlit("fancy_title");
            reveal_strlit("data");
            reveal_strlit("acting_user_avatar_template");
            reveal_strlit("acting_user_name");
            assert(("id"@).len() == 2);
            assert(("user_id"@).len() == 7);
            assert(("notification_type"@).len() == 17);
            assert(("read"@).len() == 4);
            assert(("high_priority"@).len() == 13);
            assert(("created_at"@).len() == 10);
            assert(("post_number"@).len() == 11);
            assert(("topic_id"@).len() == 8);
            assert(("slug"@).len() == 4);
            assert(("fancy_title"@).len() == 11);
            assert(("data"@).len() == 4);
            assert(("acting_user_avatar_template"@).len() == 27);
            assert(("acting_user_name"@).len() == 16);
            assert(("read"@)[0] == 'r' && ("slug"@)[0] == 's' && ("data"@)[0] == 'd');
            assert(("post_number"@)[0] == 'p' && ("fancy_title"@)[0] == 'f');
            assert("read"@ != "slug"@ && "read"@ != "data"@ && "slug"@ != "data"@);
            assert("post_number"@ != "fancy_title"@);
            lemma_jview_obj(fields);
            reveal_with_fuel(crate::json::j_get_from, 15);
            assert(jview_pairs(fields@) =~= seq![
                ("id"@, spec_json_u64(self.id)),
                ("user_id"@, spec_json_u64(self.user_id)),
                ("notification_type"@, JsonV::Int(self.notification_type as i64)),
                ("read"@, JsonV::Bool(self.read)),
                ("high_priority"@, JsonV::Bool(self.high_priority)),
                ("created_at"@, JsonV::Str(self.created_at@)),
                ("post_number"@, spec_opt_u32_json(self.post_number)),
                ("topic_id"@, spec_opt_u64_json(self.topic_id)),
                ("slug"@, spec_opt_string_json(self.slug.deep_view())),
                ("fancy_title"@, spec_opt_string_json(self.fancy_title.deep_view())),
                ("data"@, jview(data_json)),
                (
                    "acting_user_avatar_template"@,
                    spec_opt_string_json(self.acting_user_avatar_template.deep_view()),
                ),
                ("acting_user_name"@, spec_opt_string_json(self.acting_user_name.deep_view())),
            ]);
            let jv = JsonV::Obj(jview_pairs(fields@));
            assert(crate::json::req_u64(jv, "id"@) == Option::Some(self.id));
            assert(crate::json::req_u64(jv, "user_id"@) == Option::Some(self.user_id));
            assert(crate::json::req_u32(jv, "notification_type"@) == Option::Some(
                self.notification_type,
            ));
            assert(crate::json::req_bool(jv, "read"@) == Option::Some(self.read));
            assert(crate::json::req_bool(jv, "high_priority"@) == Option::Some(
                self.high_priority,
            ));
            assert(crate::json::req_string(jv, "created_at"@) == Option::Some(self.created_at@));
            assert(crate::json::opt_u32(jv, "post_number"@) == Option::Some(self.post_number));
            assert(crate::json::opt_u64(jv, "topic_id"@) == Option::Some(self.topic_id));
            assert(crate::json::opt_string(jv, "slug"@) == Option::Some(self.slug.deep_view()));
            assert(crate::json::opt_string(jv, "fancy_title"@) == Option::Some(
                self.fancy_title.deep_view(),
            ));
            assert(crate::json::j_field(jv, "data"@) == Option::Some(jview(data_json)));
            assert(crate::json::opt_string(jv, "acting_user_avatar_template"@) == Option::Some(
                self.acting_user_avatar_template.deep_view(),
            ));
            assert(crate::json::opt_string(jv, "acting_user_name"@) == Option::Some(
                self.acting_user_name.deep_view(),
            ));
            assert(Notification::spec_decode(jv) == Option::Some(self.deep_view()));
        }
        Json::Obj(fields)
    }
}

impl Encodable for NotificationsResponse {
    fn encode(&self) -> (r: Json) {
        let mut fields: Vec<(String, Json)> = Vec::new();
        let list_json = encode_vec(&self.notifications);
        fields.push(("notifications".to_owned(), list_json));
        proof {
            reveal_strlit("notifications");
            assert(("notifications"@).len() == 13);
            lemma_jview_obj(fields);
            reveal_with_fuel(crate::json::j_get_from, 3);
            assert(jview_pairs(fields@) =~= seq![("notifications"@, jview(list_json))]);
            let jv = JsonV::Obj(jview_pairs(fields@));
            assert(crate::json::req_seq::<Notification>(jv, "notifications"@) == Option::Some(
                self.notifications.deep_view(),
            ));
            assert(NotificationsResponse::spec_decode(jv) == Option::Some(self.deep_view()));
        }
        Json::Obj(fields)
    }
}

/// An optional raw JSON subtree as a JSON value: null when absent.
pub open spec fn spec_opt_tree_json(o: Option<JsonV>) -> JsonV {
    match o {
        Option::Some(v) => v,
        Option::None => JsonV::Null,
    }
}

fn opt_tree_json(o: &Option<Json>) -> (r: Json)
    ensures
        jview(r) == spec_opt_tree_json(o.deep_view()),
{
    match o {
        Option::Some(v) => json_deep_copy(v),
        Option::None => Json::Null,
    }
}

/// Encode a chat channel; decoding the result gives the channel back.
///
/// A raw subtree that is itself a bare JSON null cannot be told apart from
/// an absent field on the wire, so such values are left out; no decoded
/// channel ever holds one.
pub fn encode_chat_channel(c: &ChatChannel) -> (r: Json)
    requires
        !(c.chatable.deep_view() matches Option::Some(JsonV::Null)),
        !(c.current_user_membership.deep_view() matches Option::Some(JsonV::Null)),
        !(c.last_message.deep_view() matches Option::Some(JsonV::Null)),
        !(c.meta.deep_view() matches Option::Some(JsonV::Null)),
    ensures
        ChatChannel::spec_decode(jview(r)) == Option::Some(c.deep_view()),
{
    let mut fields: Vec<(String, Json)> = Vec::new();
    fields.push(("id".to_owned(), json_u64(c.id)));
    fields.push(("title".to_owned(), Json::Str(c.title.clone())));
    fields.push(("slug".to_owned(), opt_string_json(&c.slug)));
    fields.push(("description".to_owned(), opt_string_json(&c.description)));
    fields.push(("chatable_id".to_owned(), opt_u64_json(&c.chatable_id)));
    fields.push(("chatable_type".to_owned(), opt_string_json(&c.chatable_type)));
    fields.push(("memberships_count".to_owned(), opt_u32_json(&c.memberships_count)));
    fields.push(("status".to_owned(), opt_string_json(&c.status)));
    fields.push((
        "allow_channel_wide_mentions".to_owned(),
        opt_bool_json(&c.allow_channel_wide_mentions),
    ));
    fields.push(("chatable".to_owned(), opt_tree_json(&c.chatable)));
    fields.push(("chatable_url".to_owned(), opt_string_json(&c.chatable_url)));
    fields.push((
        "current_user_membership".to_owned(),
        opt_tree_json(&c.current_user_membership),
    ));
    fields.push(("icon_upload_url".to_owned(), opt_string_json(&c.icon_upload_url)));
    fields.push(("last_message".to_owned(), opt_tree_json(&c.last_message)));
    fields.push(("meta".to_owned(), opt_tree_json(&c.meta)));
    fields.push(("threading_enabled".to_owned(), opt_bool_json(&c.threading_enabled)));
    fields.push(("unicode_title".to_owned(), opt_string_json(&c.unicode_title)));
    proof {
        reveal_strlit("id");
        reveal_strlit("title");
        reveal_strlit("slug");
        reveal_strlit("description");
        reveal_strlit("chatable_id");
        reveal_strlit("chatable_type");
        reveal_strlit("memberships_count");
        reveal_strlit("status");
        reveal_strlit("allow_channel_wide_mentions");
        reveal_strlit("chatable");
        reveal_strlit("chatable_url");
        reveal_strlit("current_user_membership");
        reveal_strlit("icon_upload_url");
        reveal_strlit("last_message");
        reveal_strlit("meta");
        reveal_strlit("threading_enabled");
        reveal_strlit("unicode_title");
        assert(("id"@).len() == 2);
        assert(("title"@).len() == 5);
        assert(("slug"@).len() == 4);
        assert(("description"@).len() == 11);
        assert(("chatable_id"@).len() == 11);
        assert(("chatable_type"@).len() == 13);
        assert(("memberships_count"@).len() == 17);
        assert(("status"@).len() == 6);
        assert(("allow_channel_wide_mentions"@).len() == 27);
        assert(("chatable"@).len() == 8);
        assert(("chatable_url"@).len() == 12);
        assert(("current_user_membership"@).len() == 23);
        assert(("icon_upload_url"@).len() == 15);
        assert(("last_message"@).len() == 12);
        assert(("meta"@).len() == 4);
        assert(("threading_enabled"@).len() == 17);
        assert(("unicode_title"@).len() == 13);
        assert(("slug"@)[0] == 's' && ("meta"@)[0] == 'm');
        assert(("description"@)[0] == 'd' && ("chatable_id"@)[0] == 'c');
        assert(("chatable_type"@)[0] == 'c' && ("unicode_title"@)[0] == 'u');
        assert(("memberships_count"@)[0] == 'm' && ("threading_enabled"@)[0] == 't');
        assert(("chatable_url"@)[0] == 'c' && ("last_message"@)[0] == 'l');
        assert("slug"@ != "meta"@);
        assert("description"@ != "chatable_id"@);
        assert("chatable_type"@ != "unicode_title"@);
        assert("memberships_count"@ != "threading_enabled"@);
        assert("chatable_url"@ != "last_message"@);
        lemma_jview_obj(fields);
        reveal_with_fuel(crate::json::j_get_from, 19);
        assert(jview_pairs(fields@) =~= seq![
            ("id"@, spec_json_u64(c.id)),
            ("title"@, JsonV::Str(c.title@)),
            ("slug"@, spec_opt_string_json(c.slug.deep_view())),
            ("description"@, spec_opt_string_json(c.description.deep_view())),
            ("chatable_id"@, spec_opt_u64_json(c.chatable_id)),
            ("chatable_type"@, spec_opt_string_json(c.chatable_type.deep_view())),
            ("memberships_count"@, spec_opt_u32_json(c.memberships_count)),
            ("status"@, spec_opt_string_json(c.status.deep_view())),
            (
                "allow_channel_wide_mentions"@,
                spec_opt_bool_json(c.allow_channel_wide_mentions),
            ),
            ("chatable"@, spec_opt_tree_json(c.chatable.deep_view())),
            ("chatable_url"@, spec_opt_string_json(c.chatable_url.deep_view())),
            (
                "current_user_membership"@,
                spec_opt_tree_json(c.current_user_membership.deep_view()),
            ),
            ("icon_upload_url"@, spec_opt_string_json(c.icon_upload_url.deep_view())),
            ("last_message"@, spec_opt_tree_json(c.last_message.deep_view())),
            ("meta"@, spec_opt_tree_json(c.meta.deep_view())),
            ("threading_enabled"@, spec_opt_bool_json(c.threading_enabled)),
            ("unicode_title"@, spec_opt_string_json(c.unicode_title.deep_view())),
        ]);
        let jv = JsonV::Obj(jview_pairs(fields@));
        assert(crate::json::req_u64(jv, "id"@) == Option::Some(c.id));
        assert(crate::json::req_string(jv, "title"@) == Option::Some(c.title@));
        assert(crate::json::opt_string(jv, "slug"@) == Option::Some(c.slug.deep_view()));
        assert(crate::json::opt_string(jv, "description"@) == Option::Some(
            c.description.deep_view(),
        ));
        assert(crate::json::opt_u64(jv, "chatable_id"@) == Option::Some(c.chatable_id));
        assert(crate::json::opt_string(jv, "chatable_type"@) == Option::Some(
            c.chatable_type.deep_view(),
        ));
        assert(crate::json::opt_u32(jv, "memberships_count"@) == Option::Some(
            c.memberships_count,
        ));
        assert(crate::json::opt_string(jv, "status"@) == Option::Some(c.status.deep_view()));
        assert(crate::json::opt_bool(jv, "allow_channel_wide_mentions"@) == Option::Some(
            c.allow_channel_wide_mentions,
        ));
        assert(crate::json::opt_json(jv, "chatable"@) == c.chatable.deep_view());
        assert(crate::json::opt_string(jv, "chatable_url"@) == Option::Some(
            c.chatable_url.deep_view(),
        ));
        assert(crate::json::opt_json(jv, "current_user_membership"@)
            == c.current_user_membership.deep_view());
        assert(crate::json::opt_string(jv, "icon_upload_url"@) == Option::Some(
            c.icon_upload_url.deep_view(),
        ));
        assert(crate::json::opt_json(jv, "last_message"@) == c.last_message.deep_view());
        assert(crate::json::opt_json(jv, "meta"@) == c.meta.deep_view());
        assert(crate::json::opt_bool(jv, "threading_enabled"@) == Option::Some(
            c.threading_enabled,
        ));
        assert(crate::json::opt_string(jv, "unicode_title"@) == Option::Some(
            c.unicode_title.deep_view(),
        ));
        assert(ChatChannel::spec_decode(jv) == Option::Some(c.deep_view()));
    }
    Json::Obj(fields)
}

} // verus!
