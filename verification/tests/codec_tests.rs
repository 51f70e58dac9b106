use discourse_client::encode::Encodable;
use discourse_client::json::{Decodable, Json};
use discourse_client::{
    Category, ChatMessagesMeta, CreateMessageResponse, CreatePostResponse, ErrorResponse,
    NotificationData, Poster, Topic, User,
};

#[test]
fn category_round_trips_through_its_encoder() {
    let c = Category {
        id: 7,
        name: "General".to_string(),
        color: "0088CC".to_string(),
        text_color: "FFFFFF".to_string(),
        slug: "general".to_string(),
        topic_count: 5,
        description: Some("talk about anything".to_string()),
        description_text: None,
        has_children: Some(false),
        parent_category_id: None,
    };
    let tree = c.encode();
    let back = Category::decode(&tree).unwrap();
    assert_eq!(back, c);
}

#[test]
fn user_round_trips_through_its_encoder() {
    let u = User {
        id: -1,
        username: "system".to_string(),
        name: None,
        avatar_template: "/s/{size}.png".to_string(),
    };
    let tree = u.encode();
    assert_eq!(User::decode(&tree).unwrap(), u);
}

#[test]
fn created_post_round_trips_through_its_encoder() {
    let p = CreatePostResponse {
        id: 99,
        name: Some("Alice".to_string()),
        username: "alice".to_string(),
        avatar_template: "/a.png".to_string(),
        created_at: "2024-01-01T00:00:00Z".to_string(),
        cooked: "<p>hello</p>".to_string(),
        post_number: 2,
        post_type: 1,
        updated_at: "2024-01-02T00:00:00Z".to_string(),
        reply_count: 0,
        reply_to_post_number: Some(1),
        quote_count: 0,
        topic_id: 42,
        topic_slug: "a-topic".to_string(),
    };
    let tree = p.encode();
    assert_eq!(CreatePostResponse::decode(&tree).unwrap(), p);
}

#[test]
fn message_confirmation_round_trips_through_its_encoder() {
    let m = CreateMessageResponse { success: "OK".to_string(), message_id: 12 };
    let tree = m.encode();
    assert_eq!(CreateMessageResponse::decode(&tree).unwrap(), m);
}

#[test]
fn error_payload_round_trips_through_its_encoder() {
    let e = ErrorResponse {
        errors: vec!["a".to_string(), "b".to_string(), "c".to_string()],
        error_type: Some("invalid_access".to_string()),
    };
    let tree = e.encode();
    assert_eq!(ErrorResponse::decode(&tree).unwrap(), e);
}

#[test]
fn encoded_record_survives_the_wire_format() {
    // Encode, print through the real codec by way of a request body, and
    // decode from the printed text: the fields come back unchanged.
    let c = Category {
        id: 1,
        name: "General".to_string(),
        color: "0088CC".to_string(),
        text_color: "FFFFFF".to_string(),
        slug: "general".to_string(),
        topic_count: 5,
        description: None,
        description_text: None,
        has_children: None,
        parent_category_id: None,
    };
    let tree = c.encode();
    let value = tree_to_serde(&tree);
    let body = format!(r#"{{"category_list":{{"categories":[{}]}}}}"#, value);
    let cats = discourse_client::client::categories_response(200, &body).unwrap();
    assert_eq!(cats, vec![c]);
}

fn tree_to_serde(j: &Json) -> serde_json::Value {
    match j {
        Json::Null => serde_json::Value::Null,
        Json::Bool(b) => serde_json::Value::Bool(*b),
        Json::Int(i) => serde_json::Value::from(*i),
        Json::UInt(u) => serde_json::Value::from(*u),
        Json::Str(s) => serde_json::Value::String(s.clone()),
        Json::Arr(v) => serde_json::Value::Array(v.iter().map(tree_to_serde).collect()),
        Json::Obj(v) => serde_json::Value::Object(
            v.iter().map(|p| (p.0.clone(), tree_to_serde(&p.1))).collect(),
        ),
    }
}

#[test]
fn numbers_outside_the_expected_ranges_are_refused() {
    // A counter above u32::MAX cannot decode as topic_count.
    let body = r#"{"category_list":{"categories":[{"id":1,"name":"G","color":"0","text_color":"1","slug":"g","topic_count":4294967296}]}}"#;
    let r = discourse_client::client::categories_response(200, body);
    assert_eq!(r.unwrap_err(), discourse_client::Error::Decode);
    // A negative id cannot decode as an unsigned id.
    let body = r#"{"category_list":{"categories":[{"id":-1,"name":"G","color":"0","text_color":"1","slug":"g","topic_count":0}]}}"#;
    let r = discourse_client::client::categories_response(200, body);
    assert_eq!(r.unwrap_err(), discourse_client::Error::Decode);
}

#[test]
fn ids_above_i64_range_still_decode() {
    let body = r#"{"id":18446744073709551615,"username":"bob","created_at":"t","cooked":"c","post_number":1,"post_type":1,"reply_count":0,"quote_count":0,"reads":0,"topic_id":1}"#;
    let p = discourse_client::client::post_response(200, body).unwrap();
    assert_eq!(p.id, u64::MAX);
}

#[test]
fn duplicate_keys_take_the_first_match_in_the_tree() {
    // The tree model keeps fields in order and a lookup takes the first
    // match; built directly, a duplicated key is shadowed by the first.
    let tree = Json::Obj(vec![
        ("success".to_string(), Json::Str("OK".to_string())),
        ("message_id".to_string(), Json::Int(5)),
        ("message_id".to_string(), Json::Int(9)),
    ]);
    let m = CreateMessageResponse::decode(&tree).unwrap();
    assert_eq!(m.message_id, 5);
}

#[test]
fn topic_with_posters_round_trips_through_its_encoder() {
    let t = Topic {
        id: 10,
        title: "Welcome".to_string(),
        slug: "welcome".to_string(),
        posts_count: 3,
        reply_count: 2,
        views: 40,
        like_count: 1,
        created_at: "2024-01-01T00:00:00Z".to_string(),
        last_posted_at: None,
        pinned: true,
        visible: true,
        closed: false,
        archived: false,
        has_summary: false,
        category_id: Some(4),
        posters: vec![
            Poster {
                user_id: -1,
                description: "Original Poster".to_string(),
                extras: Some("latest".to_string()),
                primary_group_id: None,
                flair_group_id: Some(9),
            },
            Poster {
                user_id: 2,
                description: "Frequent Poster".to_string(),
                extras: None,
                primary_group_id: Some(3),
                flair_group_id: None,
            },
        ],
    };
    let tree = t.encode();
    assert_eq!(Topic::decode(&tree).unwrap(), t);
}

#[test]
fn poster_round_trips_through_its_encoder() {
    let p = Poster {
        user_id: 5,
        description: "Most Recent Poster".to_string(),
        extras: None,
        primary_group_id: None,
        flair_group_id: None,
    };
    let tree = p.encode();
    assert_eq!(Poster::decode(&tree).unwrap(), p);
}

#[test]
fn pagination_hints_round_trip_through_their_encoder() {
    let m = ChatMessagesMeta { can_load_more_past: Some(true), can_load_more_future: None };
    let tree = m.encode();
    assert_eq!(ChatMessagesMeta::decode(&tree).unwrap(), m);
}

#[test]
fn notification_context_round_trips_through_its_encoder() {
    let d = NotificationData {
        topic_title: Some("Welcome".to_string()),
        original_username: None,
        display_username: Some("bob".to_string()),
        display_name: None,
    };
    let tree = d.encode();
    assert_eq!(NotificationData::decode(&tree).unwrap(), d);
}

#[test]
fn full_latest_listing_round_trips_through_its_encoder() {
    let r = discourse_client::LatestResponse {
        topic_list: discourse_client::TopicList {
            topics: vec![Topic {
                id: 10,
                title: "Welcome".to_string(),
                slug: "welcome".to_string(),
                posts_count: 3,
                reply_count: 2,
                views: 40,
                like_count: 1,
                created_at: "2024-01-01T00:00:00Z".to_string(),
                last_posted_at: Some("2024-01-02T00:00:00Z".to_string()),
                pinned: false,
                visible: true,
                closed: false,
                archived: false,
                has_summary: false,
                category_id: None,
                posters: vec![],
            }],
        },
        users: vec![User {
            id: 2,
            username: "bob".to_string(),
            name: None,
            avatar_template: "/b.png".to_string(),
        }],
    };
    let tree = r.encode();
    assert_eq!(discourse_client::LatestResponse::decode(&tree).unwrap(), r);
}

#[test]
fn notification_listing_round_trips_through_its_encoder() {
    let r = discourse_client::NotificationsResponse {
        notifications: vec![discourse_client::Notification {
            id: 1,
            user_id: 2,
            notification_type: 6,
            read: false,
            high_priority: true,
            created_at: "2024-03-03T00:00:00Z".to_string(),
            post_number: Some(1),
            topic_id: Some(10),
            slug: None,
            fancy_title: None,
            data: NotificationData {
                topic_title: Some("Welcome".to_string()),
                original_username: None,
                display_username: None,
                display_name: None,
            },
            acting_user_avatar_template: None,
            acting_user_name: None,
        }],
    };
    let tree = r.encode();
    assert_eq!(discourse_client::NotificationsResponse::decode(&tree).unwrap(), r);
}

#[test]
fn chat_channel_round_trips_through_its_encoder() {
    let c = discourse_client::ChatChannel {
        id: 3,
        title: "General chat".to_string(),
        slug: Some("general-chat".to_string()),
        description: None,
        chatable_id: Some(9),
        chatable_type: Some("Category".to_string()),
        memberships_count: Some(12),
        status: Some("open".to_string()),
        allow_channel_wide_mentions: Some(true),
        chatable: Some(Json::Obj(vec![("id".to_string(), Json::Int(9))])),
        chatable_url: None,
        current_user_membership: None,
        icon_upload_url: None,
        last_message: Some(Json::Str("hi".to_string())),
        meta: None,
        threading_enabled: None,
        unicode_title: None,
    };
    let tree = discourse_client::encode::encode_chat_channel(&c);
    assert_eq!(discourse_client::ChatChannel::decode(&tree).unwrap(), c);
}
