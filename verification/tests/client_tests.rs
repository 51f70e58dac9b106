use discourse_client::{DiscourseClient, Error, Method};

const BASE: &str = "https://forum.example";

#[test]
fn anonymous_mode_attaches_no_headers() {
    let c = DiscourseClient::new(BASE);
    let r = c.get_latest_request();
    assert_eq!(r.method, Method::Get);
    assert_eq!(r.url, "https://forum.example/latest.json");
    assert!(r.headers.is_empty());
    assert!(r.body.is_none());
}

#[test]
fn admin_key_mode_attaches_exactly_the_key_pair() {
    let c = DiscourseClient::with_api_key(BASE, "k123", "system");
    let r = c.get_categories_request();
    assert_eq!(
        r.headers,
        vec![
            ("Api-Key".to_string(), "k123".to_string()),
            ("Api-Username".to_string(), "system".to_string()),
        ]
    );
}

#[test]
fn user_key_mode_attaches_exactly_the_token() {
    let c = DiscourseClient::with_user_api_key(BASE, "tok");
    let r = c.get_notifications_request();
    assert_eq!(r.headers, vec![("User-Api-Key".to_string(), "tok".to_string())]);
}

#[test]
fn user_key_mode_with_client_id_attaches_both_headers() {
    let c = DiscourseClient::with_user_api_key_and_client_id(BASE, "tok", "cid");
    let r = c.get_user_channels_request();
    assert_eq!(
        r.headers,
        vec![
            ("User-Api-Key".to_string(), "tok".to_string()),
            ("User-Api-Client-Id".to_string(), "cid".to_string()),
        ]
    );
}

#[test]
fn every_operation_carries_the_same_auth_headers() {
    let c = DiscourseClient::with_api_key(BASE, "k", "u");
    let expected = vec![
        ("Api-Key".to_string(), "k".to_string()),
        ("Api-Username".to_string(), "u".to_string()),
    ];
    assert_eq!(c.get_latest_request().headers, expected);
    assert_eq!(c.get_topic_request(1).headers, expected);
    assert_eq!(c.get_post_request(1).headers, expected);
    assert_eq!(c.get_category_topics_request(1).headers, expected);
    assert_eq!(c.get_channel_messages_request(1).headers, expected);
    assert_eq!(c.send_chat_message_request(1, "hi").headers, expected);
    assert_eq!(c.create_post_request(1, "x", None).headers, expected);
    assert_eq!(c.create_topic_request("t", "x", None).headers, expected);
    assert_eq!(c.update_post_request(1, "x").headers, expected);
    assert_eq!(c.delete_post_request(1).headers, expected);
    assert_eq!(c.like_post_request(1).headers, expected);
    assert_eq!(c.unlike_post_request(1).headers, expected);
}

#[test]
fn urls_embed_decimal_ids() {
    let c = DiscourseClient::new(BASE);
    assert_eq!(c.get_topic_request(42).url, "https://forum.example/t/42.json?include_raw=1");
    assert_eq!(c.get_post_request(0).url, "https://forum.example/posts/0.json");
    assert_eq!(
        c.get_post_request(u64::MAX).url,
        "https://forum.example/posts/18446744073709551615.json"
    );
    assert_eq!(c.get_category_topics_request(7).url, "https://forum.example/c/7/l/latest.json");
    assert_eq!(
        c.get_channel_messages_request(31).url,
        "https://forum.example/chat/api/channels/31/messages"
    );
    assert_eq!(
        c.unlike_post_request(9).url,
        "https://forum.example/post_actions/9.json?post_action_type_id=2"
    );
}

#[test]
fn write_requests_carry_json_bodies() {
    let c = DiscourseClient::new(BASE);
    let r = c.create_post_request(42, "hello", None);
    assert_eq!(r.method, Method::Post);
    assert_eq!(r.url, "https://forum.example/posts.json");
    assert_eq!(r.body.as_deref(), Some(r#"{"raw":"hello","topic_id":42}"#));

    let r = c.create_post_request(42, "hello", Some(3));
    assert_eq!(
        r.body.as_deref(),
        Some(r#"{"raw":"hello","reply_to_post_number":3,"topic_id":42}"#)
    );

    let r = c.send_chat_message_request(7, "hi there");
    assert_eq!(r.url, "https://forum.example/chat/7");
    assert_eq!(r.body.as_deref(), Some(r#"{"message":"hi there"}"#));

    let r = c.create_topic_request("A title", "body text", Some(5));
    assert_eq!(r.body.as_deref(), Some(r#"{"category_id":5,"raw":"body text","title":"A title"}"#));

    let r = c.update_post_request(8, "edited");
    assert_eq!(r.method, Method::Put);
    assert_eq!(r.url, "https://forum.example/posts/8.json");
    assert_eq!(r.body.as_deref(), Some(r#"{"raw":"edited"}"#));

    let r = c.like_post_request(11);
    assert_eq!(r.url, "https://forum.example/post_actions.json");
    assert_eq!(r.body.as_deref(), Some(r#"{"id":11,"post_action_type_id":2}"#));

    let r = c.delete_post_request(11);
    assert_eq!(r.method, Method::Delete);
    assert!(r.body.is_none());
}

#[test]
fn categories_scenario_yields_single_category() {
    let body = r#"{"category_list":{"categories":[{"id":1,"name":"General","color":"0088CC","text_color":"FFFFFF","slug":"general","topic_count":5}]}}"#;
    let cats = discourse_client::client::categories_response(200, body).unwrap();
    assert_eq!(cats.len(), 1);
    assert_eq!(cats[0].id, 1);
    assert_eq!(cats[0].name, "General");
    assert_eq!(cats[0].topic_count, 5);
    assert_eq!(cats[0].color, "0088CC");
    assert_eq!(cats[0].slug, "general");
    assert_eq!(cats[0].description, None);
    assert_eq!(cats[0].parent_category_id, None);
}

#[test]
fn create_post_scenario_yields_created_record() {
    let body = r#"{"id":99,"name":null,"username":"alice","avatar_template":"/a/{size}.png","created_at":"2024-01-01T00:00:00Z","cooked":"<p>hello</p>","post_number":2,"post_type":1,"updated_at":"2024-01-01T00:00:00Z","reply_count":0,"reply_to_post_number":null,"quote_count":0,"topic_id":42,"topic_slug":"a-topic"}"#;
    let p = discourse_client::client::created_post_response(200, body).unwrap();
    assert_eq!(p.id, 99);
    assert_eq!(p.topic_id, 42);
    assert_eq!(p.post_number, 2);
    assert_eq!(p.username, "alice");
    assert_eq!(p.reply_to_post_number, None);
}

#[test]
fn structured_error_joins_messages() {
    let r = discourse_client::client::categories_response(422, r#"{"errors": ["a", "b"]}"#);
    match r {
        Err(Error::Api(m)) => assert_eq!(m, "a, b"),
        other => panic!("expected an API error, got {:?}", other),
    }
}

#[test]
fn structured_error_with_single_message() {
    let r = discourse_client::client::created_post_response(
        403,
        r#"{"errors":["You are not permitted to view the requested resource"],"error_type":"invalid_access"}"#,
    );
    match r {
        Err(Error::Api(m)) => assert_eq!(m, "You are not permitted to view the requested resource"),
        other => panic!("expected an API error, got {:?}", other),
    }
}

#[test]
fn structured_error_with_empty_list_joins_to_empty_message() {
    let r = discourse_client::client::latest_response(400, r#"{"errors":[]}"#);
    match r {
        Err(Error::Api(m)) => assert_eq!(m, ""),
        other => panic!("expected an API error, got {:?}", other),
    }
}

#[test]
fn unparseable_error_body_carries_status_code() {
    let r = discourse_client::client::categories_response(404, "<html>not found</html>");
    assert_eq!(r.unwrap_err(), Error::Http(404));
}

#[test]
fn parseable_but_unstructured_error_body_carries_status_code() {
    let r = discourse_client::client::latest_response(500, r#"{"message":"oops"}"#);
    assert_eq!(r.unwrap_err(), Error::Http(500));
}

#[test]
fn malformed_success_body_is_a_decode_error() {
    let r = discourse_client::client::categories_response(200, "{oops");
    assert_eq!(r.unwrap_err(), Error::Decode);
}

#[test]
fn wrong_shaped_success_body_is_a_decode_error() {
    let r = discourse_client::client::categories_response(200, r#"{"unexpected":true}"#);
    assert_eq!(r.unwrap_err(), Error::Decode);
    let r = discourse_client::client::created_post_response(200, r#"{"id":"not a number"}"#);
    assert_eq!(r.unwrap_err(), Error::Decode);
}

#[test]
fn action_response_ignores_the_body_on_success() {
    assert_eq!(discourse_client::client::action_response(200, ""), Ok(()));
    assert_eq!(discourse_client::client::action_response(204, "whatever"), Ok(()));
    assert_eq!(
        discourse_client::client::action_response(410, "gone"),
        Err(Error::Http(410))
    );
    match discourse_client::client::action_response(422, r#"{"errors":["x","y"]}"#) {
        Err(Error::Api(m)) => assert_eq!(m, "x, y"),
        other => panic!("expected an API error, got {:?}", other),
    }
}

#[test]
fn latest_response_decodes_topics_and_users() {
    let body = r#"{
        "users": [
            {"id": -1, "username": "system", "name": "System", "avatar_template": "/s.png"},
            {"id": 2, "username": "bob", "name": null, "avatar_template": "/b.png"}
        ],
        "topic_list": {"topics": [
            {"id": 10, "title": "Welcome", "slug": "welcome", "posts_count": 3,
             "reply_count": 2, "views": 40, "like_count": 1,
             "created_at": "2024-01-01T00:00:00Z", "last_posted_at": null,
             "pinned": true, "visible": true, "closed": false, "archived": false,
             "has_summary": false, "category_id": 4,
             "posters": [{"user_id": -1, "description": "Original Poster"}]}
        ]}
    }"#;
    let r = discourse_client::client::latest_response(200, body).unwrap();
    assert_eq!(r.users.len(), 2);
    assert_eq!(r.users[0].id, -1);
    assert_eq!(r.users[1].name, None);
    assert_eq!(r.topic_list.topics.len(), 1);
    let t = &r.topic_list.topics[0];
    assert_eq!(t.title, "Welcome");
    assert_eq!(t.category_id, Some(4));
    assert!(t.pinned);
    assert_eq!(t.posters[0].user_id, -1);
    assert_eq!(t.posters[0].description, "Original Poster");
    assert_eq!(t.posters[0].extras, None);
}

#[test]
fn one_bad_element_fails_the_whole_listing() {
    let body = r#"{"category_list":{"categories":[
        {"id":1,"name":"Ok","color":"0","text_color":"1","slug":"ok","topic_count":5},
        {"id":"broken"}
    ]}}"#;
    let r = discourse_client::client::categories_response(200, body);
    assert_eq!(r.unwrap_err(), Error::Decode);
}

#[test]
fn chat_messages_meta_defaults_when_absent() {
    let body = r#"{"messages":[]}"#;
    let r = discourse_client::client::channel_messages_response(200, body).unwrap();
    assert!(r.messages.is_empty());
    assert_eq!(r.meta.can_load_more_past, None);
    assert_eq!(r.meta.can_load_more_future, None);
}

#[test]
fn chat_message_listing_decodes_messages() {
    let body = r#"{"messages":[{"id":5,"message":"hi","cooked":"<p>hi</p>",
        "created_at":"2024-02-02T00:00:00Z",
        "user":{"id":2,"username":"bob","name":null,"avatar_template":"/b.png"},
        "chat_channel_id":9}],
        "meta":{"can_load_more_past":true,"can_load_more_future":false}}"#;
    let r = discourse_client::client::channel_messages_response(200, body).unwrap();
    assert_eq!(r.messages.len(), 1);
    assert_eq!(r.messages[0].message, "hi");
    assert_eq!(r.messages[0].user.username, "bob");
    assert_eq!(r.meta.can_load_more_past, Some(true));
    assert_eq!(r.meta.can_load_more_future, Some(false));
}

#[test]
fn chat_message_confirmation_decodes() {
    let body = r#"{"success":"OK","message_id":77}"#;
    let r = discourse_client::client::chat_message_response(200, body).unwrap();
    assert_eq!(r.success, "OK");
    assert_eq!(r.message_id, 77);
}

#[test]
fn notifications_decode_with_defaulted_data() {
    let body = r#"{"notifications":[
        {"id":1,"user_id":2,"notification_type":6,"read":false,"high_priority":true,
         "created_at":"2024-03-03T00:00:00Z","post_number":1,"topic_id":10,
         "slug":"welcome","fancy_title":"Welcome",
         "data":{"topic_title":"Welcome","display_username":"bob"}},
        {"id":2,"user_id":2,"notification_type":5,"read":true,"high_priority":false,
         "created_at":"2024-03-04T00:00:00Z","post_number":null,"topic_id":null,
         "slug":null,"fancy_title":null}
    ]}"#;
    let r = discourse_client::client::notifications_response(200, body).unwrap();
    assert_eq!(r.notifications.len(), 2);
    assert_eq!(r.notifications[0].data.topic_title.as_deref(), Some("Welcome"));
    assert_eq!(r.notifications[0].data.original_username, None);
    assert!(r.notifications[1].read);
    assert_eq!(r.notifications[1].data.display_username, None);
}

#[test]
fn channels_decode_with_raw_subtrees() {
    let body = r#"{
        "public_channels":[{"id":1,"title":"General chat","chatable":{"nested":{"deep":[1,2]}}}],
        "direct_message_channels":[],
        "tracking":{"unread":0}
    }"#;
    let r = discourse_client::client::channels_response(200, body).unwrap();
    let pubs = r.public_channels.as_ref().unwrap();
    assert_eq!(pubs.len(), 1);
    assert_eq!(pubs[0].title, "General chat");
    assert!(pubs[0].chatable.is_some());
    assert!(r.direct_message_channels.as_ref().unwrap().is_empty());
    assert!(r.channels.is_empty());
    assert!(r.tracking.is_some());
    assert!(r.meta.is_none());
}

#[test]
fn topic_detail_decodes_post_stream() {
    let body = r#"{"id":10,"title":"Welcome","posts_count":1,"category_id":null,
        "post_stream":{"posts":[{"id":20,"username":"bob",
          "created_at":"2024-01-01T00:00:00Z","cooked":"<p>x</p>","raw":"x",
          "post_number":1,"post_type":1,"reply_count":0,"quote_count":0,
          "reads":9,"topic_id":10}],"stream":[20]}}"#;
    let r = discourse_client::client::topic_response(200, body).unwrap();
    assert_eq!(r.id, 10);
    assert_eq!(r.title.as_deref(), Some("Welcome"));
    assert_eq!(r.category_id, None);
    assert_eq!(r.post_stream.posts[0].raw.as_deref(), Some("x"));
    assert_eq!(r.post_stream.stream, vec![20]);
}

#[test]
fn post_decodes_without_optional_raw() {
    let body = r#"{"id":20,"username":"bob","created_at":"2024-01-01T00:00:00Z",
        "cooked":"<p>x</p>","post_number":1,"post_type":1,"reply_count":0,
        "quote_count":0,"reads":9,"topic_id":10}"#;
    let p = discourse_client::client::post_response(200, body).unwrap();
    assert_eq!(p.raw, None);
    assert_eq!(p.reads, 9);
}
