use blog_service::authentication::Authenticated;
use blog_service::blog::{
    create_blog_post, delete_blog_post, get_blog_post, get_blog_post_hashes, get_blog_posts,
    update_blog_post, Method, Operation,
};
use blog_service::model::{BlogPostHash, BlogPostPreview, BlogPostResponseBody};
use blog_service::repository::StoreError;
use blog_service::response::{
    ErrorBody, HttpJsonErrorResponse, HttpJsonResponse, HttpResponseBuilder, Message, Payload,
};

fn error_text(payload: Payload) -> String {
    match payload {
        Payload::Error(text) => text,
        _ => panic!("not an error body"),
    }
}

fn sample_post() -> BlogPostResponseBody {
    BlogPostResponseBody {
        slug: String::from("a"),
        title: String::from("A"),
        description: String::from("d"),
        tags: vec![String::from("x"), String::from("y")],
        thumbnail_url: String::from("t.png"),
        created_at: 10,
        updated_at: None,
        content: String::from("body"),
        hash: String::from("h"),
    }
}

#[test]
fn message_converts_both_string_kinds() {
    assert_eq!(String::from("owned").convert(), "owned");
    assert_eq!("borrowed".convert(), "borrowed");
}

#[test]
fn error_body_json_is_the_envelope() {
    assert_eq!(ErrorBody::json("Failed to fetch posts"), "{\"error\":\"Failed to fetch posts\"}");
    assert_eq!(ErrorBody::json(String::from("")), "{\"error\":\"\"}");
}

#[test]
fn error_body_json_escapes_the_message() {
    let message = "a \"quoted\" line\nand a \\ and a tab\t";
    let text = ErrorBody::json(message);
    assert_eq!(text, "{\"error\":\"a \\\"quoted\\\" line\\nand a \\\\ and a tab\\t\"}");
    let parsed: serde_json::Value = serde_json::from_str(&text).unwrap();
    assert_eq!(parsed.get("error").and_then(|v| v.as_str()), Some(message));
    assert_eq!(parsed.as_object().map(|o| o.len()), Some(1));
}

#[test]
fn envelope_wraps_a_quoted_message() {
    assert_eq!(ErrorBody::envelope("\"m\""), "{\"error\":\"m\"}");
}

#[test]
fn builder_statuses() {
    assert_eq!(HttpResponseBuilder::ok().status, 200);
    assert_eq!(HttpResponseBuilder::unauthorized().status, 401);
    assert_eq!(HttpResponseBuilder::not_found().status, 404);
    assert_eq!(HttpResponseBuilder::internal_server_error().status, 500);
    let empty = HttpResponseBuilder::ok().finish();
    assert_eq!(empty.status, 200);
    assert!(matches!(empty.payload, Payload::Empty));
}

#[test]
fn builder_into_json_keeps_status_and_body() {
    let r = HttpResponseBuilder::ok().into_json(Payload::Post(sample_post()));
    assert_eq!(r.status, 200);
    match r.payload {
        Payload::Post(p) => assert_eq!(p.slug, "a"),
        _ => panic!("not a post"),
    }
    let e = HttpResponseBuilder::not_found().into_json_error("gone");
    assert_eq!(e.status, 404);
    assert_eq!(error_text(e.payload), "{\"error\":\"gone\"}");
}

#[test]
fn listing_success_carries_the_rows() {
    let row = BlogPostPreview {
        slug: String::from("a"),
        title: String::from("A"),
        description: String::from("d"),
        tags: vec![String::from("x")],
        thumbnail_url: String::from("t.png"),
        created_at: 5,
    };
    let out = get_blog_posts(Ok(vec![row]));
    assert_eq!(out.response.status, 200);
    assert!(out.capture.is_none());
    match out.response.payload {
        Payload::Previews(body) => {
            assert_eq!(body.posts.len(), 1);
            assert_eq!(body.posts[0].slug, "a");
            assert_eq!(body.posts[0].created_at, 5);
        }
        _ => panic!("not a listing"),
    }
}

#[test]
fn listing_of_nothing_is_an_empty_success() {
    let out = get_blog_posts(Ok(Vec::new()));
    assert_eq!(out.response.status, 200);
    match out.response.payload {
        Payload::Previews(body) => assert!(body.posts.is_empty()),
        _ => panic!("not a listing"),
    }
}

#[test]
fn listing_failure_is_generic_and_captured() {
    let out = get_blog_posts(Err(StoreError::Other(String::from("PoolTimedOut"))));
    assert_eq!(out.response.status, 500);
    assert_eq!(error_text(out.response.payload), "{\"error\":\"Failed to fetch posts\"}");
    assert_eq!(out.capture.as_deref(), Some("Failed to fetch posts due to PoolTimedOut error"));
}

#[test]
fn single_post_success() {
    let out = get_blog_post("a", Ok(sample_post()));
    assert_eq!(out.response.status, 200);
    assert!(out.capture.is_none());
    match out.response.payload {
        Payload::Post(p) => {
            assert_eq!(p.hash, "h");
            assert_eq!(p.content, "body");
        }
        _ => panic!("not a post"),
    }
}

#[test]
fn single_post_missing_names_the_slug() {
    let out = get_blog_post("no-such-post", Err(StoreError::RowNotFound));
    assert_eq!(out.response.status, 404);
    assert!(out.capture.is_none());
    assert_eq!(error_text(out.response.payload), "{\"error\":\"no-such-post does not exist\"}");
}

#[test]
fn single_post_other_failure_is_generic_and_captured() {
    let out = get_blog_post("a", Err(StoreError::Other(String::from("Io(broken pipe)"))));
    assert_eq!(out.response.status, 500);
    assert_eq!(error_text(out.response.payload), "{\"error\":\"Failed to find post\"}");
    assert_eq!(out.capture.as_deref(), Some("Failed to find a due to Io(broken pipe) error"));
}

#[test]
fn hashes_success_and_failure() {
    let row = BlogPostHash { slug: String::from("a"), hash: String::from("h") };
    let out = get_blog_post_hashes(Ok(vec![row]), Authenticated);
    assert_eq!(out.response.status, 200);
    match out.response.payload {
        Payload::Hashes(body) => {
            assert_eq!(body.posts.len(), 1);
            assert_eq!(body.posts[0].slug, "a");
            assert_eq!(body.posts[0].hash, "h");
        }
        _ => panic!("not a hash listing"),
    }
    let out = get_blog_post_hashes(Err(StoreError::Other(String::from("E"))), Authenticated);
    assert_eq!(out.response.status, 500);
    assert_eq!(error_text(out.response.payload), "{\"error\":\"Failed to fetch post hashes\"}");
    assert_eq!(out.capture.as_deref(), Some("Failed to fetch post hashes due to E error"));
}

#[test]
fn writes_succeed_with_an_empty_body() {
    for out in [
        create_blog_post(Ok(()), Authenticated),
        update_blog_post(Ok(()), Authenticated),
        delete_blog_post(Ok(()), Authenticated),
    ] {
        assert_eq!(out.response.status, 200);
        assert!(matches!(out.response.payload, Payload::Empty));
        assert!(out.capture.is_none());
    }
}

#[test]
fn writes_fail_with_their_own_generic_message() {
    let out = create_blog_post(Err(StoreError::Other(String::from("E"))), Authenticated);
    assert_eq!(out.response.status, 500);
    assert_eq!(error_text(out.response.payload), "{\"error\":\"Failed to create post\"}");
    assert_eq!(out.capture.as_deref(), Some("Failed to create post due to E error"));
    let out = update_blog_post(Err(StoreError::Other(String::from("E"))), Authenticated);
    assert_eq!(out.response.status, 500);
    assert_eq!(error_text(out.response.payload), "{\"error\":\"Failed to update post\"}");
    assert_eq!(out.capture.as_deref(), Some("Failed to update post due to E error"));
    let out = delete_blog_post(Err(StoreError::RowNotFound), Authenticated);
    assert_eq!(out.response.status, 500);
    assert_eq!(error_text(out.response.payload), "{\"error\":\"Failed to delete post\"}");
    assert_eq!(out.capture.as_deref(), Some("Failed to delete post due to RowNotFound error"));
}

#[test]
fn store_error_descriptions() {
    assert_eq!(StoreError::RowNotFound.describe(), "RowNotFound");
    assert_eq!(StoreError::Other(String::from("x")).describe(), "x");
}

#[test]
fn operations_have_their_paths_methods_and_protection() {
    let table: Vec<(Operation, Method, &str, bool)> = vec![
        (Operation::ListPosts, Method::Get, "/blog/v1/posts", false),
        (Operation::GetPost, Method::Get, "/blog/v1/posts/{id}", false),
        (Operation::ListHashes, Method::Get, "/blog/v1/admin/posts/hashes", true),
        (Operation::CreatePost, Method::Post, "/blog/v1/admin/posts", true),
        (Operation::UpdatePost, Method::Patch, "/blog/v1/admin/posts/{id}", true),
        (Operation::DeletePost, Method::Delete, "/blog/v1/admin/posts/{id}", true),
    ];
    let all = Operation::all();
    assert_eq!(all.len(), table.len());
    for (i, (operation, method, path, protected)) in table.into_iter().enumerate() {
        assert_eq!(all[i], operation);
        assert_eq!(operation.method(), method);
        assert_eq!(operation.path(), path);
        assert_eq!(operation.requires_authentication(), protected);
    }
}
