//! The six operations of the service, each as the decision that follows
//! the store's answer: which status, which body, and what goes to the
//! capture channel.

use vstd::prelude::*;
use vstd::string::*;
use crate::authentication::Authenticated;
use crate::model::{BlogPostHash, BlogPostHashesResponseBody, BlogPostPreview, BlogPostPreviewResponseBody, BlogPostResponseBody};
use crate::repository::StoreError;
use crate::response::{error_envelope, json_string, HttpJsonErrorResponse, HttpJsonResponse, HttpResponse, HttpResponseBuilder, Payload};

verus! {

/// The request methods that the service answers.
#[derive(Clone, Copy, Debug, PartialEq, Eq, Structural)]
pub enum Method {
    Get,
    Post,
    Patch,
    Delete,
}

/// The six operations of the service.
#[derive(Clone, Copy, Debug, PartialEq, Eq, Structural)]
pub enum Operation {
    ListPosts,
    GetPost,
    ListHashes,
    CreatePost,
    UpdatePost,
    DeletePost,
}

impl Operation {
    /// The path under which the operation is served; `{id}` stands for
    /// the slug.
    pub open spec fn path_text(self) -> Seq<char> {
        match self {
            Operation::ListPosts => "/blog/v1/posts"@,
            Operation::GetPost => "/blog/v1/posts/{id}"@,
            Operation::ListHashes => "/blog/v1/admin/posts/hashes"@,
            Operation::CreatePost => "/blog/v1/admin/posts"@,
            Operation::UpdatePost => "/blog/v1/admin/posts/{id}"@,
            Operation::DeletePost => "/blog/v1/admin/posts/{id}"@,
        }
    }

    /// The method by which the operation is asked for.
    pub open spec fn method_of(self) -> Method {
        match self {
            Operation::ListPosts => Method::Get,
            Operation::GetPost => Method::Get,
            Operation::ListHashes => Method::Get,
            Operation::CreatePost => Method::Post,
            Operation::UpdatePost => Method::Patch,
            Operation::DeletePost => Method::Delete,
        }
    }

    /// Whether the caller must present the credential: for everything but
    /// the two public reads.
    pub open spec fn is_protected(self) -> bool {
        self != Operation::ListPosts && self != Operation::GetPost
    }

    pub fn path(self) -> (r: &'static str)
        ensures
            r@ == self.path_text(),
    {
        match self {
            Operation::ListPosts => "/blog/v1/posts",
            Operation::GetPost => "/blog/v1/posts/{id}",
            Operation::ListHashes => "/blog/v1/admin/posts/hashes",
            Operation::CreatePost => "/blog/v1/admin/posts",
            Operation::UpdatePost => "/blog/v1/admin/posts/{id}",
            Operation::DeletePost => "/blog/v1/admin/posts/{id}",
        }
    }

    pub fn method(self) -> (r: Method)
        ensures
            r == self.method_of(),
    {
        match self {
            Operation::ListPosts => Method::Get,
            Operation::GetPost => Method::Get,
            Operation::ListHashes => Method::Get,
            Operation::CreatePost => Method::Post,
            Operation::UpdatePost => Method::Patch,
            Operation::DeletePost => Method::Delete,
        }
    }

    pub fn requires_authentication(self) -> (r: bool)
        ensures
            r == self.is_protected(),
    {
        match self {
            Operation::ListPosts => false,
            Operation::GetPost => false,
            _ => true,
        }
    }

    /// The operations in the order in which they are registered: the
    /// public reads first.
    pub fn all() -> (r: Vec<Operation>)
        ensures
            r@ == seq![
                Operation::ListPosts,
                Operation::GetPost,
                Operation::ListHashes,
                Operation::CreatePost,
                Operation::UpdatePost,
                Operation::DeletePost,
            ],
    {
        let mut r: Vec<Operation> = Vec::new();
        r.push(Operation::ListPosts);
        r.push(Operation::GetPost);
        r.push(Operation::ListHashes);
        r.push(Operation::CreatePost);
        r.push(Operation::UpdatePost);
        r.push(Operation::DeletePost);
        assert(r@ =~= seq![
            Operation::ListPosts,
            Operation::GetPost,
            Operation::ListHashes,
            Operation::CreatePost,
            Operation::UpdatePost,
            Operation::DeletePost,
        ]);
        r
    }
}

/// What an operation decided: the response, and the message for the
/// capture channel where the store failed.
#[derive(Debug)]
pub struct Outcome {
    pub response: HttpResponse,
    pub capture: Option<String>,
}

/// The response has this status and carries the error envelope of this
/// message.
pub open spec fn is_error_reply(r: HttpResponse, status: u16, message: Seq<char>) -> bool {
    &&& r.status == status
    &&& r.payload matches Payload::Error(text) && text@ == error_envelope(json_string(message))
}

/// The message that records a failed attempt with the store's description.
pub open spec fn capture_text(attempt: Seq<char>, detail: Seq<char>) -> Seq<char> {
    attempt + " due to "@ + detail + " error"@
}

/// The message of a lookup that found nothing.
pub open spec fn missing_text(slug: Seq<char>) -> Seq<char> {
    slug + " does not exist"@
}

/// The outcome is status 500 with the generic message in the envelope,
/// and the attempt is recorded with the store's description.
pub open spec fn is_internal_failure(
    r: Outcome,
    attempt: Seq<char>,
    err: StoreError,
) -> bool {
    &&& is_error_reply(r.response, 500, attempt)
    &&& r.capture matches Some(text) && text@ == capture_text(attempt, err.detail())
}

/// The outcome is status 200 with an empty body, and nothing is recorded.
pub open spec fn is_empty_success(r: Outcome) -> bool {
    r.response.status == 200 && r.response.payload == Payload::Empty && r.capture is None
}

fn internal_failure(attempt: &str, named: String, err: &StoreError) -> (r: Outcome)
    ensures
        is_error_reply(r.response, 500, attempt@),
        r.capture matches Some(text) && text@ == capture_text(named@, err.detail()),
{
    let detail: String = err.describe();
    let text: String = named.concat(" due to ").concat(detail.as_str()).concat(" error");
    Outcome {
        response: HttpResponseBuilder::internal_server_error().into_json_error(attempt),
        capture: Some(text),
    }
}

fn written(result: Result<(), StoreError>, attempt: &str) -> (r: Outcome)
    ensures
        match result {
            Ok(_) => is_empty_success(r),
            Err(err) => is_internal_failure(r, attempt@, err),
        },
{
    match result {
        Ok(_) => Outcome { response: HttpResponseBuilder::ok().finish(), capture: None },
        Err(err) => internal_failure(attempt, String::from_str(attempt), &err),
    }
}

/// Listing of previews: the store's rows as they came, in status 200.
pub fn get_blog_posts(result: Result<Vec<BlogPostPreview>, StoreError>) -> (r: Outcome)
    ensures
        match result {
            Ok(posts) => r.response.status == 200 && r.response.payload == Payload::Previews(
                (BlogPostPreviewResponseBody { posts }),
            ) && r.capture is None,
            Err(err) => is_internal_failure(r, "Failed to fetch posts"@, err),
        },
{
    match result {
        Ok(posts) => {
            let body: BlogPostPreviewResponseBody = BlogPostPreviewResponseBody { posts };
            Outcome {
                response: HttpResponseBuilder::ok().into_json(Payload::Previews(body)),
                capture: None,
            }
        },
        Err(err) => internal_failure(
            "Failed to fetch posts",
            String::from_str("Failed to fetch posts"),
            &err,
        ),
    }
}

/// Single-post read: the post in status 200; status 404 naming the slug
/// where the store found no row; status 500 on any other failure.
pub fn get_blog_post(slug: &str, result: Result<BlogPostResponseBody, StoreError>) -> (r: Outcome)
    ensures
        match result {
            Ok(post) => r.response.status == 200 && r.response.payload == Payload::Post(post)
                && r.capture is None,
            Err(StoreError::RowNotFound) => is_error_reply(r.response, 404, missing_text(slug@))
                && r.capture is None,
            Err(err) => {
                &&& is_error_reply(r.response, 500, "Failed to find post"@)
                &&& r.capture matches Some(text) && text@ == capture_text(
                    "Failed to find "@ + slug@,
                    err.detail(),
                )
            },
        },
{
    match result {
        Ok(post) => Outcome {
            response: HttpResponseBuilder::ok().into_json(Payload::Post(post)),
            capture: None,
        },
        Err(err) => match err {
            StoreError::RowNotFound => {
                let message: String = String::from_str(slug).concat(" does not exist");
                Outcome {
                    response: HttpResponseBuilder::not_found().into_json_error(message),
                    capture: None,
                }
            },
            _ => internal_failure(
                "Failed to find post",
                String::from_str("Failed to find ").concat(slug),
                &err,
            ),
        },
    }
}

/// Listing of fingerprints, for an authenticated caller.
pub fn get_blog_post_hashes(result: Result<Vec<BlogPostHash>, StoreError>, _auth: Authenticated) -> (r:
    Outcome)
    ensures
        match result {
            Ok(posts) => r.response.status == 200 && r.response.payload == Payload::Hashes(
                (BlogPostHashesResponseBody { posts }),
            ) && r.capture is None,
            Err(err) => is_internal_failure(r, "Failed to fetch post hashes"@, err),
        },
{
    match result {
        Ok(posts) => {
            let model: BlogPostHashesResponseBody = BlogPostHashesResponseBody { posts };
            Outcome {
                response: HttpResponseBuilder::ok().into_json(Payload::Hashes(model)),
                capture: None,
            }
        },
        Err(err) => internal_failure(
            "Failed to fetch post hashes",
            String::from_str("Failed to fetch post hashes"),
            &err,
        ),
    }
}

/// Creation, for an authenticated caller: an empty status 200, or status
/// 500 whatever made the store fail, a taken slug included.
pub fn create_blog_post(result: Result<(), StoreError>, _auth: Authenticated) -> (r: Outcome)
    ensures
        match result {
            Ok(_) => is_empty_success(r),
            Err(err) => is_internal_failure(r, "Failed to create post"@, err),
        },
{
    written(result, "Failed to create post")
}

/// Update, for an authenticated caller.
pub fn update_blog_post(result: Result<(), StoreError>, _auth: Authenticated) -> (r: Outcome)
    ensures
        match result {
            Ok(_) => is_empty_success(r),
            Err(err) => is_internal_failure(r, "Failed to update post"@, err),
        },
{
    written(result, "Failed to update post")
}

/// Delete, for an authenticated caller.
pub fn delete_blog_post(result: Result<(), StoreError>, _auth: Authenticated) -> (r: Outcome)
    ensures
        match result {
            Ok(_) => is_empty_success(r),
            Err(err) => is_internal_failure(r, "Failed to delete post"@, err),
        },
{
    written(result, "Failed to delete post")
}

} // verus!
