//! The post entity, its projections and the request bodies, each with the
//! mathematical value that the contracts speak of.
//!
//! Times are whole microseconds since the Unix epoch.

use vstd::prelude::*;

verus! {

/// The texts held by a sequence of strings, in order.
pub open spec fn texts(v: Seq<String>) -> Seq<Seq<char>> {
    Seq::new(v.len(), |i: int| v[i]@)
}

/// A stored post as a value.
pub struct PostView {
    pub slug: Seq<char>,
    pub title: Seq<char>,
    pub description: Seq<char>,
    pub tags: Seq<Seq<char>>,
    pub thumbnail_url: Seq<char>,
    pub content: Seq<char>,
    pub hash: Seq<char>,
    pub created_at: int,
    pub updated_at: Option<int>,
}

/// A listing entry as a value.
pub struct PreviewView {
    pub slug: Seq<char>,
    pub title: Seq<char>,
    pub description: Seq<char>,
    pub tags: Seq<Seq<char>>,
    pub thumbnail_url: Seq<char>,
    pub created_at: int,
}

/// A slug with its content fingerprint, as a value.
pub struct HashView {
    pub slug: Seq<char>,
    pub hash: Seq<char>,
}

/// A creation payload as a value.
pub struct CreateView {
    pub slug: Seq<char>,
    pub title: Seq<char>,
    pub description: Seq<char>,
    pub tags: Seq<Seq<char>>,
    pub thumbnail_url: Seq<char>,
    pub content: Seq<char>,
    pub hash: Seq<char>,
}

/// An update payload as a value.
pub struct UpdateView {
    pub title: Seq<char>,
    pub description: Seq<char>,
    pub tags: Seq<Seq<char>>,
    pub thumbnail_url: Seq<char>,
    pub content: Seq<char>,
    pub hash: Seq<char>,
}

/// The listing entry of a post: everything but content, hash and update time.
pub open spec fn preview_of(p: PostView) -> PreviewView {
    PreviewView {
        slug: p.slug,
        title: p.title,
        description: p.description,
        tags: p.tags,
        thumbnail_url: p.thumbnail_url,
        created_at: p.created_at,
    }
}

/// The slug of a post with its fingerprint.
pub open spec fn hash_of(p: PostView) -> HashView {
    HashView { slug: p.slug, hash: p.hash }
}

/// The post that a creation payload gives at time `now`: the payload's
/// fields as they are, created at `now` and never updated.
pub open spec fn created(c: CreateView, now: int) -> PostView {
    PostView {
        slug: c.slug,
        title: c.title,
        description: c.description,
        tags: c.tags,
        thumbnail_url: c.thumbnail_url,
        content: c.content,
        hash: c.hash,
        created_at: now,
        updated_at: None,
    }
}

/// The post `p` after an update at time `now`: slug and creation time stay,
/// every other field comes from the payload, and the update time is `now`.
pub open spec fn updated(p: PostView, u: UpdateView, now: int) -> PostView {
    PostView {
        slug: p.slug,
        title: u.title,
        description: u.description,
        tags: u.tags,
        thumbnail_url: u.thumbnail_url,
        content: u.content,
        hash: u.hash,
        created_at: p.created_at,
        updated_at: Some(now),
    }
}

/// Listing entry of a post.
#[derive(Debug)]
pub struct BlogPostPreview {
    pub slug: String,
    pub title: String,
    pub description: String,
    pub tags: Vec<String>,
    pub thumbnail_url: String,
    pub created_at: i64,
}

impl View for BlogPostPreview {
    type V = PreviewView;

    open spec fn view(&self) -> PreviewView {
        PreviewView {
            slug: self.slug@,
            title: self.title@,
            description: self.description@,
            tags: texts(self.tags@),
            thumbnail_url: self.thumbnail_url@,
            created_at: self.created_at as int,
        }
    }
}

/// Body of the listing response.
#[derive(Debug)]
pub struct BlogPostPreviewResponseBody {
    pub posts: Vec<BlogPostPreview>,
}

/// The full post, as stored and as returned by a single-post read.
#[derive(Debug)]
pub struct BlogPostResponseBody {
    pub slug: String,
    pub title: String,
    pub description: String,
    pub tags: Vec<String>,
    pub thumbnail_url: String,
    pub created_at: i64,
    pub updated_at: Option<i64>,
    pub content: String,
    pub hash: String,
}

impl View for BlogPostResponseBody {
    type V = PostView;

    open spec fn view(&self) -> PostView {
        PostView {
            slug: self.slug@,
            title: self.title@,
            description: self.description@,
            tags: texts(self.tags@),
            thumbnail_url: self.thumbnail_url@,
            content: self.content@,
            hash: self.hash@,
            created_at: self.created_at as int,
            updated_at: match self.updated_at {
                Some(t) => Some(t as int),
                None => None,
            },
        }
    }
}

/// Payload of a creation.
#[derive(Debug)]
pub struct BlogPostCreateRequestBody {
    pub slug: String,
    pub title: String,
    pub description: String,
    pub tags: Vec<String>,
    pub thumbnail_url: String,
    pub content: String,
    pub hash: String,
}

impl View for BlogPostCreateRequestBody {
    type V = CreateView;

    open spec fn view(&self) -> CreateView {
        CreateView {
            slug: self.slug@,
            title: self.title@,
            description: self.description@,
            tags: texts(self.tags@),
            thumbnail_url: self.thumbnail_url@,
            content: self.content@,
            hash: self.hash@,
        }
    }
}

/// Payload of an update: every mutable field.
#[derive(Debug)]
pub struct BlogPostUpdateRequestBody {
    pub title: String,
    pub description: String,
    pub tags: Vec<String>,
    pub thumbnail_url: String,
    pub content: String,
    pub hash: String,
}

impl View for BlogPostUpdateRequestBody {
    type V = UpdateView;

    open spec fn view(&self) -> UpdateView {
        UpdateView {
            title: self.title@,
            description: self.description@,
            tags: texts(self.tags@),
            thumbnail_url: self.thumbnail_url@,
            content: self.content@,
            hash: self.hash@,
        }
    }
}

/// A slug with the fingerprint that its author gave the post.
#[derive(Debug)]
pub struct BlogPostHash {
    pub slug: String,
    pub hash: String,
}

impl View for BlogPostHash {
    type V = HashView;

    open spec fn view(&self) -> HashView {
        HashView { slug: self.slug@, hash: self.hash@ }
    }
}

/// Body of the fingerprint listing.
#[derive(Debug)]
pub struct BlogPostHashesResponseBody {
    pub posts: Vec<BlogPostHash>,
}

/// The settings that the service is started with.
#[derive(Debug)]
pub struct Configuration {
    pub service_ip: String,
    pub service_port: u16,
    pub allowed_origins: Vec<String>,
    pub database_url: String,
    pub database_max_connections: u32,
    pub management_api_key: String,
    pub sentry_dsn: Option<String>,
}

/// A copy of a list of strings.
pub fn clone_texts(v: &Vec<String>) -> (r: Vec<String>)
    ensures
        texts(r@) == texts(v@),
{
    let mut r: Vec<String> = Vec::new();
    let mut i: usize = 0;
    while i < v.len()
        invariant
            i <= v@.len(),
            r@.len() == i,
            forall|j: int| 0 <= j < i ==> r@[j]@ == v@[j]@,
        decreases v@.len() - i,
    {
        r.push(v[i].clone());
        i += 1;
    }
    assert(texts(r@) =~= texts(v@));
    r
}

impl BlogPostResponseBody {
    /// The post that a creation payload gives at time `now`.
    pub fn create(body: BlogPostCreateRequestBody, now: i64) -> (r: BlogPostResponseBody)
        ensures
            r@ == created(body@, now as int),
    {
        BlogPostResponseBody {
            slug: body.slug,
            title: body.title,
            description: body.description,
            tags: body.tags,
            thumbnail_url: body.thumbnail_url,
            created_at: now,
            updated_at: None,
            content: body.content,
            hash: body.hash,
        }
    }

    /// This post after an update at time `now`.
    pub fn update(self, body: BlogPostUpdateRequestBody, now: i64) -> (r: BlogPostResponseBody)
        ensures
            r@ == updated(self@, body@, now as int),
    {
        BlogPostResponseBody {
            slug: self.slug,
            title: body.title,
            description: body.description,
            tags: body.tags,
            thumbnail_url: body.thumbnail_url,
            created_at: self.created_at,
            updated_at: Some(now),
            content: body.content,
            hash: body.hash,
        }
    }

    /// The listing entry of this post.
    pub fn preview(&self) -> (r: BlogPostPreview)
        ensures
            r@ == preview_of(self@),
    {
        BlogPostPreview {
            slug: self.slug.clone(),
            title: self.title.clone(),
            description: self.description.clone(),
            tags: clone_texts(&self.tags),
            thumbnail_url: self.thumbnail_url.clone(),
            created_at: self.created_at,
        }
    }

    /// The slug of this post with its fingerprint.
    pub fn hash_record(&self) -> (r: BlogPostHash)
        ensures
            r@ == hash_of(self@),
    {
        BlogPostHash { slug: self.slug.clone(), hash: self.hash.clone() }
    }

    /// A copy of this post.
    pub fn duplicate(&self) -> (r: BlogPostResponseBody)
        ensures
            r@ == self@,
    {
        BlogPostResponseBody {
            slug: self.slug.clone(),
            title: self.title.clone(),
            description: self.description.clone(),
            tags: clone_texts(&self.tags),
            thumbnail_url: self.thumbnail_url.clone(),
            created_at: self.created_at,
            updated_at: self.updated_at,
            content: self.content.clone(),
            hash: self.hash.clone(),
        }
    }
}

} // verus!
