//! The service as a whole: the authenticator, the store and the response policy
//! composed into the six operations, over the in-memory store.

use vstd::prelude::*;
use vstd::utf8::encode_utf8;
use crate::authentication::{auth_failure, header_bytes, set_credential, AuthFailure, Authenticated, CredentialStore};
use crate::blog::{capture_text, create_blog_post, delete_blog_post, get_blog_post, get_blog_post_hashes, get_blog_posts, is_empty_success, is_error_reply, missing_text, update_blog_post, Outcome};
use crate::model::{hash_of, preview_of, BlogPostCreateRequestBody, BlogPostUpdateRequestBody, PostView};
use crate::repository::{after_delete, after_insert, after_update, conflict_text, has_slug, lookup, well_formed, PostRepository};
use crate::response::Payload;

verus! {

/// The store together with the credential that guards its writes. The
/// credential is set from the start.
pub struct BlogService {
    repository: PostRepository,
    credentials: CredentialStore,
}

impl BlogService {
    /// What holds of every service: the credential is set, and the store
    /// holds no slug twice and lists its posts newest first.
    #[verifier::type_invariant]
    pub open spec fn wf(&self) -> bool {
        self.is_guarded() && well_formed(self.posts())
    }

    /// The credential is set.
    pub closed spec fn is_guarded(&self) -> bool {
        self.credentials@ is Some
    }

    /// The posts that the store holds, newest first.
    pub closed spec fn posts(&self) -> Seq<PostView> {
        self.repository@
    }

    /// The credential that guards the writes.
    pub closed spec fn credential(&self) -> Seq<char> {
        self.credentials@->0
    }

    /// What the authenticator says of a header.
    pub open spec fn verdict(&self, header: Option<&[u8]>) -> Option<AuthFailure> {
        auth_failure(header_bytes(header), encode_utf8(self.credential()))
    }

    /// The outcome is the refusal that this header earns:
    /// status 401 with the reason, and nothing recorded.
    pub open spec fn is_refusal(&self, header: Option<&[u8]>, r: Outcome) -> bool {
        &&& self.verdict(header) is Some
        &&& is_error_reply(r.response, 401, self.verdict(header)->0.text())
        &&& r.capture is None
    }

    /// A service with an empty store, guarded by `credential`.
    pub fn new(credential: &str) -> (r: BlogService)
        ensures
            r.posts() == Seq::<PostView>::empty(),
            r.credential() == credential@,
    {
        let mut credentials: CredentialStore = CredentialStore::new();
        set_credential(&mut credentials, credential);
        let repository: PostRepository = PostRepository::new();
        proof {
            use_type_invariant(&repository);
        }
        BlogService { repository, credentials }
    }

    /// How many posts the store holds.
    pub fn len(&self) -> (r: usize)
        ensures
            r == self.posts().len(),
    {
        self.repository.len()
    }

    fn authenticate(&self, header: Option<&[u8]>) -> (r: Result<Authenticated, Outcome>)
        ensures
            match r {
                Ok(_) => self.verdict(header) is None,
                Err(refusal) => self.is_refusal(header, refusal),
            },
    {
        proof {
            use_type_invariant(self);
        }
        match Authenticated::from_request(header, &self.credentials) {
            Ok(auth) => Ok(auth),
            Err(error) => Err(Outcome { response: error.error_response(), capture: None }),
        }
    }

    /// Lists the previews of all posts, newest first. Open to everyone.
    pub fn list_posts(&self) -> (r: Outcome)
        ensures
            r.response.status == 200,
            r.capture is None,
            r.response.payload matches Payload::Previews(body) && body.posts@.len()
                == self.posts().len() && forall|i: int|
                0 <= i < body.posts@.len() ==> (#[trigger] body.posts@[i])@ == preview_of(
                    self.posts()[i],
                ),
    {
        get_blog_posts(Ok(self.repository.list_previews()))
    }

    /// Returns the post with this slug, or status 404 naming the slug.
    /// Open to everyone.
    pub fn get_post(&self, slug: &str) -> (r: Outcome)
        ensures
            r.capture is None,
            match lookup(self.posts(), slug@) {
                Some(p) => r.response.status == 200 && (
                r.response.payload matches Payload::Post(post) && post@ == p),
                None => is_error_reply(r.response, 404, missing_text(slug@)),
            },
    {
        get_blog_post(slug, self.repository.get_by_slug(slug))
    }

    /// Lists slug and fingerprint of every post, for an authenticated
    /// caller.
    pub fn list_hashes(&self, header: Option<&[u8]>) -> (r: Outcome)
        ensures
            match self.verdict(header) {
                Some(_) => self.is_refusal(header, r),
                None => r.response.status == 200 && r.capture is None && (
                r.response.payload matches Payload::Hashes(body) && body.posts@.len()
                    == self.posts().len() && forall|i: int|
                    0 <= i < body.posts@.len() ==> (#[trigger] body.posts@[i])@ == hash_of(
                        self.posts()[i],
                    )),
            },
    {
        match self.authenticate(header) {
            Err(refusal) => refusal,
            Ok(auth) => get_blog_post_hashes(Ok(self.repository.list_hashes()), auth),
        }
    }

    /// Creates a post at time `now`, for an authenticated caller. A
    /// refused caller and a taken slug both leave the store as it was; the
    /// taken slug is answered with status 500.
    pub fn create_post(
        &mut self,
        header: Option<&[u8]>,
        post: BlogPostCreateRequestBody,
        now: i64,
    ) -> (r: Outcome)
        ensures
            final(self).credential() == old(self).credential(),
            match old(self).verdict(header) {
                Some(_) => old(self).is_refusal(header, r) && final(self).posts() == old(self).posts(),
                None => {
                    &&& final(self).posts() == after_insert(
                        old(self).posts(),
                        post@,
                        now as int,
                    )
                    &&& if has_slug(old(self).posts(), post@.slug) {
                        &&& is_error_reply(r.response, 500, "Failed to create post"@)
                        &&& r.capture matches Some(text) && text@ == capture_text(
                            "Failed to create post"@,
                            conflict_text(),
                        )
                    } else {
                        is_empty_success(r)
                    }
                },
            },
    {
        proof {
            use_type_invariant(&*self);
        }
        match self.authenticate(header) {
            Err(refusal) => refusal,
            Ok(auth) => {
                let mut repository: PostRepository = PostRepository::new();
                proof {
                    use_type_invariant(&repository);
                }
                std::mem::swap(&mut repository, &mut self.repository);
                let result = repository.insert(post, now);
                proof {
                    use_type_invariant(&repository);
                }
                self.repository = repository;
                create_blog_post(result, auth)
            },
        }
    }

    /// Replaces the mutable fields of the post with this slug at time
    /// `now`, for an authenticated caller. A slug that names no post
    /// is answered like one that does.
    pub fn update_post(
        &mut self,
        header: Option<&[u8]>,
        slug: &str,
        post: BlogPostUpdateRequestBody,
        now: i64,
    ) -> (r: Outcome)
        ensures
            final(self).credential() == old(self).credential(),
            match old(self).verdict(header) {
                Some(_) => old(self).is_refusal(header, r) && final(self).posts() == old(self).posts(),
                None => is_empty_success(r) && final(self).posts() == after_update(
                    old(self).posts(),
                    slug@,
                    post@,
                    now as int,
                ),
            },
    {
        proof {
            use_type_invariant(&*self);
        }
        match self.authenticate(header) {
            Err(refusal) => refusal,
            Ok(auth) => {
                let mut repository: PostRepository = PostRepository::new();
                proof {
                    use_type_invariant(&repository);
                }
                std::mem::swap(&mut repository, &mut self.repository);
                let result = repository.update(slug, post, now);
                proof {
                    use_type_invariant(&repository);
                }
                self.repository = repository;
                update_blog_post(result, auth)
            },
        }
    }

    /// Removes the post with this slug, for an authenticated
    /// caller. A slug that names no post is answered like one that does.
    pub fn delete_post(&mut self, header: Option<&[u8]>, slug: &str) -> (r: Outcome)
        ensures
            final(self).credential() == old(self).credential(),
            match old(self).verdict(header) {
                Some(_) => old(self).is_refusal(header, r) && final(self).posts() == old(self).posts(),
                None => is_empty_success(r) && final(self).posts() == after_delete(
                    old(self).posts(),
                    slug@,
                ),
            },
    {
        proof {
            use_type_invariant(&*self);
        }
        match self.authenticate(header) {
            Err(refusal) => refusal,
            Ok(auth) => {
                let mut repository: PostRepository = PostRepository::new();
                proof {
                    use_type_invariant(&repository);
                }
                std::mem::swap(&mut repository, &mut self.repository);
                let result = repository.delete(slug);
                proof {
                    use_type_invariant(&repository);
                }
                self.repository = repository;
                delete_blog_post(result, auth)
            },
        }
    }
}

} // verus!
