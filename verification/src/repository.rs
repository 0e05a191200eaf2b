//! A reference model of the post store, held in memory.
//!
//! The store is a sequence of posts without repeated slugs, newest first.
//! Each operation is stated as a function on that sequence, and the laws
//! that relate the operations are proved of those functions.

use vstd::prelude::*;
use vstd::string::*;
use crate::model::{created, hash_of, preview_of, updated, BlogPostCreateRequestBody, BlogPostHash, BlogPostPreview, BlogPostResponseBody, BlogPostUpdateRequestBody, CreateView, PostView, UpdateView};

verus! {

/// Why the store could not serve an operation.
#[derive(Debug)]
pub enum StoreError {
    /// A point lookup matched no row.
    RowNotFound,
    /// Any other failure, with its description.
    Other(String),
}

impl StoreError {
    /// The description of the failure that goes to the capture channel.
    pub open spec fn detail(&self) -> Seq<char> {
        match self {
            StoreError::RowNotFound => "RowNotFound"@,
            StoreError::Other(text) => text@,
        }
    }

    pub fn describe(&self) -> (r: String)
        ensures
            r@ == self.detail(),
    {
        match self {
            StoreError::RowNotFound => String::from_str("RowNotFound"),
            StoreError::Other(text) => text.clone(),
        }
    }
}

/// The description of the failure of an insert under a taken slug.
pub open spec fn conflict_text() -> Seq<char> {
    "duplicate key value violates unique constraint"@
}

/// Some post of the store has this slug.
pub open spec fn has_slug(s: Seq<PostView>, slug: Seq<char>) -> bool {
    exists|i: int| 0 <= i < s.len() && (#[trigger] s[i]).slug == slug
}

/// The place of the post with this slug, where there is one.
pub open spec fn slug_index(s: Seq<PostView>, slug: Seq<char>) -> int {
    choose|i: int| 0 <= i < s.len() && (#[trigger] s[i]).slug == slug
}

/// No two posts share a slug.
pub open spec fn distinct_slugs(s: Seq<PostView>) -> bool {
    forall|i: int, j: int| 0 <= i < j < s.len() ==> (#[trigger] s[i]).slug != (#[trigger] s[j]).slug
}

/// No post stands before one that was created later.
pub open spec fn newest_first(s: Seq<PostView>) -> bool {
    forall|i: int, j: int|
        0 <= i < j < s.len() ==> (#[trigger] s[i]).created_at >= (#[trigger] s[j]).created_at
}

/// Every post stands before all that were created at the same time or earlier.
pub open spec fn strictly_newest_first(s: Seq<PostView>) -> bool {
    forall|i: int, j: int|
        0 <= i < j < s.len() ==> (#[trigger] s[i]).created_at > (#[trigger] s[j]).created_at
}

/// The invariant of the store.
pub open spec fn well_formed(s: Seq<PostView>) -> bool {
    distinct_slugs(s) && newest_first(s)
}

/// `k` parts the store into the posts created after `now` and the rest.
pub open spec fn is_insert_position(s: Seq<PostView>, now: int, k: int) -> bool {
    &&& 0 <= k <= s.len()
    &&& forall|i: int| 0 <= i < k ==> (#[trigger] s[i]).created_at > now
    &&& forall|i: int| k <= i < s.len() ==> (#[trigger] s[i]).created_at <= now
}

/// Where a post created at `now` is put: behind the posts created later,
/// before the others.
pub open spec fn insert_position(s: Seq<PostView>, now: int) -> int {
    choose|k: int| is_insert_position(s, now, k)
}

/// The post with this slug, if the store holds one.
pub open spec fn lookup(s: Seq<PostView>, slug: Seq<char>) -> Option<PostView> {
    if has_slug(s, slug) {
        Some(s[slug_index(s, slug)])
    } else {
        None
    }
}

/// The store after an insert at time `now`: unchanged where the slug is
/// taken, else with the new post at its place.
pub open spec fn after_insert(s: Seq<PostView>, c: CreateView, now: int) -> Seq<PostView> {
    if has_slug(s, c.slug) {
        s
    } else {
        s.insert(insert_position(s, now), created(c, now))
    }
}

/// The store after an update at time `now`: the post with this slug
/// replaced in place, or nothing changed where there is none.
pub open spec fn after_update(s: Seq<PostView>, slug: Seq<char>, u: UpdateView, now: int) -> Seq<
    PostView,
> {
    if has_slug(s, slug) {
        let i = slug_index(s, slug);
        s.update(i, updated(s[i], u, now))
    } else {
        s
    }
}

/// The store after a delete: without the post with this slug, or
/// unchanged where there is none.
pub open spec fn after_delete(s: Seq<PostView>, slug: Seq<char>) -> Seq<PostView> {
    if has_slug(s, slug) {
        s.remove(slug_index(s, slug))
    } else {
        s
    }
}

/// In a store without repeated slugs, a post found under a slug is the one
/// that `slug_index` names.
pub proof fn lemma_slug_index(s: Seq<PostView>, slug: Seq<char>, i: int)
    requires
        distinct_slugs(s),
        0 <= i < s.len(),
        s[i].slug == slug,
    ensures
        has_slug(s, slug),
        slug_index(s, slug) == i,
{
    let j = slug_index(s, slug);
    assert(0 <= j < s.len() && s[j].slug == slug);
    if i < j {
        assert(s[i].slug != s[j].slug);
    } else if j < i {
        assert(s[j].slug != s[i].slug);
    }
}

/// In a store kept newest first, the place of a new post is determined.
pub proof fn lemma_insert_position(s: Seq<PostView>, now: int, k: int)
    requires
        is_insert_position(s, now, k),
    ensures
        insert_position(s, now) == k,
{
    let c = insert_position(s, now);
    assert(is_insert_position(s, now, c));
    if c < k {
        assert(s[c].created_at > now);
        assert(s[c].created_at <= now);
    } else if k < c {
        assert(s[k].created_at > now);
        assert(s[k].created_at <= now);
    }
}

/// A store kept newest first has a place for every new post.
pub proof fn lemma_insert_position_exists(s: Seq<PostView>, now: int)
    requires
        newest_first(s),
    ensures
        is_insert_position(s, now, insert_position(s, now)),
    decreases s.len(),
{
    if s.len() == 0 {
        assert(is_insert_position(s, now, 0));
    } else if s[0].created_at <= now {
        assert forall|i: int| 0 <= i < s.len() implies (#[trigger] s[i]).created_at <= now by {
            if 0 < i {
                assert(s[0].created_at >= s[i].created_at);
            }
        }
        assert(is_insert_position(s, now, 0));
    } else {
        let t = s.drop_first();
        assert forall|i: int, j: int| 0 <= i < j < t.len() implies (#[trigger] t[i]).created_at >= (
        #[trigger] t[j]).created_at by {
            assert(t[i] == s[i + 1] && t[j] == s[j + 1]);
        }
        lemma_insert_position_exists(t, now);
        let k = insert_position(t, now);
        assert forall|i: int| 0 <= i < k + 1 implies (#[trigger] s[i]).created_at > now by {
            if 0 < i {
                assert(s[i] == t[i - 1]);
            }
        }
        assert forall|i: int| k + 1 <= i < s.len() implies (#[trigger] s[i]).created_at <= now by {
            assert(s[i] == t[i - 1]);
        }
        assert(is_insert_position(s, now, k + 1));
    }
}

/// Inserting keeps the store without repeated slugs and newest first.
pub proof fn lemma_insert_well_formed(s: Seq<PostView>, c: CreateView, now: int)
    requires
        well_formed(s),
    ensures
        well_formed(after_insert(s, c, now)),
{
    if !has_slug(s, c.slug) {
        lemma_insert_position_exists(s, now);
        let k = insert_position(s, now);
        let p = created(c, now);
        let r = s.insert(k, p);
        assert forall|i: int, j: int| 0 <= i < j < r.len() implies (#[trigger] r[i]).slug != (
        #[trigger] r[j]).slug && r[i].created_at >= r[j].created_at by {
            let a = if i < k { i } else { i - 1 };
            let b = if j < k { j } else { j - 1 };
            if i != k {
                assert(r[i] == s[a]);
            }
            if j != k {
                assert(r[j] == s[b]);
            }
            if i != k && j != k {
                assert(s[a].slug != s[b].slug);
                assert(s[a].created_at >= s[b].created_at);
            }
        }
    }
}

/// Updating keeps the store without repeated slugs and newest first.
pub proof fn lemma_update_well_formed(s: Seq<PostView>, slug: Seq<char>, u: UpdateView, now: int)
    requires
        well_formed(s),
    ensures
        well_formed(after_update(s, slug, u, now)),
{
    if has_slug(s, slug) {
        let k = slug_index(s, slug);
        let r = after_update(s, slug, u, now);
        assert forall|i: int, j: int| 0 <= i < j < r.len() implies (#[trigger] r[i]).slug != (
        #[trigger] r[j]).slug && r[i].created_at >= r[j].created_at by {
            assert(r[i].slug == s[i].slug && r[i].created_at == s[i].created_at);
            assert(r[j].slug == s[j].slug && r[j].created_at == s[j].created_at);
        }
    }
}

/// Deleting keeps the store without repeated slugs and newest first.
pub proof fn lemma_delete_well_formed(s: Seq<PostView>, slug: Seq<char>)
    requires
        well_formed(s),
    ensures
        well_formed(after_delete(s, slug)),
{
    if has_slug(s, slug) {
        let k = slug_index(s, slug);
        let r = s.remove(k);
        assert forall|i: int, j: int| 0 <= i < j < r.len() implies (#[trigger] r[i]).slug != (
        #[trigger] r[j]).slug && r[i].created_at >= r[j].created_at by {
            let a = if i < k { i } else { i + 1 };
            let b = if j < k { j } else { j + 1 };
            assert(r[i] == s[a] && r[j] == s[b]);
            assert(s[a].slug != s[b].slug);
            assert(s[a].created_at >= s[b].created_at);
        }
    }
}

/// A post that was inserted under a free slug is found under that slug
/// with every field of the payload as it was given, created at the time of
/// the insert and never updated.
pub proof fn lemma_insert_then_lookup(s: Seq<PostView>, c: CreateView, now: int)
    requires
        well_formed(s),
        !has_slug(s, c.slug),
    ensures
        lookup(after_insert(s, c, now), c.slug) == Some(created(c, now)),
{
    lemma_insert_well_formed(s, c, now);
    lemma_insert_position_exists(s, now);
    let k = insert_position(s, now);
    let r = after_insert(s, c, now);
    assert(r[k] == created(c, now));
    lemma_slug_index(r, c.slug, k);
}

/// An insert under a slug that is taken changes nothing.
pub proof fn lemma_insert_taken_slug(s: Seq<PostView>, c: CreateView, now: int)
    requires
        has_slug(s, c.slug),
    ensures
        after_insert(s, c, now) == s,
{
}

/// After an update of a stored post, the post found under its slug has the
/// slug and the creation time it had, the time of the update as its
/// update time, and every other field from the payload.
pub proof fn lemma_update_then_lookup(s: Seq<PostView>, slug: Seq<char>, u: UpdateView, now: int)
    requires
        well_formed(s),
        has_slug(s, slug),
    ensures
        lookup(after_update(s, slug, u, now), slug) == Some(
            updated(lookup(s, slug)->0, u, now),
        ),
        lookup(after_update(s, slug, u, now), slug)->0.created_at == lookup(s, slug)->0.created_at,
        lookup(after_update(s, slug, u, now), slug)->0.updated_at == Some(now),
{
    lemma_update_well_formed(s, slug, u, now);
    let k = slug_index(s, slug);
    let r = after_update(s, slug, u, now);
    assert(r[k].slug == slug);
    lemma_slug_index(r, slug, k);
}

/// An update made after the post was created leaves the post with an
/// update time later than its creation time.
pub proof fn lemma_update_is_later_than_creation(
    s: Seq<PostView>,
    slug: Seq<char>,
    u: UpdateView,
    now: int,
)
    requires
        well_formed(s),
        has_slug(s, slug),
        now > lookup(s, slug)->0.created_at,
    ensures
        lookup(after_update(s, slug, u, now), slug) matches Some(p) && p.updated_at matches Some(t)
            && t > p.created_at,
{
    lemma_update_then_lookup(s, slug, u, now);
}

/// An update or a delete under a slug that names no post changes nothing.
pub proof fn lemma_unknown_slug_changes_nothing(
    s: Seq<PostView>,
    slug: Seq<char>,
    u: UpdateView,
    now: int,
)
    requires
        !has_slug(s, slug),
    ensures
        after_update(s, slug, u, now) == s,
        after_delete(s, slug) == s,
{
}

/// An operation on one slug leaves the post under every other slug as it
/// was.
pub proof fn lemma_other_slugs_untouched(
    s: Seq<PostView>,
    slug: Seq<char>,
    other: Seq<char>,
    c: CreateView,
    u: UpdateView,
    now: int,
)
    requires
        well_formed(s),
        other != slug,
        other != c.slug,
    ensures
        lookup(after_insert(s, c, now), other) == lookup(s, other),
        lookup(after_update(s, slug, u, now), other) == lookup(s, other),
        lookup(after_delete(s, slug), other) == lookup(s, other),
{
    lemma_insert_well_formed(s, c, now);
    lemma_update_well_formed(s, slug, u, now);
    lemma_delete_well_formed(s, slug);
    let a = after_insert(s, c, now);
    let b = after_update(s, slug, u, now);
    let d = after_delete(s, slug);
    if !has_slug(s, c.slug) {
        lemma_insert_position_exists(s, now);
        let k = insert_position(s, now);
        if has_slug(s, other) {
            let i = slug_index(s, other);
            let j = if i < k { i } else { i + 1 };
            assert(a[j] == s[i]);
            lemma_slug_index(a, other, j);
        } else if has_slug(a, other) {
            let j = slug_index(a, other);
            let i = if j < k { j } else { j - 1 };
            assert(a[j] == s[i]);
        }
    }
    if has_slug(s, slug) {
        let k = slug_index(s, slug);
        if has_slug(s, other) {
            let i = slug_index(s, other);
            assert(b[i] == s[i]);
            lemma_slug_index(b, other, i);
            let j = if i < k { i } else { i - 1 };
            assert(d[j] == s[i]);
            lemma_slug_index(d, other, j);
        } else {
            if has_slug(b, other) {
                let j = slug_index(b, other);
                assert(b[j].slug == s[j].slug);
            }
            if has_slug(d, other) {
                let j = slug_index(d, other);
                let i = if j < k { j } else { j + 1 };
                assert(d[j] == s[i]);
            }
        }
    }
}

/// After a delete, nothing is found under the slug.
pub proof fn lemma_delete_then_lookup(s: Seq<PostView>, slug: Seq<char>)
    requires
        well_formed(s),
    ensures
        lookup(after_delete(s, slug), slug) is None,
{
    let r = after_delete(s, slug);
    if has_slug(s, slug) {
        let k = slug_index(s, slug);
        if has_slug(r, slug) {
            let i = slug_index(r, slug);
            let a = if i < k { i } else { i + 1 };
            assert(r[i] == s[a]);
            lemma_slug_index(s, slug, a);
        }
    }
}

/// Nothing is found in an empty store.
pub proof fn lemma_lookup_in_empty(slug: Seq<char>)
    ensures
        lookup(Seq::<PostView>::empty(), slug) is None,
{
}

/// The store after a run of inserts into an empty store, each with its
/// payload and its time.
pub open spec fn after_inserts(batch: Seq<(CreateView, int)>) -> Seq<PostView>
    decreases batch.len(),
{
    if batch.len() == 0 {
        Seq::empty()
    } else {
        after_insert(after_inserts(batch.drop_last()), batch.last().0, batch.last().1)
    }
}

/// After any number of inserts at strictly increasing times, the store
/// lists its posts in strictly descending order of creation, and none of
/// them is newer than the last insert.
pub proof fn lemma_inserts_strictly_descending(batch: Seq<(CreateView, int)>)
    requires
        forall|i: int, j: int| 0 <= i < j < batch.len() ==> (#[trigger] batch[i]).1 < (
        #[trigger] batch[j]).1,
    ensures
        well_formed(after_inserts(batch)),
        strictly_newest_first(after_inserts(batch)),
        forall|i: int|
            0 <= i < after_inserts(batch).len() ==> batch.len() > 0 && (
            #[trigger] after_inserts(batch)[i]).created_at <= batch.last().1,
    decreases batch.len(),
{
    if batch.len() > 0 {
        let head = batch.drop_last();
        let c = batch.last().0;
        let now = batch.last().1;
        assert forall|i: int, j: int| 0 <= i < j < head.len() implies (#[trigger] head[i]).1 < (
        #[trigger] head[j]).1 by {
            assert(head[i] == batch[i] && head[j] == batch[j]);
        }
        lemma_inserts_strictly_descending(head);
        let s = after_inserts(head);
        let r = after_inserts(batch);
        lemma_insert_well_formed(s, c, now);
        assert forall|i: int| 0 <= i < s.len() implies (#[trigger] s[i]).created_at < now by {
            assert(head.last() == batch[batch.len() - 2]);
        }
        if !has_slug(s, c.slug) {
            assert(is_insert_position(s, now, 0));
            lemma_insert_position(s, now, 0);
            assert forall|i: int, j: int| 0 <= i < j < r.len() implies (#[trigger] r[i]).created_at
                > (#[trigger] r[j]).created_at by {
                assert(r[j] == s[j - 1]);
                if i > 0 {
                    assert(r[i] == s[i - 1]);
                }
            }
        }
    }
}

/// The values of a sequence of stored rows.
pub open spec fn rows(v: Seq<BlogPostResponseBody>) -> Seq<PostView> {
    Seq::new(v.len(), |i: int| v[i]@)
}

/// The post store. It never holds a slug twice and always lists its posts
/// newest first.
pub struct PostRepository {
    posts: Vec<BlogPostResponseBody>,
}

impl View for PostRepository {
    type V = Seq<PostView>;

    closed spec fn view(&self) -> Seq<PostView> {
        rows(self.posts@)
    }
}

impl PostRepository {
    /// What holds of every store: no slug twice, newest first.
    #[verifier::type_invariant]
    pub open spec fn wf(&self) -> bool {
        well_formed(self@)
    }

    /// An empty store.
    pub fn new() -> (r: PostRepository)
        ensures
            r@ == Seq::<PostView>::empty(),
    {
        let r = PostRepository { posts: Vec::new() };
        assert(r@ =~= Seq::<PostView>::empty());
        r
    }

    /// How many posts the store holds.
    pub fn len(&self) -> (r: usize)
        ensures
            r == self@.len(),
    {
        self.posts.len()
    }

    fn find(&self, slug: &str) -> (r: Option<usize>)
        ensures
            match r {
                Some(i) => i < self@.len() && i < self.posts@.len() && has_slug(self@, slug@) && i
                    == slug_index(self@, slug@),
                None => !has_slug(self@, slug@),
            },
    {
        proof {
            use_type_invariant(self);
        }
        let key: String = slug.to_owned();
        let mut i: usize = 0;
        while i < self.posts.len()
            invariant
                i <= self.posts@.len(),
                self.posts@.len() == self@.len(),
                key@ == slug@,
                well_formed(self@),
                forall|j: int| 0 <= j < i ==> (#[trigger] self@[j]).slug != slug@,
            decreases self.posts@.len() - i,
        {
            if self.posts[i].slug == key {
                proof {
                    lemma_slug_index(self@, slug@, i as int);
                }
                return Some(i);
            }
            i += 1;
        }
        None
    }

    /// The listing: one entry for each post, newest first.
    pub fn list_previews(&self) -> (r: Vec<BlogPostPreview>)
        ensures
            r@.len() == self@.len(),
            forall|i: int| 0 <= i < r@.len() ==> (#[trigger] r@[i])@ == preview_of(self@[i]),
            forall|i: int, j: int|
                0 <= i < j < r@.len() ==> (#[trigger] r@[i]).created_at >= (
                #[trigger] r@[j]).created_at,
    {
        proof {
            use_type_invariant(self);
        }
        let mut r: Vec<BlogPostPreview> = Vec::new();
        let mut i: usize = 0;
        while i < self.posts.len()
            invariant
                i <= self.posts@.len(),
                self.posts@.len() == self@.len(),
                r@.len() == i,
                forall|j: int| 0 <= j < i ==> (#[trigger] r@[j])@ == preview_of(self@[j]),
            decreases self.posts@.len() - i,
        {
            r.push(self.posts[i].preview());
            i += 1;
        }
        assert forall|i: int, j: int| 0 <= i < j < r@.len() implies (#[trigger] r@[i]).created_at
            >= (#[trigger] r@[j]).created_at by {
            assert(r@[i]@ == preview_of(self@[i]));
            assert(r@[j]@ == preview_of(self@[j]));
            assert(self@[i].created_at >= self@[j].created_at);
        }
        r
    }

    /// The fingerprints: one record for each post, in the store's order.
    pub fn list_hashes(&self) -> (r: Vec<BlogPostHash>)
        ensures
            r@.len() == self@.len(),
            forall|i: int| 0 <= i < r@.len() ==> (#[trigger] r@[i])@ == hash_of(self@[i]),
    {
        let mut r: Vec<BlogPostHash> = Vec::new();
        let mut i: usize = 0;
        while i < self.posts.len()
            invariant
                i <= self.posts@.len(),
                self.posts@.len() == self@.len(),
                r@.len() == i,
                forall|j: int| 0 <= j < i ==> (#[trigger] r@[j])@ == hash_of(self@[j]),
            decreases self.posts@.len() - i,
        {
            r.push(self.posts[i].hash_record());
            i += 1;
        }
        r
    }

    /// The post with this slug, or `RowNotFound` where the store has none.
    pub fn get_by_slug(&self, slug: &str) -> (r: Result<BlogPostResponseBody, StoreError>)
        ensures
            match lookup(self@, slug@) {
                Some(p) => r is Ok && r->Ok_0@ == p,
                None => r == Err::<BlogPostResponseBody, StoreError>(StoreError::RowNotFound),
            },
    {
        match self.find(slug) {
            Some(i) => Ok(self.posts[i].duplicate()),
            None => Err(StoreError::RowNotFound),
        }
    }

    /// Stores a new post, created at `now`. Fails, and changes nothing,
    /// where the slug is taken.
    pub fn insert(&mut self, post: BlogPostCreateRequestBody, now: i64) -> (r: Result<
        (),
        StoreError,
    >)
        ensures
            final(self)@ == after_insert(old(self)@, post@, now as int),
            r is Ok <==> !has_slug(old(self)@, post@.slug),
            r is Err ==> r->Err_0 is Other && r->Err_0.detail() == conflict_text(),
    {
        proof {
            use_type_invariant(&*self);
        }
        if self.find(post.slug.as_str()).is_some() {
            return Err(
                StoreError::Other(
                    String::from_str("duplicate key value violates unique constraint"),
                ),
            );
        }
        let mut k: usize = 0;
        while k < self.posts.len() && self.posts[k].created_at > now
            invariant
                k <= self.posts@.len(),
                self.posts@.len() == self@.len(),
                forall|j: int| 0 <= j < k ==> (#[trigger] self@[j]).created_at > now,
            decreases self.posts@.len() - k,
        {
            k += 1;
        }
        proof {
            assert forall|j: int| k <= j < self@.len() implies (#[trigger] self@[j]).created_at
                <= now by {
                if k < j {
                    assert(self@[k as int].created_at >= self@[j].created_at);
                }
            }
            assert(is_insert_position(self@, now as int, k as int));
            lemma_insert_position(self@, now as int, k as int);
            lemma_insert_well_formed(self@, post@, now as int);
        }
        let ghost before = self@;
        let ghost value = created(post@, now as int);
        let row: BlogPostResponseBody = BlogPostResponseBody::create(post, now);
        let mut posts: Vec<BlogPostResponseBody> = Vec::new();
        assert(rows(posts@) =~= Seq::<PostView>::empty());
        std::mem::swap(&mut posts, &mut self.posts);
        posts.insert(k, row);
        assert(rows(posts@) =~= before.insert(k as int, value));
        self.posts = posts;
        Ok(())
    }

    /// Replaces every mutable field of the post with this slug and sets
    /// its update time to `now`. Where no post has the slug, nothing
    /// changes, and that is no failure.
    pub fn update(&mut self, slug: &str, post: BlogPostUpdateRequestBody, now: i64) -> (r: Result<
        (),
        StoreError,
    >)
        ensures
            final(self)@ == after_update(old(self)@, slug@, post@, now as int),
            r is Ok,
    {
        proof {
            use_type_invariant(&*self);
            lemma_update_well_formed(self@, slug@, post@, now as int);
        }
        match self.find(slug) {
            Some(i) => {
                let ghost before = self@;
                let ghost value = updated(before[i as int], post@, now as int);
                let mut posts: Vec<BlogPostResponseBody> = Vec::new();
                assert(rows(posts@) =~= Seq::<PostView>::empty());
                std::mem::swap(&mut posts, &mut self.posts);
                let row: BlogPostResponseBody = posts.remove(i);
                let row: BlogPostResponseBody = row.update(post, now);
                posts.insert(i, row);
                assert(rows(posts@) =~= before.update(i as int, value));
                self.posts = posts;
            },
            None => {},
        }
        Ok(())
    }

    /// Removes the post with this slug. Where no post has the slug,
    /// nothing changes, and that is no failure.
    pub fn delete(&mut self, slug: &str) -> (r: Result<(), StoreError>)
        ensures
            final(self)@ == after_delete(old(self)@, slug@),
            r is Ok,
    {
        proof {
            use_type_invariant(&*self);
            lemma_delete_well_formed(self@, slug@);
        }
        match self.find(slug) {
            Some(i) => {
                let ghost before = self@;
                let mut posts: Vec<BlogPostResponseBody> = Vec::new();
                assert(rows(posts@) =~= Seq::<PostView>::empty());
                std::mem::swap(&mut posts, &mut self.posts);
                posts.remove(i);
                assert(rows(posts@) =~= before.remove(i as int));
                self.posts = posts;
            },
            None => {},
        }
        Ok(())
    }
}

} // verus!
