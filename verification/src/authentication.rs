//! The bearer-token authenticator in front of the mutating operations.
//!
//! A header value is judged as raw bytes. It is accepted when it is clean
//! text made of exactly two tokens separated by one space, the first being
//! the scheme `Bearer` and the second the configured credential.

use vstd::prelude::*;
use vstd::string::*;
use crate::response::{error_envelope, json_string, HttpJsonErrorResponse, HttpResponse, HttpResponseBuilder, Payload};

verus! {

/// Marker of a request that presented the admin credential.
pub struct Authenticated;

/// The reasons for which a request is turned away, in the order in which
/// they are tested.
#[derive(Clone, Copy, Debug, PartialEq, Eq, Structural)]
pub enum AuthFailure {
    /// No header was sent.
    MissingHeader,
    /// The header holds a byte that is neither visible ASCII nor a tab.
    Unparseable,
    /// Splitting the header at spaces does not give exactly two tokens.
    Malformed,
    /// The first token is not `Bearer`.
    WrongScheme,
    /// The second token is not the configured credential.
    WrongToken,
}

impl AuthFailure {
    /// The reason string reported to the caller.
    pub open spec fn text(self) -> Seq<char> {
        match self {
            AuthFailure::MissingHeader => "Missing Authorization header"@,
            AuthFailure::Unparseable => "Invalid Authorization header, unable to parse"@,
            AuthFailure::Malformed => "Invalid Authorization header value, expected 'Bearer <token>'"@,
            AuthFailure::WrongScheme => "Invalid Authorization header method value, expected 'Bearer <token>'"@,
            AuthFailure::WrongToken => "Invalid Authorization header token value"@,
        }
    }

    pub fn message(self) -> (r: &'static str)
        ensures
            r@ == self.text(),
    {
        match self {
            AuthFailure::MissingHeader => "Missing Authorization header",
            AuthFailure::Unparseable => "Invalid Authorization header, unable to parse",
            AuthFailure::Malformed => "Invalid Authorization header value, expected 'Bearer <token>'",
            AuthFailure::WrongScheme => "Invalid Authorization header method value, expected 'Bearer <token>'",
            AuthFailure::WrongToken => "Invalid Authorization header token value",
        }
    }
}

/// A refusal, carrying the reason string that goes into the response.
#[derive(Debug)]
pub struct AuthenticationError {
    error: String,
}

impl View for AuthenticationError {
    type V = Seq<char>;

    closed spec fn view(&self) -> Seq<char> {
        self.error@
    }
}

impl AuthenticationError {
    pub fn new(message: &str) -> (r: AuthenticationError)
        ensures
            r@ == message@,
    {
        AuthenticationError { error: message.to_owned() }
    }

    /// The reason string.
    pub fn message(&self) -> (r: &str)
        ensures
            r@ == self@,
    {
        self.error.as_str()
    }

    /// Every refusal is answered with status 401.
    pub fn status_code(&self) -> (r: u16)
        ensures
            r == 401,
    {
        401
    }

    /// The response to a refused request: status 401 with the reason in
    /// the error envelope.
    pub fn error_response(&self) -> (r: HttpResponse)
        ensures
            r.status == 401,
            r.payload matches Payload::Error(text) && text@ == error_envelope(json_string(self@)),
    {
        HttpResponseBuilder::unauthorized().into_json_error(self.error.clone())
    }

    /// Takes the refusal out of a failed authentication.
    pub fn from(value: Result<Authenticated, AuthenticationError>) -> (r: AuthenticationError)
        requires
            value is Err,
        ensures
            r == value->Err_0,
    {
        match value {
            Ok(_) => AuthenticationError { error: String::new() },
            Err(error) => error,
        }
    }
}

/// Write-once holder of the admin credential.
pub struct CredentialStore {
    slot: Option<String>,
}

impl View for CredentialStore {
    type V = Option<Seq<char>>;

    closed spec fn view(&self) -> Option<Seq<char>> {
        match self.slot {
            Some(s) => Some(s@),
            None => None,
        }
    }
}

impl CredentialStore {
    /// A store that holds nothing yet.
    pub fn new() -> (r: CredentialStore)
        ensures
            r@ is None,
    {
        CredentialStore { slot: None }
    }

    pub fn is_set(&self) -> (r: bool)
        ensures
            r == (self@ is Some),
    {
        self.slot.is_some()
    }
}

/// Stores the credential if none is stored yet; a later call changes nothing.
pub fn set_credential(store: &mut CredentialStore, credential: &str)
    ensures
        final(store)@ == (match old(store)@ {
            Some(c) => Some(c),
            None => Some(credential@),
        }),
{
    if store.slot.is_none() {
        store.slot = Some(credential.to_owned());
    }
}

/// The stored credential. The store must have been filled at startup.
pub fn credential(store: &CredentialStore) -> (r: &str)
    requires
        store@ is Some,
    ensures
        r@ == store@->0,
{
    match &store.slot {
        Some(s) => s.as_str(),
        None => "",
    }
}

/// The space character, which separates the tokens of a header.
pub open spec fn space() -> u8 {
    32
}

/// The bytes of the scheme token `Bearer`.
pub open spec fn scheme() -> Seq<u8> {
    seq![66u8, 101u8, 97u8, 114u8, 101u8, 114u8]
}

/// A byte that may stand in a header read as text: visible ASCII, the
/// space included, or a tab.
pub open spec fn is_visible_ascii(b: u8) -> bool {
    (32 <= b && b < 127) || b == 9
}

/// Every byte of the value may stand in a header read as text.
pub open spec fn is_clean_text(v: Seq<u8>) -> bool {
    forall|i: int| 0 <= i < v.len() ==> is_visible_ascii(#[trigger] v[i])
}

/// How many spaces the value holds. Splitting at spaces gives one token
/// more than this.
pub open spec fn space_count(v: Seq<u8>) -> nat
    decreases v.len(),
{
    if v.len() == 0 {
        0
    } else {
        space_count(v.drop_last()) + if v.last() == space() {
            1nat
        } else {
            0nat
        }
    }
}

/// `k` is the place of the first space of `v`.
pub open spec fn is_first_space(v: Seq<u8>, k: int) -> bool {
    &&& 0 <= k < v.len()
    &&& v[k] == space()
    &&& forall|j: int| 0 <= j < k ==> #[trigger] v[j] != space()
}

/// The place of the first space of a value that holds one.
pub open spec fn first_space(v: Seq<u8>) -> int {
    choose|k: int| is_first_space(v, k)
}

/// The token before the first space.
pub open spec fn first_token(v: Seq<u8>) -> Seq<u8> {
    v.subrange(0, first_space(v))
}

/// What follows the first space: the second token, where the value holds
/// one space only.
pub open spec fn second_token(v: Seq<u8>) -> Seq<u8> {
    v.subrange(first_space(v) + 1, v.len() as int)
}

/// The header that carries `credential`: `Bearer`, one space, the credential.
pub open spec fn bearer_header(credential: Seq<u8>) -> Seq<u8> {
    scheme() + seq![space()] + credential
}

/// The verdict on a header value: `None` when it is accepted, else the
/// first reason that applies. The value is split at its spaces; with
/// exactly one space it has two tokens, the first of which must be
/// `Bearer` and the second the credential.
pub open spec fn auth_failure(header: Option<Seq<u8>>, credential: Seq<u8>) -> Option<AuthFailure> {
    match header {
        None => Some(AuthFailure::MissingHeader),
        Some(v) => if !is_clean_text(v) {
            Some(AuthFailure::Unparseable)
        } else if space_count(v) != 1 {
            Some(AuthFailure::Malformed)
        } else if first_token(v) != scheme() {
            Some(AuthFailure::WrongScheme)
        } else if second_token(v) != credential {
            Some(AuthFailure::WrongToken)
        } else {
            None
        },
    }
}

/// What an authentication returns for a given verdict.
pub open spec fn matches_verdict(
    r: Result<Authenticated, AuthenticationError>,
    verdict: Option<AuthFailure>,
) -> bool {
    match verdict {
        None => r is Ok,
        Some(f) => r is Err && r->Err_0@ == f.text(),
    }
}

fn is_visible(b: u8) -> (r: bool)
    ensures
        r == is_visible_ascii(b),
{
    (32 <= b && b < 127) || b == 9
}

/// Whether the first `k` bytes of `v` are the scheme.
fn is_scheme(v: &[u8], k: usize) -> (r: bool)
    requires
        k <= v@.len(),
    ensures
        r == (v@.subrange(0, k as int) == scheme()),
{
    let ghost p = v@.subrange(0, k as int);
    if k != 6 {
        assert(p.len() == k && scheme().len() == 6);
        return false;
    }
    let r: bool = v[0] == 66 && v[1] == 101 && v[2] == 97 && v[3] == 114 && v[4] == 101 && v[5]
        == 114;
    proof {
        if r {
            assert(p =~= scheme());
        } else {
            assert(p[0] == v@[0] && p[1] == v@[1] && p[2] == v@[2] && p[3] == v@[3] && p[4]
                == v@[4] && p[5] == v@[5]);
        }
    }
    r
}

/// Whether the bytes of `v` from `from` on are exactly `w`.
fn tail_equals(v: &[u8], from: usize, w: &[u8]) -> (r: bool)
    requires
        from <= v@.len(),
    ensures
        r == (v@.subrange(from as int, v@.len() as int) == w@),
{
    let n: usize = v.len() - from;
    let ghost tail = v@.subrange(from as int, v@.len() as int);
    if n != w.len() {
        return false;
    }
    let mut i: usize = 0;
    while i < n
        invariant
            i <= n,
            n == w@.len(),
            from <= v@.len() <= usize::MAX,
            n == v@.len() - from,
            tail == v@.subrange(from as int, v@.len() as int),
            forall|j: int| 0 <= j < i ==> tail[j] == w@[j],
        decreases n - i,
    {
        if v[from + i] != w[i] {
            assert(tail[i as int] != w@[i as int]);
            return false;
        }
        i += 1;
    }
    assert(tail =~= w@);
    true
}

/// Judges the value of a credential header against the configured
/// credential.
pub fn parse_auth_header(header_value: &[u8], credential: &str) -> (r: Result<
    Authenticated,
    AuthenticationError,
>)
    ensures
        matches_verdict(
            r,
            auth_failure(Some(header_value@), vstd::utf8::encode_utf8(credential@)),
        ),
{
    let n: usize = header_value.len();
    let mut i: usize = 0;
    while i < n
        invariant
            i <= n,
            n == header_value@.len(),
            forall|j: int| 0 <= j < i ==> is_visible_ascii(#[trigger] header_value@[j]),
        decreases n - i,
    {
        if !is_visible(header_value[i]) {
            return Err(AuthenticationError::new(AuthFailure::Unparseable.message()));
        }
        i += 1;
    }
    let mut spaces: usize = 0;
    let mut first: usize = 0;
    let mut k: usize = 0;
    while k < n
        invariant
            k <= n,
            n == header_value@.len(),
            spaces <= k,
            spaces == space_count(header_value@.subrange(0, k as int)),
            spaces == 0 ==> forall|j: int| 0 <= j < k ==> #[trigger] header_value@[j] != space(),
            spaces > 0 ==> first < k && is_first_space(header_value@, first as int),
        decreases n - k,
    {
        proof {
            let next = header_value@.subrange(0, k + 1);
            assert(next.drop_last() =~= header_value@.subrange(0, k as int));
        }
        if header_value[k] == 32 {
            if spaces == 0 {
                first = k;
            }
            spaces += 1;
        }
        k += 1;
    }
    assert(header_value@.subrange(0, n as int) =~= header_value@);
    if spaces != 1 {
        return Err(AuthenticationError::new(AuthFailure::Malformed.message()));
    }
    proof {
        lemma_first_space(header_value@, first as int);
    }
    if !is_scheme(header_value, first) {
        return Err(AuthenticationError::new(AuthFailure::WrongScheme.message()));
    }
    if !tail_equals(header_value, first + 1, credential.as_bytes()) {
        return Err(AuthenticationError::new(AuthFailure::WrongToken.message()));
    }
    Ok(Authenticated)
}

impl Authenticated {
    /// Decides whether a request may pass, from the value of its credential
    /// header, if it sent one, and the credential held by the store.
    pub fn from_request(header: Option<&[u8]>, store: &CredentialStore) -> (r: Result<
        Authenticated,
        AuthenticationError,
    >)
        requires
            store@ is Some,
        ensures
            matches_verdict(r, auth_failure(header_bytes(header), vstd::utf8::encode_utf8(store@->0))),
    {
        match header {
            None => Err(AuthenticationError::new(AuthFailure::MissingHeader.message())),
            Some(value) => parse_auth_header(value, credential(store)),
        }
    }
}

/// The bytes of a header value, if one was sent.
pub open spec fn header_bytes(header: Option<&[u8]>) -> Option<Seq<u8>> {
    match header {
        Some(v) => Some(v@),
        None => None,
    }
}

/// Counting spaces distributes over concatenation.
pub proof fn lemma_space_count_concat(a: Seq<u8>, b: Seq<u8>)
    ensures
        space_count(a + b) == space_count(a) + space_count(b),
    decreases b.len(),
{
    if b.len() == 0 {
        assert(a + b =~= a);
    } else {
        assert((a + b).drop_last() =~= a + b.drop_last());
        lemma_space_count_concat(a, b.drop_last());
    }
}

/// The scheme is clean text without a space, and a single space counts
/// as one.
pub proof fn lemma_scheme()
    ensures
        is_clean_text(scheme()),
        space_count(scheme()) == 0,
        space_count(seq![space()]) == 1,
{
    reveal_with_fuel(space_count, 8);
    let s = scheme();
    let s5 = s.drop_last();
    let s4 = s5.drop_last();
    let s3 = s4.drop_last();
    let s2 = s3.drop_last();
    let s1 = s2.drop_last();
    assert(s1.drop_last().len() == 0);
    assert(space_count(s) == 0);
    assert(seq![space()].drop_last().len() == 0);
}

/// The first space of a value is where a space stands with none before it.
pub proof fn lemma_first_space(v: Seq<u8>, k: int)
    requires
        is_first_space(v, k),
    ensures
        first_space(v) == k,
{
    let c = first_space(v);
    assert(is_first_space(v, c));
    if c < k {
        assert(v[c] != space());
    } else if k < c {
        assert(v[k] != space());
    }
}

/// A value that holds a space has a first one.
pub proof fn lemma_has_first_space(v: Seq<u8>)
    requires
        space_count(v) >= 1,
    ensures
        is_first_space(v, first_space(v)),
    decreases v.len(),
{
    let head = v.drop_last();
    if space_count(head) >= 1 {
        lemma_has_first_space(head);
        let k = first_space(head);
        assert(v[k] == head[k]);
        assert forall|j: int| 0 <= j < k implies #[trigger] v[j] != space() by {
            assert(v[j] == head[j]);
        }
        assert(is_first_space(v, k));
    } else {
        lemma_space_free(head);
        assert forall|j: int| 0 <= j < v.len() - 1 implies #[trigger] v[j] != space() by {
            assert(v[j] == head[j]);
        }
        assert(is_first_space(v, v.len() - 1));
    }
}

/// A header of two tokens `first` and `second`, neither holding a space,
/// is judged by its tokens: refused for its scheme when `first` is not
/// `Bearer`, else refused for its token when `second` is not the
/// credential, else accepted.
pub proof fn lemma_two_tokens(first: Seq<u8>, second: Seq<u8>, credential: Seq<u8>)
    requires
        is_clean_text(first),
        is_clean_text(second),
        space_count(first) == 0,
        space_count(second) == 0,
    ensures
        first_token(first + seq![space()] + second) == first,
        second_token(first + seq![space()] + second) == second,
        auth_failure(Some(first + seq![space()] + second), credential) == if first != scheme() {
            Some(AuthFailure::WrongScheme)
        } else if second != credential {
            Some(AuthFailure::WrongToken)
        } else {
            None
        },
{
    lemma_scheme();
    let v = first + seq![space()] + second;
    lemma_space_count_concat(first + seq![space()], second);
    lemma_space_count_concat(first, seq![space()]);
    assert forall|i: int| 0 <= i < v.len() implies is_visible_ascii(#[trigger] v[i]) by {
        if i < first.len() {
            assert(v[i] == first[i]);
        } else if i == first.len() {
        } else {
            assert(v[i] == second[i - first.len() - 1]);
        }
    }
    lemma_space_free(first);
    assert forall|j: int| 0 <= j < first.len() implies #[trigger] v[j] != space() by {
        assert(v[j] == first[j]);
    }
    assert(is_first_space(v, first.len() as int));
    lemma_first_space(v, first.len() as int);
    assert(first_token(v) =~= first);
    assert(second_token(v) =~= second);
}

/// A header is accepted exactly when it is `Bearer`, one space and the
/// configured credential, and that credential is clean text without a
/// space. Every other value, a missing one too, is refused.
pub proof fn lemma_accepted_iff_bearer_header(header: Option<Seq<u8>>, credential: Seq<u8>)
    ensures
        auth_failure(header, credential) is None <==> (header == Some(bearer_header(credential))
            && is_clean_text(credential) && space_count(credential) == 0),
{
    lemma_scheme();
    if header == Some(bearer_header(credential)) && is_clean_text(credential) && space_count(
        credential,
    ) == 0 {
        lemma_two_tokens(scheme(), credential, credential);
    }
    if auth_failure(header, credential) is None {
        let v = header->0;
        lemma_has_first_space(v);
        let k = first_space(v);
        assert(v =~= first_token(v) + seq![space()] + second_token(v));
        lemma_space_count_concat(scheme() + seq![space()], credential);
        lemma_space_count_concat(scheme(), seq![space()]);
        assert forall|i: int| 0 <= i < credential.len() implies is_visible_ascii(
            #[trigger] credential[i],
        ) by {
            assert(credential[i] == v[k + 1 + i]);
        }
    }
}

/// A value without spaces holds no space byte.
pub proof fn lemma_space_free(v: Seq<u8>)
    requires
        space_count(v) == 0,
    ensures
        forall|i: int| 0 <= i < v.len() ==> #[trigger] v[i] != space(),
    decreases v.len(),
{
    if v.len() > 0 {
        lemma_space_free(v.drop_last());
        assert forall|i: int| 0 <= i < v.len() implies #[trigger] v[i] != space() by {
            if i < v.len() - 1 {
                assert(v[i] == v.drop_last()[i]);
            }
        }
    }
}

} // verus!
