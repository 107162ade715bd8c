//! The key set published by the identity provider: reading its document,
//! and the cache that holds its keys between fetches.

use crate::auth::jose::{json_from_slice, parsed_json, to_json};
use crate::auth::json::{as_optional_text, as_text, found, read_optional_text, read_text, Json};
use crate::auth::key_set::{
    key_set, lemma_only_usable_entries_are_cached, yields_key, JwkKey, KeySet, SigningKey,
};
use crate::config::ClerkConfig;
use vstd::prelude::*;
use vstd::string::*;

verus! {

/// How long a fetched key set stays fresh: one hour, in nanoseconds.
pub const CACHE_DURATION_NANOS: u64 = 3_600_000_000_000;

/// Why a key could not be resolved.
#[derive(Debug)]
pub enum JwksError {
    /// The key set could not be fetched.
    FetchError(String),
    /// The fetched document is not a key set.
    ParseError(String),
    /// The key set holds no usable key under the identifier.
    KeyNotFound(String),
}

/// The mathematical value of a [`JwksError`].
pub enum JwksErrorView {
    FetchError(Seq<char>),
    ParseError(Seq<char>),
    KeyNotFound(Seq<char>),
}

impl View for JwksError {
    type V = JwksErrorView;

    open spec fn view(&self) -> JwksErrorView {
        match self {
            JwksError::FetchError(text) => JwksErrorView::FetchError(text@),
            JwksError::ParseError(text) => JwksErrorView::ParseError(text@),
            JwksError::KeyNotFound(kid) => JwksErrorView::KeyNotFound(kid@),
        }
    }
}

/// The text of an error, as it is shown.
pub open spec fn jwks_error_text(error: JwksErrorView) -> Seq<char> {
    match error {
        JwksErrorView::FetchError(text) => "Failed to fetch JWKS: "@ + text,
        JwksErrorView::ParseError(text) => "Failed to parse JWKS: "@ + text,
        JwksErrorView::KeyNotFound(kid) => "Key not found: "@ + kid,
    }
}

impl JwksError {
    /// The text of the error, as it is shown.
    pub fn message(&self) -> (text: String)
        ensures
            text@ == jwks_error_text(self@),
    {
        match self {
            JwksError::FetchError(detail) => String::from_str("Failed to fetch JWKS: ").concat(
                detail.as_str(),
            ),
            JwksError::ParseError(detail) => String::from_str("Failed to parse JWKS: ").concat(
                detail.as_str(),
            ),
            JwksError::KeyNotFound(kid) => String::from_str("Key not found: ").concat(
                kid.as_str(),
            ),
        }
    }
}

/// The error for a document that is no key set: the member that is missing
/// from it, or that has the wrong kind.
pub open spec fn document_fault(name: Seq<char>, entry: Option<Json>) -> JwksErrorView {
    match entry {
        None => JwksErrorView::ParseError("missing field `"@ + name + "`"@),
        Some(_) => JwksErrorView::ParseError("invalid type for field `"@ + name + "`"@),
    }
}

/// The entry that an item of a key-set document writes. Key type and key
/// identifier are required texts; algorithm, modulus, exponent and use may
/// be left out or null and else must be texts; other members are passed
/// over. The error is that of the first member, in this order, that cannot
/// be read.
pub open spec fn entry_of(item: Json) -> Result<JwkKey, JwksErrorView> {
    let kty = item.member("kty"@);
    let kid = item.member("kid"@);
    let alg = item.member("alg"@);
    let n = item.member("n"@);
    let e = item.member("e"@);
    let key_use = item.member("use"@);
    if as_text(kty) is None {
        Err(document_fault("kty"@, kty))
    } else if as_text(kid) is None {
        Err(document_fault("kid"@, kid))
    } else if as_optional_text(alg) is None {
        Err(document_fault("alg"@, alg))
    } else if as_optional_text(n) is None {
        Err(document_fault("n"@, n))
    } else if as_optional_text(e) is None {
        Err(document_fault("e"@, e))
    } else if as_optional_text(key_use) is None {
        Err(document_fault("use"@, key_use))
    } else {
        Ok(
            JwkKey {
                kty: as_text(kty)->0,
                kid: as_text(kid)->0,
                alg: as_optional_text(alg)->0,
                n: as_optional_text(n)->0,
                e: as_optional_text(e)->0,
                key_use: as_optional_text(key_use)->0,
            },
        )
    }
}

/// The entries that the items of a key-set document write, in their order,
/// or the error of the first item that writes none.
pub open spec fn entries_of(items: Seq<Json>) -> Result<Seq<JwkKey>, JwksErrorView>
    decreases items.len(),
{
    if items.len() == 0 {
        Ok(Seq::empty())
    } else {
        match entries_of(items.drop_last()) {
            Err(error) => Err(error),
            Ok(earlier) => match entry_of(items.last()) {
                Err(error) => Err(error),
                Ok(entry) => Ok(earlier.push(entry)),
            },
        }
    }
}

/// The entries of a key-set document: those of the array that is its member
/// `keys`.
pub open spec fn document_entries(document: Json) -> Result<Seq<JwkKey>, JwksErrorView> {
    match document.member("keys"@) {
        Some(keys) => match keys.items() {
            Some(items) => entries_of(items),
            None => Err(document_fault("keys"@, Some(keys))),
        },
        None => Err(document_fault("keys"@, None)),
    }
}

fn fault(name: &str, entry: Option<&Json>) -> (e: JwksError)
    ensures
        e@ == document_fault(name@, found(entry)),
{
    match entry {
        None => JwksError::ParseError(
            String::from_str("missing field `").concat(name).concat("`"),
        ),
        Some(_) => JwksError::ParseError(
            String::from_str("invalid type for field `").concat(name).concat("`"),
        ),
    }
}

/// Reads a member that may be left out.
fn optional_member(item: &Json, name: &str) -> (r: Result<Option<String>, JwksError>)
    ensures
        match as_optional_text(item.member(name@)) {
            Some(text) => r matches Ok(t) && t == text,
            None => r matches Err(e) && e@ == document_fault(name@, item.member(name@)),
        },
{
    let entry = item.get(name);
    match read_optional_text(entry) {
        Some(text) => Ok(text),
        None => Err(fault(name, entry)),
    }
}

/// Reads a member that must be a text.
fn required_member(item: &Json, name: &str) -> (r: Result<String, JwksError>)
    ensures
        match as_text(item.member(name@)) {
            Some(text) => r matches Ok(t) && t == text,
            None => r matches Err(e) && e@ == document_fault(name@, item.member(name@)),
        },
{
    let entry = item.get(name);
    match read_text(entry) {
        Some(text) => Ok(text),
        None => Err(fault(name, entry)),
    }
}

/// Reads one entry of a key-set document.
pub fn read_entry(item: &Json) -> (r: Result<JwkKey, JwksError>)
    ensures
        match entry_of(*item) {
            Ok(entry) => r matches Ok(read) && read == entry,
            Err(error) => r matches Err(e) && e@ == error,
        },
{
    let kty = match required_member(item, "kty") {
        Ok(kty) => kty,
        Err(e) => { return Err(e); },
    };
    let kid = match required_member(item, "kid") {
        Ok(kid) => kid,
        Err(e) => { return Err(e); },
    };
    let alg = match optional_member(item, "alg") {
        Ok(alg) => alg,
        Err(e) => { return Err(e); },
    };
    let n = match optional_member(item, "n") {
        Ok(n) => n,
        Err(e) => { return Err(e); },
    };
    let e = match optional_member(item, "e") {
        Ok(e) => e,
        Err(error) => { return Err(error); },
    };
    let key_use = match optional_member(item, "use") {
        Ok(key_use) => key_use,
        Err(e) => { return Err(e); },
    };
    Ok(JwkKey { kty, kid, alg, n, e, key_use })
}

/// Reads the entries of a key-set document.
pub fn read_key_set(document: &Json) -> (r: Result<Vec<JwkKey>, JwksError>)
    ensures
        match document_entries(*document) {
            Ok(entries) => r matches Ok(read) && read@ == entries,
            Err(error) => r matches Err(e) && e@ == error,
        },
{
    let keys = document.get("keys");
    let items = match keys {
        Some(keys) => match keys.as_array() {
            Some(items) => items,
            None => { return Err(fault("keys", Some(keys))); },
        },
        None => { return Err(fault("keys", None)); },
    };
    let mut entries: Vec<JwkKey> = Vec::new();
    let mut i: usize = 0;
    proof {
        assert(items@.take(0) =~= Seq::<Json>::empty());
    }
    while i < items.len()
        invariant
            i <= items.len(),
            document_entries(*document) == entries_of(items@),
            entries_of(items@.take(i as int)) == Ok::<Seq<JwkKey>, JwksErrorView>(entries@),
        decreases items.len() - i,
    {
        proof {
            assert(items@.take(i + 1).drop_last() == items@.take(i as int));
            assert(items@.take(i + 1).last() == items@[i as int]);
        }
        match read_entry(&items[i]) {
            Ok(entry) => entries.push(entry),
            Err(e) => {
                proof {
                    lemma_entries_fail_on(items@, i + 1);
                }
                return Err(e);
            },
        }
        i = i + 1;
    }
    proof {
        assert(items@.take(i as int) == items@);
    }
    Ok(entries)
}

/// Items that fail to be read up to some point fail as a whole, with the
/// same error.
proof fn lemma_entries_fail_on(items: Seq<Json>, upto: int)
    requires
        0 <= upto <= items.len(),
        entries_of(items.take(upto)) is Err,
    ensures
        entries_of(items) == entries_of(items.take(upto)),
    decreases items.len(),
{
    if upto < items.len() {
        assert(items.drop_last().take(upto) == items.take(upto));
        lemma_entries_fail_on(items.drop_last(), upto);
    } else {
        assert(items.take(upto) == items);
    }
}

/// The entries that the body of an answer writes: the body must be JSON
/// text, and what it writes a key-set document.
pub open spec fn body_entries(body: Seq<u8>) -> Result<Seq<JwkKey>, JwksErrorView> {
    match parsed_json(body) {
        Ok(document) => document_entries(document),
        Err(reason) => Err(JwksErrorView::ParseError(reason)),
    }
}

/// Reads the entries of a key-set document from the body of an answer.
pub fn parse_key_set(body: &[u8]) -> (r: Result<Vec<JwkKey>, JwksError>)
    ensures
        match body_entries(body@) {
            Ok(entries) => r matches Ok(read) && read@ == entries,
            Err(error) => r matches Err(e) && e@ == error,
        },
{
    match json_from_slice(body) {
        Ok(value) => read_key_set(&to_json(&value)),
        Err(reason) => Err(JwksError::ParseError(reason)),
    }
}

/// How an attempt to fetch the key set ended.
pub enum FetchOutcome {
    /// The request failed before an answer arrived; the text says how.
    Unreachable(String),
    /// The endpoint answered with a status other than success; the text is
    /// that status.
    Refused(String),
    /// The body of the answer could not be received; the text says why.
    Unreadable(String),
    /// The body of the answer.
    Body(Vec<u8>),
}

/// The entries that a fetch brings, or the error it is reported with: a
/// fetch error where no answer or a refusal came back, a parse error where
/// the body is missing or is no key-set document.
pub open spec fn fetched_entries(fetched: FetchOutcome) -> Result<Seq<JwkKey>, JwksErrorView> {
    match fetched {
        FetchOutcome::Unreachable(detail) => Err(JwksErrorView::FetchError(detail@)),
        FetchOutcome::Refused(status) => Err(
            JwksErrorView::FetchError("JWKS endpoint returned status "@ + status@),
        ),
        FetchOutcome::Unreadable(detail) => Err(JwksErrorView::ParseError(detail@)),
        FetchOutcome::Body(body) => body_entries(body@),
    }
}

/// Reads what a fetch brought.
pub fn read_fetched(fetched: FetchOutcome) -> (r: Result<Vec<JwkKey>, JwksError>)
    ensures
        match fetched_entries(fetched) {
            Ok(entries) => r matches Ok(read) && read@ == entries,
            Err(error) => r matches Err(e) && e@ == error,
        },
{
    match fetched {
        FetchOutcome::Unreachable(detail) => Err(JwksError::FetchError(detail)),
        FetchOutcome::Refused(status) => Err(
            JwksError::FetchError(
                String::from_str("JWKS endpoint returned status ").concat(status.as_str()),
            ),
        ),
        FetchOutcome::Unreadable(detail) => Err(JwksError::ParseError(detail)),
        FetchOutcome::Body(body) => parse_key_set(body.as_slice()),
    }
}

/// What the cache answers to a request for a key.
pub enum KeyLookup {
    /// The key is cached and the cache is fresh.
    Found(SigningKey),
    /// The key set has to be fetched before the request can be answered.
    Refresh,
}

/// The mathematical value of a [`JwksCache`].
pub struct JwksCacheView {
    /// The cached keys, by key identifier.
    pub keys: Map<Seq<char>, SigningKey>,
    /// The address the key set is fetched from.
    pub jwks_url: Seq<char>,
    /// When the key set was last fetched with success.
    pub last_fetch: Option<u64>,
    /// How long a fetched key set stays fresh.
    pub cache_duration: u64,
}

/// Whether a cache is stale at `now`: it never was filled, or more than its
/// freshness window has passed since it last was.
pub open spec fn stale(cache: JwksCacheView, now: u64) -> bool {
    match cache.last_fetch {
        None => true,
        Some(fetched_at) => now - fetched_at > cache.cache_duration,
    }
}

/// The answer of a cache to a request for `kid` at `now`.
pub open spec fn lookup(cache: JwksCacheView, kid: Seq<char>, now: u64) -> KeyLookup {
    if cache.keys.contains_key(kid) && !stale(cache, now) {
        KeyLookup::Found(cache.keys[kid])
    } else {
        KeyLookup::Refresh
    }
}

/// The cache after the entries of a document fetched at `now` were taken
/// in: its keys are those of the document alone.
pub open spec fn replaced(cache: JwksCacheView, document: Seq<JwkKey>, now: u64) -> JwksCacheView {
    JwksCacheView { keys: key_set(document), last_fetch: Some(now), ..cache }
}

/// The cache after a refresh with what was read of a fetch made at `now`.
/// Entries replace the keys as a whole and set the time of the last fetch;
/// an error changes nothing.
pub open spec fn refreshed(
    cache: JwksCacheView,
    read: Result<Seq<JwkKey>, JwksErrorView>,
    now: u64,
) -> JwksCacheView {
    match read {
        Ok(document) => replaced(cache, document, now),
        Err(_) => cache,
    }
}

/// The answer to a request for `kid` once the key set was fetched: the
/// error of a failed fetch, else the key from the refreshed cache, else
/// `KeyNotFound`.
pub open spec fn resolution_after_fetch(
    kid: Seq<char>,
    read: Result<Seq<JwkKey>, JwksErrorView>,
) -> Result<SigningKey, JwksErrorView> {
    match read {
        Err(error) => Err(error),
        Ok(document) => if key_set(document).contains_key(kid) {
            Ok(key_set(document)[kid])
        } else {
            Err(JwksErrorView::KeyNotFound(kid))
        },
    }
}

/// How the resolution of a key ends.
pub struct Resolution {
    /// The key, or why there is none.
    pub result: Result<SigningKey, JwksErrorView>,
    /// How often the key set was fetched.
    pub fetches: nat,
    /// The cache afterwards.
    pub cache: JwksCacheView,
}

/// The resolution of `kid` that starts at `now`: the answer of the cache
/// where it has one, else the answer after one fetch, which ends at
/// `fetched_at` and of which `read` is read.
pub open spec fn resolution(
    cache: JwksCacheView,
    kid: Seq<char>,
    now: u64,
    read: Result<Seq<JwkKey>, JwksErrorView>,
    fetched_at: u64,
) -> Resolution {
    match lookup(cache, kid, now) {
        KeyLookup::Found(key) => Resolution { result: Ok(key), fetches: 0, cache },
        KeyLookup::Refresh => Resolution {
            result: resolution_after_fetch(kid, read),
            fetches: 1,
            cache: refreshed(cache, read, fetched_at),
        },
    }
}

/// The cache of signing keys: the keys of the last successful fetch, and
/// when it was made.
///
/// Times are readings of one monotonic clock, in nanoseconds. The cache
/// never waits: [`JwksCache::get_key`] answers from what is cached or asks
/// for a fetch, and [`JwksCache::get_key_after_fetch`] takes in what the
/// fetch brought.
pub struct JwksCache {
    keys: KeySet,
    jwks_url: String,
    last_fetch: Option<u64>,
    cache_duration: u64,
}

impl View for JwksCache {
    type V = JwksCacheView;

    closed spec fn view(&self) -> JwksCacheView {
        JwksCacheView {
            keys: self.keys@,
            jwks_url: self.jwks_url@,
            last_fetch: self.last_fetch,
            cache_duration: self.cache_duration,
        }
    }
}

impl JwksCache {
    /// An empty cache for the key set of `config`, never filled.
    pub fn new(config: &ClerkConfig) -> (cache: Self)
        ensures
            cache@ == (JwksCacheView {
                keys: Map::empty(),
                jwks_url: config.jwks_url@,
                last_fetch: None,
                cache_duration: CACHE_DURATION_NANOS,
            }),
    {
        JwksCache {
            keys: KeySet::new(),
            jwks_url: config.jwks_url.clone(),
            last_fetch: None,
            cache_duration: CACHE_DURATION_NANOS,
        }
    }

    /// The address the key set is fetched from.
    pub fn jwks_url(&self) -> (url: &str)
        ensures
            url@ == self@.jwks_url,
    {
        self.jwks_url.as_str()
    }

    /// Whether the cache is stale at `now`.
    pub fn is_stale(&self, now: u64) -> (is_stale: bool)
        ensures
            is_stale == stale(self@, now),
    {
        match self.last_fetch {
            None => true,
            Some(fetched_at) => now > fetched_at && now - fetched_at > self.cache_duration,
        }
    }

    /// Answers a request for the key `kid` at `now` from the cache alone:
    /// with the key where it is cached and the cache is fresh, else with the
    /// demand to fetch the key set.
    pub fn get_key(&self, kid: &str, now: u64) -> (answer: KeyLookup)
        ensures
            answer == lookup(self@, kid@, now),
    {
        if self.is_stale(now) {
            return KeyLookup::Refresh;
        }
        match self.keys.get(kid) {
            Some(key) => KeyLookup::Found(key),
            None => KeyLookup::Refresh,
        }
    }

    /// Takes in what was read of a fetch made at `now`. The entries of a
    /// document replace the cached keys as a whole, even where they yield
    /// no key, and the cache is fresh again; an error leaves the cache as
    /// it was and is handed back.
    pub fn install(&mut self, read: Result<Vec<JwkKey>, JwksError>, now: u64) -> (r: Result<
        (),
        JwksError,
    >)
        ensures
            match read {
                Ok(document) => final(self)@ == replaced(old(self)@, document@, now) && r is Ok,
                Err(error) => final(self)@ == old(self)@ && r == Err::<(), JwksError>(error),
            },
    {
        match read {
            Ok(document) => {
                self.keys = KeySet::from_document(&document);
                self.last_fetch = Some(now);
                Ok(())
            },
            Err(error) => Err(error),
        }
    }

    /// Refreshes the cache with the outcome of a fetch of the key set made
    /// at `now`. A key-set document replaces the cached keys as a whole;
    /// a failed fetch or a body that is no key-set document leaves the
    /// cache as it was and is reported.
    pub fn refresh_keys(&mut self, fetched: FetchOutcome, now: u64) -> (r: Result<(), JwksError>)
        ensures
            final(self)@ == refreshed(old(self)@, fetched_entries(fetched), now),
            match fetched_entries(fetched) {
                Ok(_) => r is Ok,
                Err(error) => r matches Err(e) && e@ == error,
            },
    {
        self.install(read_fetched(fetched), now)
    }

    /// Answers a request for the key `kid` once the key set was fetched at
    /// `now`: refreshes the cache with the outcome and looks the key up
    /// again. The answer is final: the key, the error of the fetch, or
    /// `KeyNotFound`.
    pub fn get_key_after_fetch(&mut self, kid: &str, fetched: FetchOutcome, now: u64) -> (r: Result<
        SigningKey,
        JwksError,
    >)
        ensures
            final(self)@ == refreshed(old(self)@, fetched_entries(fetched), now),
            match resolution_after_fetch(kid@, fetched_entries(fetched)) {
                Ok(key) => r matches Ok(k) && k == key,
                Err(error) => r matches Err(e) && e@ == error,
            },
    {
        match self.refresh_keys(fetched, now) {
            Err(error) => Err(error),
            Ok(()) => match self.keys.get(kid) {
                Some(key) => Ok(key),
                None => Err(JwksError::KeyNotFound(kid.to_owned())),
            },
        }
    }
}

/// A key that no fetched key set holds is not found, after exactly one
/// fetch. Where neither the cache nor the document that the fetch brings
/// has a usable key for `kid`, the resolution fetches once and ends with
/// `KeyNotFound`, whenever it starts and however old the cache is.
pub proof fn lemma_unknown_key_is_not_found(
    cache: JwksCacheView,
    kid: Seq<char>,
    now: u64,
    document: Seq<JwkKey>,
    fetched_at: u64,
)
    requires
        !cache.keys.contains_key(kid),
        forall|i: int| !yields_key(document, kid, i),
    ensures
        resolution(cache, kid, now, Ok(document), fetched_at).fetches == 1,
        resolution(cache, kid, now, Ok(document), fetched_at).result == Err::<
            SigningKey,
            JwksErrorView,
        >(JwksErrorView::KeyNotFound(kid)),
{
    lemma_only_usable_entries_are_cached(document, kid);
}

/// A resolution never fetches more than once, and not at all where the key
/// is cached and the cache is fresh: it then ends with the cached key and
/// leaves the cache as it is.
pub proof fn lemma_resolution_fetches_at_most_once(
    cache: JwksCacheView,
    kid: Seq<char>,
    now: u64,
    read: Result<Seq<JwkKey>, JwksErrorView>,
    fetched_at: u64,
)
    ensures
        resolution(cache, kid, now, read, fetched_at).fetches <= 1,
        cache.keys.contains_key(kid) && !stale(cache, now) ==> resolution(
            cache,
            kid,
            now,
            read,
            fetched_at,
        ) == (Resolution { result: Ok(cache.keys[kid]), fetches: 0, cache }),
{
}

/// A refresh that fails, for want of an answer or of a key-set document in
/// it, leaves the cache untouched, so that every key stays resolvable as
/// before: the same request gets the same answer.
pub proof fn lemma_failed_refresh_keeps_cache(
    cache: JwksCacheView,
    fetched: FetchOutcome,
    fetched_at: u64,
    kid: Seq<char>,
    now: u64,
)
    requires
        fetched_entries(fetched) is Err,
    ensures
        refreshed(cache, fetched_entries(fetched), fetched_at) == cache,
        lookup(refreshed(cache, fetched_entries(fetched), fetched_at), kid, now) == lookup(
            cache,
            kid,
            now,
        ),
{
}

/// A fetch that brings no answer, a refusal or an unreadable body fails the
/// refresh, whatever the cache holds.
pub proof fn lemma_fetch_without_body_fails(fetched: FetchOutcome)
    requires
        !(fetched is Body),
    ensures
        fetched_entries(fetched) is Err,
{
}

/// A refresh that succeeds replaces the cache as a whole: the keys it holds
/// afterwards are those of the new document, whatever it held before, and
/// an identifier that the new document does not yield is no longer
/// resolved, at any time, even where it was cached before.
pub proof fn lemma_refresh_replaces_cache(
    cache: JwksCacheView,
    fetched: FetchOutcome,
    fetched_at: u64,
    kid: Seq<char>,
    now: u64,
)
    requires
        fetched_entries(fetched) is Ok,
        !key_set(fetched_entries(fetched)->Ok_0).contains_key(kid),
    ensures
        refreshed(cache, fetched_entries(fetched), fetched_at).keys == key_set(
            fetched_entries(fetched)->Ok_0,
        ),
        refreshed(cache, fetched_entries(fetched), fetched_at).last_fetch == Some(fetched_at),
        lookup(refreshed(cache, fetched_entries(fetched), fetched_at), kid, now)
            == KeyLookup::Refresh,
        resolution_after_fetch(kid, fetched_entries(fetched)) == Err::<SigningKey, JwksErrorView>(
            JwksErrorView::KeyNotFound(kid),
        ),
{
}

/// Refreshes do not accumulate: the later of two successful refreshes alone
/// decides what the cache holds, and it holds the keys of that document
/// whole. Two refreshes with documents that yield the same keys therefore
/// leave the same keys in either order.
pub proof fn lemma_refresh_order_is_immaterial(
    cache: JwksCacheView,
    first: Seq<JwkKey>,
    first_at: u64,
    second: Seq<JwkKey>,
    second_at: u64,
)
    requires
        key_set(first) == key_set(second),
    ensures
        replaced(replaced(cache, first, first_at), second, second_at).keys == replaced(
            replaced(cache, second, second_at),
            first,
            first_at,
        ).keys,
        replaced(replaced(cache, first, first_at), second, second_at).keys == key_set(first),
{
}

/// Resolutions of one key that is not cached end alike where their fetches
/// meet the same key set: with the same key or with the same error. This
/// holds whether the other resolution starts before the refresh of the
/// first, on the cache as it was, or at any time after it, on the refreshed
/// cache.
pub proof fn lemma_racing_resolutions_agree(
    cache: JwksCacheView,
    kid: Seq<char>,
    read: Result<Seq<JwkKey>, JwksErrorView>,
    now: u64,
    fetched_at: u64,
    other_now: u64,
    other_fetched_at: u64,
)
    requires
        !cache.keys.contains_key(kid),
    ensures
        resolution(cache, kid, other_now, read, other_fetched_at).result == resolution(
            cache,
            kid,
            now,
            read,
            fetched_at,
        ).result,
        resolution(
            refreshed(cache, read, fetched_at),
            kid,
            other_now,
            read,
            other_fetched_at,
        ).result == resolution(cache, kid, now, read, fetched_at).result,
{
}

} // verus!
