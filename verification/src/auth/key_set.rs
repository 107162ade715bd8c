//! Signing keys: the entries of a key-set document, the keys they yield,
//! and the set that holds the keys by their identifiers.

use crate::auth::jose::{decoding_key_from_rsa_components, rsa_decoding_key};
use crate::text::same_text;
use jsonwebtoken::DecodingKey;
use vstd::prelude::*;
use vstd::string::*;

verus! {

/// The signature algorithms the cache admits.
#[derive(Debug, Clone, Copy, PartialEq, Eq, Structural)]
pub enum KeyAlgorithm {
    /// RSASSA-PKCS1-v1_5 with SHA-256.
    RS256,
    /// RSASSA-PKCS1-v1_5 with SHA-384.
    RS384,
    /// RSASSA-PKCS1-v1_5 with SHA-512.
    RS512,
}

/// One key entry of a key-set document, as published.
#[derive(Debug, Clone)]
pub struct JwkKey {
    /// Key type, such as `RSA`.
    pub kty: String,
    /// Key identifier.
    pub kid: String,
    /// Declared signature algorithm.
    pub alg: Option<String>,
    /// RSA modulus, base64url text.
    pub n: Option<String>,
    /// RSA exponent, base64url text.
    pub e: Option<String>,
    /// Intended use of the key.
    pub key_use: Option<String>,
}

/// A verification key with the algorithm it signs with.
pub struct SigningKey {
    pub decoding_key: DecodingKey,
    pub algorithm: KeyAlgorithm,
}

impl Clone for SigningKey {
    fn clone(&self) -> (copy: Self)
        ensures
            copy == *self,
    {
        SigningKey { decoding_key: self.decoding_key.clone(), algorithm: self.algorithm }
    }
}

/// The algorithm an entry declares: RS256 where it declares none, and
/// nothing where it declares one outside the allow-list.
pub open spec fn declared_algorithm(alg: Option<String>) -> Option<KeyAlgorithm> {
    match alg {
        None => Some(KeyAlgorithm::RS256),
        Some(name) => if name@ == "RS256"@ {
            Some(KeyAlgorithm::RS256)
        } else if name@ == "RS384"@ {
            Some(KeyAlgorithm::RS384)
        } else if name@ == "RS512"@ {
            Some(KeyAlgorithm::RS512)
        } else {
            None
        },
    }
}

/// What an entry offers for building an RSA key: modulus, exponent and
/// algorithm. Nothing for an entry of another key type, one that lacks a
/// component, or one whose algorithm is not admitted.
pub open spec fn rsa_request(entry: JwkKey) -> Option<(Seq<char>, Seq<char>, KeyAlgorithm)> {
    if entry.kty@ == "RSA"@ && entry.n is Some && entry.e is Some {
        match declared_algorithm(entry.alg) {
            Some(algorithm) => Some((entry.n->0@, entry.e->0@, algorithm)),
            None => None,
        }
    } else {
        None
    }
}

/// The signing key an entry yields, if it yields one: its request must be
/// complete and the key must build from its components.
pub open spec fn usable_key(entry: JwkKey) -> Option<SigningKey> {
    match rsa_request(entry) {
        Some((modulus, exponent, algorithm)) => match rsa_decoding_key(modulus, exponent) {
            Some(decoding_key) => Some(SigningKey { decoding_key, algorithm }),
            None => None,
        },
        None => None,
    }
}

/// The keys a document yields, by key identifier. Entries that yield no key
/// are passed over; of two usable entries with one identifier the later
/// one stays.
pub open spec fn key_set(document: Seq<JwkKey>) -> Map<Seq<char>, SigningKey>
    decreases document.len(),
{
    if document.len() == 0 {
        Map::empty()
    } else {
        let earlier = key_set(document.drop_last());
        match usable_key(document.last()) {
            Some(key) => earlier.insert(document.last().kid@, key),
            None => earlier,
        }
    }
}

/// Reads the algorithm an entry declares.
pub fn read_algorithm(alg: &Option<String>) -> (algorithm: Option<KeyAlgorithm>)
    ensures
        algorithm == declared_algorithm(*alg),
{
    match alg {
        None => Some(KeyAlgorithm::RS256),
        Some(name) => {
            if same_text(name.as_str(), "RS256") {
                Some(KeyAlgorithm::RS256)
            } else if same_text(name.as_str(), "RS384") {
                Some(KeyAlgorithm::RS384)
            } else if same_text(name.as_str(), "RS512") {
                Some(KeyAlgorithm::RS512)
            } else {
                None
            }
        },
    }
}

/// Reads from an entry what is needed to build its RSA key.
pub fn read_rsa_request(entry: &JwkKey) -> (request: Option<(&str, &str, KeyAlgorithm)>)
    ensures
        request is Some == rsa_request(*entry) is Some,
        request matches Some((modulus, exponent, algorithm)) ==> rsa_request(*entry) == Some(
            (modulus@, exponent@, algorithm),
        ),
{
    if !same_text(entry.kty.as_str(), "RSA") {
        return None;
    }
    let modulus = match &entry.n {
        Some(n) => n.as_str(),
        None => { return None; },
    };
    let exponent = match &entry.e {
        Some(e) => e.as_str(),
        None => { return None; },
    };
    match read_algorithm(&entry.alg) {
        Some(algorithm) => Some((modulus, exponent, algorithm)),
        None => None,
    }
}

/// A key under its identifier.
struct CachedKey {
    kid: String,
    key: SigningKey,
}

/// Whether position `i` of `entries` holds the identifier `kid`.
spec fn holds_kid(entries: Seq<CachedKey>, kid: Seq<char>, i: int) -> bool {
    0 <= i < entries.len() && entries[i].kid@ == kid
}

/// No identifier occurs twice.
spec fn distinct_kids(entries: Seq<CachedKey>) -> bool {
    forall|i: int, j: int| 0 <= i < j < entries.len() ==> entries[i].kid@ != entries[j].kid@
}

/// The entries as a map from identifier to key.
spec fn entries_map(entries: Seq<CachedKey>) -> Map<Seq<char>, SigningKey> {
    Map::new(
        |kid: Seq<char>| exists|i: int| holds_kid(entries, kid, i),
        |kid: Seq<char>| entries[choose|i: int| holds_kid(entries, kid, i)].key,
    )
}

proof fn lemma_entries_map_at(entries: Seq<CachedKey>, i: int)
    requires
        distinct_kids(entries),
        0 <= i < entries.len(),
    ensures
        entries_map(entries).contains_key(entries[i].kid@),
        entries_map(entries)[entries[i].kid@] == entries[i].key,
{
    let kid = entries[i].kid@;
    assert(holds_kid(entries, kid, i));
    let c = choose|c: int| holds_kid(entries, kid, c);
    assert(c == i);
}

proof fn lemma_entries_map_push(entries: Seq<CachedKey>, added: CachedKey)
    requires
        distinct_kids(entries),
        !entries_map(entries).contains_key(added.kid@),
    ensures
        distinct_kids(entries.push(added)),
        entries_map(entries.push(added)) == entries_map(entries).insert(added.kid@, added.key),
{
    let after = entries.push(added);
    assert forall|i: int, j: int| 0 <= i < j < after.len() implies after[i].kid@
        != after[j].kid@ by {
        if j == entries.len() {
            assert(holds_kid(entries, after[i].kid@, i));
        }
    }
    let want = entries_map(entries).insert(added.kid@, added.key);
    assert forall|kid: Seq<char>| entries_map(after).contains_key(kid) <==> want.contains_key(
        kid,
    ) by {
        if entries_map(after).contains_key(kid) {
            let i = choose|i: int| holds_kid(after, kid, i);
            if i < entries.len() {
                assert(holds_kid(entries, kid, i));
            }
        }
        if want.contains_key(kid) {
            if kid == added.kid@ {
                assert(holds_kid(after, kid, entries.len() as int));
            } else {
                let i = choose|i: int| holds_kid(entries, kid, i);
                assert(holds_kid(after, kid, i));
            }
        }
    }
    assert forall|kid: Seq<char>| entries_map(after).contains_key(kid) implies entries_map(
        after,
    )[kid] == want[kid] by {
        let i = choose|i: int| holds_kid(after, kid, i);
        lemma_entries_map_at(after, i);
        if i < entries.len() {
            lemma_entries_map_at(entries, i);
        }
    }
    assert(entries_map(after) =~= want);
}

proof fn lemma_entries_map_update(entries: Seq<CachedKey>, at: int, replacement: CachedKey)
    requires
        distinct_kids(entries),
        0 <= at < entries.len(),
        entries[at].kid@ == replacement.kid@,
    ensures
        distinct_kids(entries.update(at, replacement)),
        entries_map(entries.update(at, replacement)) == entries_map(entries).insert(
            replacement.kid@,
            replacement.key,
        ),
{
    let after = entries.update(at, replacement);
    assert forall|i: int, j: int| 0 <= i < j < after.len() implies after[i].kid@
        != after[j].kid@ by {
        assert(after[i].kid@ == entries[i].kid@);
        assert(after[j].kid@ == entries[j].kid@);
    }
    let want = entries_map(entries).insert(replacement.kid@, replacement.key);
    assert forall|kid: Seq<char>| entries_map(after).contains_key(kid) <==> want.contains_key(
        kid,
    ) by {
        if entries_map(after).contains_key(kid) {
            let i = choose|i: int| holds_kid(after, kid, i);
            assert(holds_kid(entries, kid, i));
        }
        if want.contains_key(kid) {
            if kid == replacement.kid@ {
                assert(holds_kid(after, kid, at));
            } else {
                let i = choose|i: int| holds_kid(entries, kid, i);
                assert(holds_kid(after, kid, i));
            }
        }
    }
    assert forall|kid: Seq<char>| entries_map(after).contains_key(kid) implies entries_map(
        after,
    )[kid] == want[kid] by {
        let i = choose|i: int| holds_kid(after, kid, i);
        lemma_entries_map_at(after, i);
        lemma_entries_map_at(entries, i);
    }
    assert(entries_map(after) =~= want);
}

/// The position of `kid` among the entries.
fn position_of(entries: &Vec<CachedKey>, kid: &str) -> (at: Option<usize>)
    ensures
        at is Some == entries_map(entries@).contains_key(kid@),
        at matches Some(i) ==> holds_kid(entries@, kid@, i as int),
{
    let mut i: usize = 0;
    while i < entries.len()
        invariant
            i <= entries.len(),
            forall|j: int| 0 <= j < i ==> !holds_kid(entries@, kid@, j),
        decreases entries.len() - i,
    {
        if same_text(entries[i].kid.as_str(), kid) {
            assert(holds_kid(entries@, kid@, i as int));
            return Some(i);
        }
        i = i + 1;
    }
    None
}

/// Signing keys by key identifier.
pub struct KeySet {
    entries: Vec<CachedKey>,
}

impl View for KeySet {
    type V = Map<Seq<char>, SigningKey>;

    closed spec fn view(&self) -> Map<Seq<char>, SigningKey> {
        entries_map(self.entries@)
    }
}

impl KeySet {
    #[verifier::type_invariant]
    spec fn well_formed(&self) -> bool {
        distinct_kids(self.entries@)
    }

    /// The set without keys.
    pub fn new() -> (keys: Self)
        ensures
            keys@ == Map::<Seq<char>, SigningKey>::empty(),
    {
        let keys = KeySet { entries: Vec::new() };
        assert(keys@ =~= Map::<Seq<char>, SigningKey>::empty());
        keys
    }

    /// The key stored under `kid`, if there is one.
    pub fn get(&self, kid: &str) -> (key: Option<SigningKey>)
        ensures
            key == if self@.contains_key(kid@) {
                Some(self@[kid@])
            } else {
                None
            },
    {
        proof {
            use_type_invariant(self);
        }
        match position_of(&self.entries, kid) {
            Some(i) => {
                proof {
                    lemma_entries_map_at(self.entries@, i as int);
                }
                Some(self.entries[i].key.clone())
            },
            None => None,
        }
    }

    /// Stores `key` under `kid`, in place of any key stored there before.
    pub fn insert(&mut self, kid: &str, key: SigningKey)
        ensures
            final(self)@ == old(self)@.insert(kid@, key),
    {
        proof {
            use_type_invariant(&*self);
        }
        let entry = CachedKey { kid: kid.to_owned(), key };
        let mut entries: Vec<CachedKey> = Vec::new();
        core::mem::swap(&mut self.entries, &mut entries);
        match position_of(&entries, kid) {
            Some(i) => {
                proof {
                    lemma_entries_map_update(entries@, i as int, entry);
                }
                entries.set(i, entry);
            },
            None => {
                proof {
                    lemma_entries_map_push(entries@, entry);
                }
                entries.push(entry);
            },
        }
        self.entries = entries;
    }

    /// Stores the key built for an entry, where one was built.
    pub fn store_built(&mut self, kid: &str, algorithm: KeyAlgorithm, built: Option<DecodingKey>)
        ensures
            final(self)@ == match built {
                Some(decoding_key) => old(self)@.insert(
                    kid@,
                    SigningKey { decoding_key, algorithm },
                ),
                None => old(self)@,
            },
    {
        match built {
            Some(decoding_key) => self.insert(kid, SigningKey { decoding_key, algorithm }),
            None => {},
        }
    }

    /// The keys of a key-set document.
    pub fn from_document(document: &Vec<JwkKey>) -> (keys: Self)
        ensures
            keys@ == key_set(document@),
    {
        let mut keys = KeySet::new();
        let mut i: usize = 0;
        while i < document.len()
            invariant
                i <= document.len(),
                keys@ == key_set(document@.take(i as int)),
            decreases document.len() - i,
        {
            let entry = &document[i];
            proof {
                assert(document@.take(i + 1).drop_last() == document@.take(i as int));
                assert(document@.take(i + 1).last() == document@[i as int]);
            }
            match read_rsa_request(entry) {
                Some((modulus, exponent, algorithm)) => {
                    let built = decoding_key_from_rsa_components(modulus, exponent);
                    keys.store_built(entry.kid.as_str(), algorithm, built);
                },
                None => {},
            }
            i = i + 1;
        }
        proof {
            assert(document@.take(i as int) == document@);
        }
        keys
    }
}

/// Whether entry `i` of `document` is a usable entry for `kid`.
pub open spec fn yields_key(document: Seq<JwkKey>, kid: Seq<char>, i: int) -> bool {
    &&& 0 <= i < document.len()
    &&& document[i].kid@ == kid
    &&& usable_key(document[i]) is Some
}

/// What enters the cache from a document. An identifier is cached exactly
/// when some entry of the document carries it and is usable; its key is
/// that of the last such entry. A usable entry is of type RSA, has both
/// components and declares an admitted algorithm or none; every other
/// entry leaves no trace.
pub proof fn lemma_only_usable_entries_are_cached(document: Seq<JwkKey>, kid: Seq<char>)
    ensures
        key_set(document).contains_key(kid) <==> exists|i: int| yields_key(document, kid, i),
        key_set(document).contains_key(kid) ==> exists|i: int|
            {
                &&& #[trigger] yields_key(document, kid, i)
                &&& key_set(document)[kid] == usable_key(document[i])->0
                &&& forall|j: int| i < j < document.len() ==> !yields_key(document, kid, j)
                &&& document[i].kty@ == "RSA"@
                &&& document[i].n is Some
                &&& document[i].e is Some
                &&& declared_algorithm(document[i].alg) == Some(key_set(document)[kid].algorithm)
                &&& rsa_decoding_key(document[i].n->0@, document[i].e->0@) == Some(
                    key_set(document)[kid].decoding_key,
                )
            },
    decreases document.len(),
{
    if document.len() > 0 {
        let earlier = document.drop_last();
        let last = document.len() - 1;
        lemma_only_usable_entries_are_cached(earlier, kid);
        assert forall|i: int| yields_key(earlier, kid, i) implies yields_key(document, kid, i) by {
            assert(earlier[i] == document[i]);
        }
        assert forall|i: int| yields_key(document, kid, i) && i != last implies yields_key(
            earlier,
            kid,
            i,
        ) by {
            assert(earlier[i] == document[i]);
        }
        if yields_key(document, kid, last) {
            assert(key_set(document)[kid] == usable_key(document[last])->0);
        } else if key_set(document).contains_key(kid) {
            assert(key_set(earlier).contains_key(kid));
            let i = choose|i: int|
                {
                    &&& #[trigger] yields_key(earlier, kid, i)
                    &&& key_set(earlier)[kid] == usable_key(earlier[i])->0
                    &&& forall|j: int| i < j < earlier.len() ==> !yields_key(earlier, kid, j)
                };
            assert(earlier[i] == document[i]);
            assert(yields_key(document, kid, i));
            assert(key_set(document)[kid] == key_set(earlier)[kid]);
            assert forall|j: int| i < j < document.len() implies !yields_key(
                document,
                kid,
                j,
            ) by {
                if j != last {
                    assert(earlier[j] == document[j]);
                }
            }
        }
    }
}

} // verus!
