//! The signing-key set published by the provider, and the time-bounded
//! cache that serves it: a fresh cache is served as is; a stale cache
//! must be refreshed from a newly fetched key document before lookup.
use vstd::prelude::*;

use crate::errors::{KeyError, SourceError};
use crate::jsonval;

verus! {

/// One provider public key, as published in the key document. The
/// big-integer components of the RSA key stay in their base64url text
/// encoding; immutable once parsed.
#[derive(Debug)]
pub struct Jwk {
    pub public_key_use: String,
    pub algorithm: String,
    pub modulus: String,
    pub exponent: String,
    pub key_type: String,
    pub key_id: String,
}

/// The mathematical image of a signing key: its six fields as
/// character sequences.
pub ghost struct JwkView {
    pub public_key_use: Seq<char>,
    pub algorithm: Seq<char>,
    pub modulus: Seq<char>,
    pub exponent: Seq<char>,
    pub key_type: Seq<char>,
    pub key_id: Seq<char>,
}

impl View for Jwk {
    type V = JwkView;

    open spec fn view(&self) -> JwkView {
        JwkView {
            public_key_use: self.public_key_use@,
            algorithm: self.algorithm@,
            modulus: self.modulus@,
            exponent: self.exponent@,
            key_type: self.key_type@,
            key_id: self.key_id@,
        }
    }
}

impl Clone for Jwk {
    fn clone(&self) -> (r: Self)
        ensures
            r@ == self@,
    {
        Jwk {
            public_key_use: self.public_key_use.clone(),
            algorithm: self.algorithm.clone(),
            modulus: self.modulus.clone(),
            exponent: self.exponent.clone(),
            key_type: self.key_type.clone(),
            key_id: self.key_id.clone(),
        }
    }
}

impl Jwk {
    pub fn get_id(&self) -> (r: String)
        ensures
            r@ == self@.key_id,
    {
        self.key_id.clone()
    }
}

/// The key that a lookup by id finds in a key sequence: the last key
/// bearing the id wins when ids repeat, and `None` when no key bears it.
pub open spec fn spec_get_key(keys: Seq<JwkView>, id: Seq<char>) -> Option<JwkView>
    decreases keys.len(),
{
    if keys.len() == 0 {
        None
    } else if keys.last().key_id == id {
        Some(keys.last())
    } else {
        spec_get_key(keys.drop_last(), id)
    }
}

/// The complete collection of currently valid signing keys, keyed by
/// key id for lookup. Immutable once constructed; a refresh replaces
/// the whole set.
#[derive(Debug)]
pub struct JwkSet {
    pub keys: Vec<Jwk>,
}

impl View for JwkSet {
    type V = Seq<JwkView>;

    open spec fn view(&self) -> Seq<JwkView> {
        Seq::new(self.keys@.len(), |i: int| self.keys@[i]@)
    }
}

impl Clone for JwkSet {
    fn clone(&self) -> (r: Self)
        ensures
            r@ == self@,
    {
        let mut keys: Vec<Jwk> = Vec::new();
        let n = self.keys.len();
        let mut i: usize = 0;
        while i < n
            invariant
                i <= n,
                n == self.keys.len(),
                keys@.len() == i as int,
                forall|j: int| 0 <= j < i ==> keys@[j]@ == self@[j],
            decreases n - i,
        {
            keys.push(self.keys[i].clone());
            i = i + 1;
        }
        let r = JwkSet { keys };
        proof {
            assert(r@ =~= self@);
        }
        r
    }
}

impl JwkSet {
    /// Look the key with the given id up; the last key bearing the id
    /// wins when ids repeat.
    pub fn get_key(&self, id: &str) -> (r: Option<Jwk>)
        ensures
            match r {
                Some(k) => spec_get_key(self@, id@) == Some(k@),
                None => spec_get_key(self@, id@) is None,
            },
    {
        let id_string = id.to_owned();
        let mut found: Option<usize> = None;
        let n = self.keys.len();
        let mut i: usize = 0;
        while i < n
            invariant
                i <= n,
                n == self.keys.len(),
                id_string@ == id@,
                match found {
                    Some(j) => j < i && spec_get_key(self@.take(i as int), id@) == Some(
                        self@[j as int],
                    ),
                    None => spec_get_key(self@.take(i as int), id@) is None,
                },
            decreases n - i,
        {
            if self.keys[i].key_id == id_string {
                found = Some(i);
            }
            proof {
                assert(self@.take(i + 1).drop_last() =~= self@.take(i as int));
                assert(self@.take(i + 1).last() == self@[i as int]);
            }
            i = i + 1;
        }
        proof {
            assert(self@.take(n as int) =~= self@);
        }
        match found {
            Some(j) => Some(self.keys[j].clone()),
            None => None,
        }
    }
}

/// The round-trip law of a key set: a key re-queried by its own id is
/// returned exactly, modulus and exponent preserved, whenever no later
/// key shadows that id.
pub proof fn lemma_key_set_round_trip(keys: Seq<JwkView>, i: int)
    requires
        0 <= i < keys.len(),
        forall|j: int| i < j < keys.len() ==> keys[j].key_id != keys[i].key_id,
    ensures
        spec_get_key(keys, keys[i].key_id) == Some(keys[i]),
    decreases keys.len(),
{
    if i == keys.len() - 1 {
        assert(keys.last() == keys[i]);
    } else {
        assert(keys.last() == keys[keys.len() - 1]);
        assert(keys.last().key_id != keys[i].key_id);
        assert(keys.drop_last()[i] == keys[i]);
        lemma_key_set_round_trip(keys.drop_last(), i);
    }
}

/// The key a lookup returns bears exactly the id it was asked for.
pub proof fn lemma_get_key_id(keys: Seq<JwkView>, id: Seq<char>)
    ensures
        spec_get_key(keys, id) matches Some(k) ==> k.key_id == id,
    decreases keys.len(),
{
    if keys.len() > 0 && keys.last().key_id != id {
        lemma_get_key_id(keys.drop_last(), id);
    }
}

/// A lookup comes back empty exactly when no key in the sequence
/// bears the id: an absent id is a definite answer, not a miss.
pub proof fn lemma_get_key_complete(keys: Seq<JwkView>, id: Seq<char>)
    ensures
        spec_get_key(keys, id) is None <==> (forall|i: int|
            0 <= i < keys.len() ==> keys[i].key_id != id),
    decreases keys.len(),
{
    if keys.len() == 0 {
    } else if keys.last().key_id == id {
        assert(keys[keys.len() - 1].key_id == id);
    } else {
        lemma_get_key_complete(keys.drop_last(), id);
        assert(forall|i: int| 0 <= i < keys.len() - 1 ==> keys.drop_last()[i] == keys[i]);
    }
}

/// The max-age directive carried by a cache-control header value, if
/// any; what `cache_control_max_age` returns.
pub uninterp spec fn max_age_of(value: Seq<char>) -> Option<u64>;

/// Relies on headers::CacheControl::decode and CacheControl::max_age:
/// the seconds of the max-age directive of a cache-control header
/// value, a function of the header text alone; `None` when the value
/// does not decode or carries no max-age directive.
#[verifier::external_body]
fn cache_control_max_age(value: &str) -> (r: Option<u64>)
    ensures
        r == max_age_of(value@),
{
    let header_value = match headers::HeaderValue::from_str(value) {
        Ok(v) => v,
        Err(_) => return None,
    };
    let values = [header_value];
    let mut iter = values.iter();
    match <headers::CacheControl as headers::Header>::decode(&mut iter) {
        Ok(cc) => cc.max_age().map(|d| d.as_secs()),
        Err(_) => None,
    }
}

/// The freshness duration taken from a response's cache-control header:
/// absent header, absent directive.
pub open spec fn spec_freshness(cache_control: Option<&str>) -> Option<u64> {
    match cache_control {
        Some(value) => max_age_of(value@),
        None => None,
    }
}

/// A string-valued field of a JSON object, if present with that type.
pub(crate) fn field_string(value: &serde_json::Value, key: &str) -> (r: Option<String>)
    ensures
        match r {
            Some(s) => jsonval::spec_string_field(jsonval::model(*value), key@) == Some(s@),
            None => jsonval::spec_string_field(jsonval::model(*value), key@) is None,
        },
{
    match jsonval::get(value, key) {
        Some(field) => jsonval::as_string(field),
        None => None,
    }
}

/// The signing key a key object of the document describes: present
/// exactly when all six expected string fields are.
pub open spec fn spec_jwk(m: jsonval::JsonV) -> Option<JwkView> {
    match (
        jsonval::spec_string_field(m, "use"@),
        jsonval::spec_string_field(m, "alg"@),
        jsonval::spec_string_field(m, "n"@),
        jsonval::spec_string_field(m, "e"@),
        jsonval::spec_string_field(m, "kty"@),
        jsonval::spec_string_field(m, "kid"@),
    ) {
        (
            Some(public_key_use),
            Some(algorithm),
            Some(modulus),
            Some(exponent),
            Some(key_type),
            Some(key_id),
        ) => Some(
            JwkView { public_key_use, algorithm, modulus, exponent, key_type, key_id },
        ),
        _ => None,
    }
}

/// The key sequence a key document describes: its `keys` field must be
/// an array whose every element describes a signing key.
pub open spec fn spec_key_doc(m: jsonval::JsonV) -> Option<Seq<JwkView>> {
    match jsonval::spec_field(m, "keys"@) {
        Some(jsonval::JsonV::Arr(items)) => if (forall|i: int|
            0 <= i < items.len() ==> spec_jwk(items[i]) is Some) {
            Some(Seq::new(items.len(), |i: int| spec_jwk(items[i]).unwrap()))
        } else {
            None
        },
        _ => None,
    }
}

/// The outcome of decoding a key document body: the described key
/// sequence when the body is valid JSON of the expected shape, and a
/// parse failure otherwise.
pub open spec fn spec_parse_key_document(body: Seq<char>) -> Result<Seq<JwkView>, SourceError> {
    match jsonval::json_text_of(body) {
        Some(m) => match spec_key_doc(m) {
            Some(keys) => Ok(keys),
            None => Err(SourceError::ParseError),
        },
        None => Err(SourceError::ParseError),
    }
}

fn jwk_from_value(value: &serde_json::Value) -> (r: Option<Jwk>)
    ensures
        match r {
            Some(k) => spec_jwk(jsonval::model(*value)) == Some(k@),
            None => spec_jwk(jsonval::model(*value)) is None,
        },
{
    let public_key_use = match field_string(value, "use") {
        Some(s) => s,
        None => return None,
    };
    let algorithm = match field_string(value, "alg") {
        Some(s) => s,
        None => return None,
    };
    let modulus = match field_string(value, "n") {
        Some(s) => s,
        None => return None,
    };
    let exponent = match field_string(value, "e") {
        Some(s) => s,
        None => return None,
    };
    let key_type = match field_string(value, "kty") {
        Some(s) => s,
        None => return None,
    };
    let key_id = match field_string(value, "kid") {
        Some(s) => s,
        None => return None,
    };
    Some(Jwk { public_key_use, algorithm, modulus, exponent, key_type, key_id })
}

/// Decode a key document body into a key set: the body must be a JSON
/// object whose `keys` field is an array of key objects, each carrying
/// the six expected string fields. Exactly the keys the document
/// describes are returned, in document order.
pub fn parse_key_document(body: &str) -> (r: Result<JwkSet, SourceError>)
    ensures
        match r {
            Ok(set) => spec_parse_key_document(body@) == Ok::<Seq<JwkView>, SourceError>(set@),
            Err(e) => spec_parse_key_document(body@) == Err::<Seq<JwkView>, SourceError>(e),
        },
{
    let document = match jsonval::parse(body) {
        Some(v) => v,
        None => return Err(SourceError::ParseError),
    };
    let entries = match jsonval::get(&document, "keys") {
        Some(v) => v,
        None => return Err(SourceError::ParseError),
    };
    let entries = match jsonval::as_array(entries) {
        Some(v) => v,
        None => return Err(SourceError::ParseError),
    };
    let ghost items = (match jsonval::spec_field(jsonval::model(document), "keys"@) {
        Some(jsonval::JsonV::Arr(s)) => s,
        _ => Seq::empty(),
    });
    proof {
        assert(jsonval::spec_field(jsonval::model(document), "keys"@) == Some(
            jsonval::JsonV::Arr(items),
        ));
    }
    let mut keys: Vec<Jwk> = Vec::new();
    let n = entries.len();
    let mut i: usize = 0;
    while i < n
        invariant
            i <= n,
            n == entries@.len(),
            n == items.len(),
            jsonval::json_text_of(body@) == Some(jsonval::model(document)),
            jsonval::spec_field(jsonval::model(document), "keys"@) == Some(
                jsonval::JsonV::Arr(items),
            ),
            forall|j: int| 0 <= j < n ==> jsonval::model(entries@[j]) == items[j],
            keys@.len() == i as int,
            forall|j: int| 0 <= j < i ==> spec_jwk(items[j]) == Some(keys@[j]@),
        decreases n - i,
    {
        match jwk_from_value(&entries[i]) {
            Some(k) => keys.push(k),
            None => {
                proof {
                    assert(jsonval::model(entries@[i as int]) == items[i as int]);
                    assert(spec_jwk(items[i as int]) is None);
                    assert(spec_key_doc(jsonval::model(document)) is None);
                }
                return Err(SourceError::ParseError);
            },
        }
        i = i + 1;
    }
    let set = JwkSet { keys };
    proof {
        assert(spec_key_doc(jsonval::model(document)) matches Some(described) && described
            =~= set@);
    }
    Ok(set)
}

/// One-shot decoding of a fetched response: the body into a key set,
/// the cache-control header into a freshness duration. A missing
/// directive yields no duration; the caller decides the fallback.
pub fn process_document(body: &str, cache_control: Option<&str>) -> (r: Result<
    (JwkSet, Option<u64>),
    SourceError,
>)
    ensures
        match r {
            Ok(p) => spec_parse_key_document(body@) == Ok::<Seq<JwkView>, SourceError>(p.0@) && p.1
                == spec_freshness(cache_control),
            Err(e) => spec_parse_key_document(body@) == Err::<Seq<JwkView>, SourceError>(e),
        },
{
    let duration = match cache_control {
        Some(value) => cache_control_max_age(value),
        None => None,
    };
    match parse_key_document(body) {
        Ok(set) => Ok((set, duration)),
        Err(e) => Err(e),
    }
}

/// The cache's mathematical state: the cached key set, if any, and the
/// instant (unix seconds) at which it expires.
pub ghost struct ProviderView {
    pub cached: Option<Seq<JwkView>>,
    pub expires_at: u64,
}

/// A cache is fresh when it holds a key set whose expiry lies strictly
/// in the future; only a fresh cache may be served without a fetch.
pub open spec fn fresh_at(p: ProviderView, now: u64) -> bool {
    p.cached is Some && now < p.expires_at
}

/// A stale cache demands a fetch before the lookup can be answered.
pub open spec fn spec_needs_fetch(p: ProviderView, now: u64) -> bool {
    !fresh_at(p, now)
}

/// The expiry instant a refresh at `now` establishes: `now` plus the
/// advertised duration, saturating; with no duration the cache is left
/// expiring immediately, so every later call refetches.
pub open spec fn spec_expiry(now: u64, max_age: Option<u64>) -> u64 {
    match max_age {
        Some(d) => if now + d <= u64::MAX {
            (now + d) as u64
        } else {
            u64::MAX
        },
        None => now,
    }
}

/// A lookup against the cache content: the key bearing the id, or
/// `KeyNotFound` when no set is cached or the id is absent.
pub open spec fn spec_lookup(keys: Option<Seq<JwkView>>, id: Seq<char>) -> Result<
    JwkView,
    KeyError,
> {
    match keys {
        None => Err(KeyError::KeyNotFound),
        Some(ks) => match spec_get_key(ks, id) {
            Some(k) => Ok(k),
            None => Err(KeyError::KeyNotFound),
        },
    }
}

/// What a resolution observes without fetching: the served result when
/// the cache is fresh, and `None` — fetch required — when it is stale.
pub open spec fn spec_resolve(p: ProviderView, id: Seq<char>, now: u64) -> Option<
    Result<JwkView, KeyError>,
> {
    if fresh_at(p, now) {
        Some(spec_lookup(p.cached, id))
    } else {
        None
    }
}

/// The signing-key cache: the single point of truth for the currently
/// trusted keys. It alone mutates the cached set, and a replacement is
/// visible in full — set and expiry together — never half-applied.
pub struct GoogleKeyProvider {
    cached: Option<JwkSet>,
    expiration_time: u64,
}

impl View for GoogleKeyProvider {
    type V = ProviderView;

    closed spec fn view(&self) -> ProviderView {
        ProviderView {
            cached: match self.cached {
                Some(ks) => Some(ks@),
                None => None,
            },
            expires_at: self.expiration_time,
        }
    }
}

impl Default for GoogleKeyProvider {
    /// The initial cache: no key set and an already-expired instant, so
    /// the first resolution is forced to fetch.
    fn default() -> (r: Self)
        ensures
            r@.cached is None,
            r@.expires_at == 0,
    {
        GoogleKeyProvider { cached: None, expiration_time: 0 }
    }
}

impl GoogleKeyProvider {
    /// Whether a resolution at `now` must fetch a new key document
    /// before it can be answered.
    pub fn needs_fetch(&self, now: u64) -> (r: bool)
        ensures
            r == spec_needs_fetch(self@, now),
    {
        match &self.cached {
            Some(_) => now >= self.expiration_time,
            None => true,
        }
    }

    /// Look the key id up in the currently cached set, fresh or not.
    pub fn lookup(&self, key_id: &str) -> (r: Result<Jwk, KeyError>)
        ensures
            match r {
                Ok(k) => spec_lookup(self@.cached, key_id@) == Ok::<JwkView, KeyError>(k@),
                Err(e) => spec_lookup(self@.cached, key_id@) == Err::<JwkView, KeyError>(e),
            },
    {
        match &self.cached {
            Some(ks) => match ks.get_key(key_id) {
                Some(k) => Ok(k),
                None => Err(KeyError::KeyNotFound),
            },
            None => Err(KeyError::KeyNotFound),
        }
    }

    /// Serve a resolution from the cache alone: the looked-up key when
    /// the cache is fresh — an unknown id under a fresh cache is caller
    /// error, not staleness — and `None` when a fetch is required first.
    pub fn resolve_cached(&self, key_id: &str, now: u64) -> (r: Option<Result<Jwk, KeyError>>)
        ensures
            match r {
                None => spec_resolve(self@, key_id@, now) is None,
                Some(Ok(k)) => spec_resolve(self@, key_id@, now) == Some(
                    Ok::<JwkView, KeyError>(k@),
                ),
                Some(Err(e)) => spec_resolve(self@, key_id@, now) == Some(
                    Err::<JwkView, KeyError>(e),
                ),
            },
    {
        if self.needs_fetch(now) {
            None
        } else {
            Some(self.lookup(key_id))
        }
    }

    /// Install the outcome of a fetch: on success the new set replaces
    /// the old one whole, with the expiry the advertised duration gives;
    /// on failure the previous state is left untouched — no partial
    /// update — so the next call retries the fetch.
    pub fn refresh(&mut self, now: u64, outcome: Result<(JwkSet, Option<u64>), SourceError>) -> (r:
        Result<(), KeyError>)
        ensures
            match outcome {
                Err(e) => final(self)@ == old(self)@ && r == Err::<(), KeyError>(
                    KeyError::KeyFetchFailed(e),
                ),
                Ok(p) => r is Ok && final(self)@.cached == Some(p.0@) && final(self)@.expires_at
                    == spec_expiry(now, p.1),
            },
    {
        match outcome {
            Err(e) => Err(KeyError::KeyFetchFailed(e)),
            Ok((set, duration)) => {
                let expires = match duration {
                    Some(d) => expiry_instant(now, d),
                    None => now,
                };
                self.cached = Some(set);
                self.expiration_time = expires;
                Ok(())
            },
        }
    }

    /// Decode a fetched response and install it, in one step: the
    /// original shape of a refresh fed directly by response headers and
    /// body text.
    pub fn process_response(&mut self, now: u64, cache_control: Option<&str>, body: &str) -> (r:
        Result<(), KeyError>)
        ensures
            match spec_parse_key_document(body@) {
                Ok(keys) => r is Ok && final(self)@.cached == Some(keys) && final(self)@.expires_at
                    == spec_expiry(now, spec_freshness(cache_control)),
                Err(e) => r == Err::<(), KeyError>(KeyError::KeyFetchFailed(e)) && final(self)@
                    == old(self)@,
            },
    {
        let outcome = process_document(body, cache_control);
        self.refresh(now, outcome)
    }
}

/// A cache expiry instant, in unix seconds, saturating at the far end.
fn expiry_instant(now: u64, max_age: u64) -> (r: u64)
    ensures
        r == spec_expiry(now, Some(max_age)),
{
    if now <= u64::MAX - max_age {
        now + max_age
    } else {
        u64::MAX
    }
}

/// A fresh cache is served without any fetch: resolution under a fresh
/// cache is fully determined by the cached set, whatever id is asked.
pub proof fn lemma_fresh_cache_no_fetch(p: ProviderView, id: Seq<char>, now: u64)
    requires
        fresh_at(p, now),
    ensures
        !spec_needs_fetch(p, now),
        spec_resolve(p, id, now) == Some(spec_lookup(p.cached, id)),
{
}

/// An id absent from a fresh cache fails with `KeyNotFound` and does
/// not trigger a refetch.
pub proof fn lemma_fresh_unknown_key(p: ProviderView, id: Seq<char>, now: u64)
    requires
        fresh_at(p, now),
        spec_get_key(p.cached->0, id) is None,
    ensures
        !spec_needs_fetch(p, now),
        spec_resolve(p, id, now) == Some(Err::<JwkView, KeyError>(KeyError::KeyNotFound)),
{
}

/// After a refresh installs a set expiring in the future, every
/// resolution before that expiry — in particular one arriving while the
/// refresh was underway — is served from exactly the installed set,
/// and triggers no further fetch.
pub proof fn lemma_refresh_serves_followers(
    p: ProviderView,
    set: Seq<JwkView>,
    duration: u64,
    now: u64,
    t: u64,
    id: Seq<char>,
)
    requires
        p.cached == Some(set),
        p.expires_at == spec_expiry(now, Some(duration)),
        t < p.expires_at,
    ensures
        fresh_at(p, t),
        !spec_needs_fetch(p, t),
        spec_resolve(p, id, t) == Some(spec_lookup(Some(set), id)),
{
}

} // verus!
