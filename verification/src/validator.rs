//! The token verification pipeline: given a raw token and the expected
//! issuer and audience, resolve the declared signing key through the
//! key cache, verify the RS256 signature, and validate the claim
//! constraints. Every failure is classified; no input crashes the
//! pipeline.
use vstd::prelude::*;
use vstd::string::StrSliceExecFns;

use base64::Engine;

use crate::errors::{ClaimKind, KeyError, SourceError, VerifyError};
use crate::jsonval;
use crate::key_providers::{
    fresh_at, spec_expiry, spec_get_key, spec_lookup, spec_needs_fetch, GoogleKeyProvider, Jwk,
    JwkSet, JwkView, ProviderView,
};
use crate::models::Token;

verus! {

/// The payload claims a verified token carries.
#[derive(Debug)]
pub struct Claims {
    /// The expiry time of the token, in unix seconds.
    pub exp: u64,
    /// The name of the individual the token was issued to.
    pub name: String,
    /// The email of the individual the token was issued to.
    pub email: String,
}

/// The mathematical image of the claims: expiry and the two subject
/// fields.
pub ghost struct ClaimsView {
    pub exp: u64,
    pub name: Seq<char>,
    pub email: Seq<char>,
}

impl View for Claims {
    type V = ClaimsView;

    open spec fn view(&self) -> ClaimsView {
        ClaimsView { exp: self.exp, name: self.name@, email: self.email@ }
    }
}

/// Positions `i < j` are the split points of a token: the only two
/// dots, parting it into header, payload and signature segments.
pub open spec fn is_split3(s: Seq<char>, i: int, j: int) -> bool {
    0 <= i && i < j && j < s.len() && s[i] == '.' && s[j] == '.' && (forall|t: int|
        0 <= t < s.len() && s[t] == '.' ==> t == i || t == j)
}

/// Whether a token consists of exactly three dot-separated segments.
pub open spec fn spec_has3(s: Seq<char>) -> bool {
    exists|p: (int, int)| is_split3(s, p.0, p.1)
}

/// The two dot positions of a well-formed token.
pub open spec fn split_points(s: Seq<char>) -> (int, int) {
    choose|p: (int, int)| is_split3(s, p.0, p.1)
}

/// The signed part of a token: header and payload segments with the
/// dot between them.
pub open spec fn spec_message(s: Seq<char>) -> Seq<char> {
    s.subrange(0, split_points(s).1)
}

/// The payload segment of a token.
pub open spec fn spec_payload(s: Seq<char>) -> Seq<char> {
    s.subrange(split_points(s).0 + 1, split_points(s).1)
}

/// The signature segment of a token.
pub open spec fn spec_signature(s: Seq<char>) -> Seq<char> {
    s.subrange(split_points(s).1 + 1, s.len() as int)
}

/// A token has at most one pair of split points.
pub proof fn lemma_split_points(s: Seq<char>, i: int, j: int)
    requires
        is_split3(s, i, j),
    ensures
        spec_has3(s),
        split_points(s) == (i, j),
{
    assert(is_split3(s, (i, j).0, (i, j).1));
    let q = split_points(s);
    assert(is_split3(s, q.0, q.1));
    assert(s[q.0] == '.');
    assert(s[q.1] == '.');
    assert(s[i] == '.');
    assert(s[j] == '.');
    assert(q.0 == i || q.0 == j);
    assert(q.1 == i || q.1 == j);
    assert(q == (i, j));
}

/// Find the split points of a token: the positions of its two dots, or
/// nothing when it does not have exactly two.
fn split_positions(s: &str) -> (r: Option<(usize, usize)>)
    ensures
        match r {
            Some(p) => is_split3(s@, p.0 as int, p.1 as int),
            None => !spec_has3(s@),
        },
{
    let n = s.unicode_len();
    let mut first: Option<usize> = None;
    let mut second: Option<usize> = None;
    let mut k: usize = 0;
    while k < n
        invariant
            k <= n,
            n == s@.len(),
            match (first, second) {
                (Some(a), Some(b)) => a < b && (b as int) < k && s@[a as int] == '.' && s@[b
                    as int] == '.' && (forall|t: int|
                    0 <= t < k && t != a && t != b ==> s@[t] != '.'),
                (Some(a), None) => (a as int) < k && s@[a as int] == '.' && (forall|t: int|
                    0 <= t < k && t != a ==> s@[t] != '.'),
                (None, _) => second is None && (forall|t: int| 0 <= t < k ==> s@[t] != '.'),
            },
        decreases n - k,
    {
        let c = s.get_char(k);
        if c == '.' {
            if first.is_none() {
                first = Some(k);
            } else if second.is_none() {
                second = Some(k);
            } else {
                proof {
                    let a = first->0 as int;
                    let b = second->0 as int;
                    assert(!spec_has3(s@)) by {
                        if spec_has3(s@) {
                            let q = choose|p: (int, int)| is_split3(s@, p.0, p.1);
                            assert(s@[a] == '.');
                            assert(s@[b] == '.');
                            assert(s@[k as int] == '.');
                            assert(a == q.0 || a == q.1);
                            assert(b == q.0 || b == q.1);
                            assert(k as int == q.0 || k as int == q.1);
                            assert(false);
                        }
                    }
                }
                return None;
            }
        }
        k = k + 1;
    }
    match (first, second) {
        (Some(a), Some(b)) => {
            proof {
                assert(is_split3(s@, a as int, b as int));
            }
            Some((a, b))
        },
        (Some(a), None) => {
            proof {
                assert(!spec_has3(s@)) by {
                    if spec_has3(s@) {
                        let q = choose|p: (int, int)| is_split3(s@, p.0, p.1);
                        assert(s@[q.0] == '.');
                        assert(s@[q.1] == '.');
                        assert(false);
                    }
                }
            }
            None
        },
        _ => {
            proof {
                assert(!spec_has3(s@)) by {
                    if spec_has3(s@) {
                        let q = choose|p: (int, int)| is_split3(s@, p.0, p.1);
                        assert(s@[q.0] == '.');
                        assert(false);
                    }
                }
            }
            None
        },
    }
}

/// The key id and algorithm a token's unverified header declares:
/// the id, and whether the declared algorithm is RS256; `None` when
/// the token or its header does not decode, or no key id is present.
/// What `decode_token_header` returns.
pub uninterp spec fn jwt_header_of(token: Seq<char>) -> Option<(Seq<char>, bool)>;

/// Relies on jsonwebtoken::decode_header: decodes the header segment
/// of a token without verifying it, a function of the token text
/// alone. A missing key id is collapsed into `None`.
#[verifier::external_body]
fn decode_token_header(token: &str) -> (r: Option<(String, bool)>)
    ensures
        match r {
            Some(h) => jwt_header_of(token@) == Some((h.0@, h.1)),
            None => jwt_header_of(token@) is None,
        },
{
    match jsonwebtoken::decode_header(token) {
        Ok(header) => header.kid.map(
            |kid| (kid, matches!(header.alg, jsonwebtoken::Algorithm::RS256)),
        ),
        Err(_) => None,
    }
}

/// Whether the RS256 signature over `message` verifies under the RSA
/// public key with the given base64url modulus and exponent. What
/// `verify_rs256` returns.
pub uninterp spec fn rs256_valid(
    message: Seq<char>,
    signature: Seq<char>,
    modulus: Seq<char>,
    exponent: Seq<char>,
) -> bool;

/// Relies on jsonwebtoken::DecodingKey::from_rsa_components and
/// jsonwebtoken::crypto::verify: RSA-SHA256 signature verification, a
/// deterministic function of its four text arguments. Unusable key
/// components count as a failed verification.
#[verifier::external_body]
fn verify_rs256(message: &str, signature: &str, modulus: &str, exponent: &str) -> (r: bool)
    ensures
        r == rs256_valid(message@, signature@, modulus@, exponent@),
{
    let key = match jsonwebtoken::DecodingKey::from_rsa_components(modulus, exponent) {
        Ok(k) => k,
        Err(_) => return false,
    };
    match jsonwebtoken::crypto::verify(
        signature,
        message.as_bytes(),
        &key,
        jsonwebtoken::Algorithm::RS256,
    ) {
        Ok(valid) => valid,
        Err(_) => false,
    }
}

/// The bytes a base64url (unpadded) text decodes to, if it is valid.
/// What `b64url_decode` returns.
pub uninterp spec fn b64url_bytes(text: Seq<char>) -> Option<Seq<u8>>;

/// Relies on base64's URL_SAFE_NO_PAD engine: base64url decoding
/// without padding, a function of the text alone.
#[verifier::external_body]
fn b64url_decode(text: &str) -> (r: Option<Vec<u8>>)
    ensures
        match r {
            Some(b) => b64url_bytes(text@) == Some(b@),
            None => b64url_bytes(text@) is None,
        },
{
    base64::engine::general_purpose::URL_SAFE_NO_PAD.decode(text).ok()
}

/// The outcome claim validation assigns: expiry strictly in the future
/// — an expiry equal to the current time fails — then issuer, then
/// audience; the first violated constraint names the failing claim.
pub open spec fn spec_check_claims(exp: u64, now: u64, issuer_ok: bool, audience_ok: bool) -> Result<
    (),
    VerifyError,
> {
    if exp <= now {
        Err(VerifyError::ClaimValidationFailed(ClaimKind::Expiry))
    } else if !issuer_ok {
        Err(VerifyError::ClaimValidationFailed(ClaimKind::Issuer))
    } else if !audience_ok {
        Err(VerifyError::ClaimValidationFailed(ClaimKind::Audience))
    } else {
        Ok(())
    }
}

/// Validate the claim constraints, given the extracted expiry and the
/// outcomes of the issuer and audience comparisons.
pub fn check_claims(exp: u64, now: u64, issuer_ok: bool, audience_ok: bool) -> (r: Result<
    (),
    VerifyError,
>)
    ensures
        r == spec_check_claims(exp, now, issuer_ok, audience_ok),
{
    if exp <= now {
        Err(VerifyError::ClaimValidationFailed(ClaimKind::Expiry))
    } else if !issuer_ok {
        Err(VerifyError::ClaimValidationFailed(ClaimKind::Issuer))
    } else if !audience_ok {
        Err(VerifyError::ClaimValidationFailed(ClaimKind::Audience))
    } else {
        Ok(())
    }
}

/// The expiry boundary: a claims expiry equal to the current time
/// fails validation naming expiry; an expiry one second in the future
/// passes when the other claims match.
pub proof fn lemma_expiry_boundary(now: u64)
    ensures
        spec_check_claims(now, now, true, true) == Err::<(), VerifyError>(
            VerifyError::ClaimValidationFailed(ClaimKind::Expiry),
        ),
        now < u64::MAX ==> spec_check_claims((now + 1) as u64, now, true, true) == Ok::<
            (),
            VerifyError,
        >(()),
{
}

/// The payload's expiry claim: present exactly when `exp` is a
/// non-negative integer fitting u64.
pub open spec fn spec_exp(m: jsonval::JsonV) -> Option<u64> {
    match jsonval::spec_field(m, "exp"@) {
        Some(jsonval::JsonV::Num(n)) => n,
        _ => None,
    }
}

/// The claims a payload decodes to: present exactly when the expiry,
/// name and email fields are there with their expected types.
pub open spec fn spec_claims(m: jsonval::JsonV) -> Option<ClaimsView> {
    match (
        spec_exp(m),
        jsonval::spec_string_field(m, "name"@),
        jsonval::spec_string_field(m, "email"@),
    ) {
        (Some(exp), Some(name), Some(email)) => Some(ClaimsView { exp, name, email }),
        _ => None,
    }
}

/// Whether the payload's `aud` claim contains the expected audience:
/// equality for a string claim, membership for an array claim, and
/// false when the claim is absent or of another type.
pub open spec fn spec_aud_ok(m: jsonval::JsonV, expected: Seq<char>) -> bool {
    match jsonval::spec_field(m, "aud"@) {
        Some(jsonval::JsonV::Str(s)) => s == expected,
        Some(jsonval::JsonV::Arr(items)) => exists|i: int|
            0 <= i < items.len() && items[i] == jsonval::JsonV::Str(expected),
        _ => false,
    }
}

/// Whether the payload's `aud` claim contains the expected audience.
fn audience_matches(doc: &serde_json::Value, expected: &String) -> (r: bool)
    ensures
        r == spec_aud_ok(jsonval::model(*doc), expected@),
{
    let aud = match jsonval::get(doc, "aud") {
        Some(v) => v,
        None => return false,
    };
    match jsonval::as_string(aud) {
        Some(s) => s == *expected,
        None => match jsonval::as_array(aud) {
            Some(items) => {
                let ghost elems = (match jsonval::model(*aud) {
                    jsonval::JsonV::Arr(s) => s,
                    _ => Seq::empty(),
                });
                let n = items.len();
                let mut i: usize = 0;
                while i < n
                    invariant
                        i <= n,
                        n == items@.len(),
                        n == elems.len(),
                        jsonval::spec_field(jsonval::model(*doc), "aud"@) == Some(
                            jsonval::JsonV::Arr(elems),
                        ),
                        forall|j: int| 0 <= j < n ==> jsonval::model(items@[j]) == elems[j],
                        forall|j: int| 0 <= j < i ==> elems[j] != jsonval::JsonV::Str(expected@),
                    decreases n - i,
                {
                    match jsonval::as_string(&items[i]) {
                        Some(s) => if s == *expected {
                            proof {
                                assert(elems[i as int] == jsonval::JsonV::Str(expected@));
                            }
                            return true;
                        },
                        None => (),
                    }
                    proof {
                        assert(jsonval::model(items@[i as int]) == elems[i as int]);
                        assert(elems[i as int] != jsonval::JsonV::Str(expected@));
                    }
                    i = i + 1;
                }
                false
            },
            None => false,
        },
    }
}

/// The outcome the verification pipeline assigns to a token checked
/// against one signing key: segment structure, declared algorithm,
/// RS256 signature, payload decode, then the claim constraints; on the
/// all-checks-pass path, exactly the payload's claims.
pub open spec fn spec_verify_token(
    jwt: Seq<char>,
    rs256: bool,
    key: JwkView,
    issuer: Seq<char>,
    audience: Seq<char>,
    now: u64,
) -> Result<ClaimsView, VerifyError> {
    if !spec_has3(jwt) {
        Err(VerifyError::MalformedToken)
    } else if !rs256 {
        Err(VerifyError::UnsupportedAlgorithm)
    } else if !rs256_valid(spec_message(jwt), spec_signature(jwt), key.modulus, key.exponent) {
        Err(VerifyError::InvalidSignature)
    } else {
        match b64url_bytes(spec_payload(jwt)) {
            None => Err(VerifyError::MalformedToken),
            Some(bytes) => match jsonval::json_bytes_of(bytes) {
                None => Err(VerifyError::MalformedToken),
                Some(m) => match spec_claims(m) {
                    None => Err(VerifyError::MalformedToken),
                    Some(c) => match spec_check_claims(
                        c.exp,
                        now,
                        jsonval::spec_string_field(m, "iss"@) == Some(issuer),
                        spec_aud_ok(m, audience),
                    ) {
                        Ok(u) => Ok(c),
                        Err(e) => Err(e),
                    },
                },
            },
        }
    }
}

/// The expiry boundary of the whole pipeline: for a well-formed token,
/// correctly RS256-signed under the key, whose payload decodes with
/// matching issuer and audience, an expiry equal to the current time
/// fails naming expiry, and any expiry strictly in the future yields
/// exactly the payload's claims.
pub proof fn lemma_pipeline_expiry_boundary(
    jwt: Seq<char>,
    key: JwkView,
    issuer: Seq<char>,
    audience: Seq<char>,
    now: u64,
    m: jsonval::JsonV,
    c: ClaimsView,
)
    requires
        spec_has3(jwt),
        rs256_valid(spec_message(jwt), spec_signature(jwt), key.modulus, key.exponent),
        b64url_bytes(spec_payload(jwt)) matches Some(bytes) && jsonval::json_bytes_of(bytes)
            == Some(m),
        spec_claims(m) == Some(c),
        jsonval::spec_string_field(m, "iss"@) == Some(issuer),
        spec_aud_ok(m, audience),
    ensures
        c.exp == now ==> spec_verify_token(jwt, true, key, issuer, audience, now) == Err::<
            ClaimsView,
            VerifyError,
        >(VerifyError::ClaimValidationFailed(ClaimKind::Expiry)),
        c.exp > now ==> spec_verify_token(jwt, true, key, issuer, audience, now) == Ok::<
            ClaimsView,
            VerifyError,
        >(c),
{
}

/// The issuer constraint of the whole pipeline: a well-formed,
/// correctly signed token whose payload claims an issuer other than
/// the expected one fails naming the issuer, whatever else it claims.
pub proof fn lemma_pipeline_issuer_mismatch(
    jwt: Seq<char>,
    key: JwkView,
    issuer: Seq<char>,
    audience: Seq<char>,
    now: u64,
    m: jsonval::JsonV,
    c: ClaimsView,
    claimed: Seq<char>,
)
    requires
        spec_has3(jwt),
        rs256_valid(spec_message(jwt), spec_signature(jwt), key.modulus, key.exponent),
        b64url_bytes(spec_payload(jwt)) matches Some(bytes) && jsonval::json_bytes_of(bytes)
            == Some(m),
        spec_claims(m) == Some(c),
        c.exp > now,
        jsonval::spec_string_field(m, "iss"@) == Some(claimed),
        claimed != issuer,
    ensures
        spec_verify_token(jwt, true, key, issuer, audience, now) == Err::<ClaimsView, VerifyError>(
            VerifyError::ClaimValidationFailed(ClaimKind::Issuer),
        ),
{
}

/// The mathematical image of a verifier: the expected audience and
/// issuer, and the state of its key cache.
pub ghost struct ValidatorView {
    pub audience: Seq<char>,
    pub issuer: Seq<char>,
    pub provider: ProviderView,
}

/// The verifier: holds the expected audience and issuer, and owns the
/// signing-key cache its resolutions go through.
pub struct Validator {
    pub audience: String,
    pub issuer: String,
    key_provider: GoogleKeyProvider,
}

impl View for Validator {
    type V = ValidatorView;

    closed spec fn view(&self) -> ValidatorView {
        ValidatorView { audience: self.audience@, issuer: self.issuer@, provider: self.key_provider@ }
    }
}

impl Validator {
    /// A verifier with the given expected audience and issuer and an
    /// initially empty, already-expired key cache.
    pub fn new(audience_value: String, issuer_value: String) -> (r: Self)
        ensures
            r@.audience == audience_value@,
            r@.issuer == issuer_value@,
            r@.provider.cached is None,
            r@.provider.expires_at == 0,
    {
        Validator {
            audience: audience_value,
            issuer: issuer_value,
            key_provider: GoogleKeyProvider::default(),
        }
    }

    /// Verify a token against an already resolved signing key: segment
    /// structure, declared algorithm, RS256 signature, then claims.
    /// `rs256` says whether the token's header declared RS256; the
    /// algorithm check precedes signature checking, so an unsupported
    /// algorithm never reaches the cryptographic step. A payload that
    /// does not decode into the expected claims shape (numeric `exp`,
    /// string `name` and `email`) is malformed; a missing `iss` or
    /// `aud` claim fails validation of that claim.
    pub fn check_token_with_key(&self, jwt: &str, rs256: bool, key: &Jwk, now: u64) -> (r: Result<
        Token<Claims>,
        VerifyError,
    >)
        ensures
            match r {
                Ok(t) => t.valid && spec_verify_token(
                    jwt@,
                    rs256,
                    key@,
                    self@.issuer,
                    self@.audience,
                    now,
                ) == Ok::<ClaimsView, VerifyError>(t.claims@),
                Err(e) => spec_verify_token(jwt@, rs256, key@, self@.issuer, self@.audience, now)
                    == Err::<ClaimsView, VerifyError>(e),
            },
    {
        let n = jwt.unicode_len();
        let (a, b) = match split_positions(jwt) {
            Some(p) => p,
            None => return Err(VerifyError::MalformedToken),
        };
        proof {
            lemma_split_points(jwt@, a as int, b as int);
        }
        if !rs256 {
            return Err(VerifyError::UnsupportedAlgorithm);
        }
        let message = jwt.substring_char(0, b);
        let payload = jwt.substring_char(a + 1, b);
        let signature = jwt.substring_char(b + 1, n);
        if !verify_rs256(message, signature, key.modulus.as_str(), key.exponent.as_str()) {
            return Err(VerifyError::InvalidSignature);
        }
        let payload_bytes = match b64url_decode(payload) {
            Some(bytes) => bytes,
            None => return Err(VerifyError::MalformedToken),
        };
        let doc = match jsonval::parse_bytes(&payload_bytes) {
            Some(v) => v,
            None => return Err(VerifyError::MalformedToken),
        };
        let exp = match jsonval::get(&doc, "exp") {
            Some(v) => match jsonval::as_u64(v) {
                Some(e) => e,
                None => return Err(VerifyError::MalformedToken),
            },
            None => return Err(VerifyError::MalformedToken),
        };
        let name = match crate::key_providers::field_string(&doc, "name") {
            Some(s) => s,
            None => return Err(VerifyError::MalformedToken),
        };
        let email = match crate::key_providers::field_string(&doc, "email") {
            Some(s) => s,
            None => return Err(VerifyError::MalformedToken),
        };
        let issuer_ok = match crate::key_providers::field_string(&doc, "iss") {
            Some(s) => s == self.issuer,
            None => false,
        };
        let audience_ok = audience_matches(&doc, &self.audience);
        match check_claims(exp, now, issuer_ok, audience_ok) {
            Ok(()) => Ok(Token { valid: true, claims: Claims { exp, name, email } }),
            Err(e) => Err(e),
        }
    }

    /// Verify a token against the cache as it stands: the full pipeline
    /// when the cache is fresh — or the header alone already decides —
    /// and `None` when a key document must be fetched first and the
    /// outcome handed to `validate_jwt_after_fetch`.
    pub fn validate_jwt(&self, jwt: &str, now: u64) -> (r: Option<
        Result<Token<Claims>, VerifyError>,
    >)
        ensures
            jwt_header_of(jwt@) is None ==> r == Some(
                Err::<Token<Claims>, VerifyError>(VerifyError::MalformedToken),
            ),
            jwt_header_of(jwt@) is Some ==> ((r is None) <==> spec_needs_fetch(
                self@.provider,
                now,
            )),
            jwt_header_of(jwt@) matches Some(h) ==> (fresh_at(self@.provider, now) ==> (
            match spec_lookup(self@.provider.cached, h.0) {
                Err(e) => r == Some(
                    Err::<Token<Claims>, VerifyError>(VerifyError::KeyUnavailable(e)),
                ),
                Ok(kv) => match r {
                    Some(Ok(t)) => t.valid && spec_verify_token(
                        jwt@,
                        h.1,
                        kv,
                        self@.issuer,
                        self@.audience,
                        now,
                    ) == Ok::<ClaimsView, VerifyError>(t.claims@),
                    Some(Err(e)) => spec_verify_token(
                        jwt@,
                        h.1,
                        kv,
                        self@.issuer,
                        self@.audience,
                        now,
                    ) == Err::<ClaimsView, VerifyError>(e),
                    None => false,
                },
            })),
    {
        let header = match decode_token_header(jwt) {
            Some(h) => h,
            None => return Some(Err(VerifyError::MalformedToken)),
        };
        let (kid, rs256) = header;
        match self.key_provider.resolve_cached(kid.as_str(), now) {
            None => None,
            Some(Err(e)) => Some(Err(VerifyError::KeyUnavailable(e))),
            Some(Ok(key)) => Some(self.check_token_with_key(jwt, rs256, &key, now)),
        }
    }

    /// Complete a verification that required a fetch: install the fetch
    /// outcome — on failure the cache is left untouched and the failure
    /// is the verdict — then resolve the declared key in the new set
    /// and run the token checks.
    pub fn validate_jwt_after_fetch(
        &mut self,
        jwt: &str,
        now: u64,
        outcome: Result<(JwkSet, Option<u64>), SourceError>,
    ) -> (r: Result<Token<Claims>, VerifyError>)
        ensures
            final(self)@.audience == old(self)@.audience,
            final(self)@.issuer == old(self)@.issuer,
            outcome matches Err(e) ==> final(self)@.provider == old(self)@.provider && r == Err::<
                Token<Claims>,
                VerifyError,
            >(VerifyError::KeyUnavailable(KeyError::KeyFetchFailed(e))),
            outcome matches Ok(p) ==> final(self)@.provider.cached == Some(p.0@)
                && final(self)@.provider.expires_at == spec_expiry(now, p.1),
            outcome matches Ok(p) ==> (jwt_header_of(jwt@) is None ==> r == Err::<
                Token<Claims>,
                VerifyError,
            >(VerifyError::MalformedToken)),
            outcome matches Ok(p) ==> (jwt_header_of(jwt@) matches Some(h) ==> (match spec_get_key(
                p.0@,
                h.0,
            ) {
                None => r == Err::<Token<Claims>, VerifyError>(
                    VerifyError::KeyUnavailable(KeyError::KeyNotFound),
                ),
                Some(kv) => match r {
                    Ok(t) => t.valid && spec_verify_token(
                        jwt@,
                        h.1,
                        kv,
                        old(self)@.issuer,
                        old(self)@.audience,
                        now,
                    ) == Ok::<ClaimsView, VerifyError>(t.claims@),
                    Err(e) => spec_verify_token(
                        jwt@,
                        h.1,
                        kv,
                        old(self)@.issuer,
                        old(self)@.audience,
                        now,
                    ) == Err::<ClaimsView, VerifyError>(e),
                },
            })),
    {
        match self.key_provider.refresh(now, outcome) {
            Err(e) => Err(VerifyError::KeyUnavailable(e)),
            Ok(()) => {
                let header = match decode_token_header(jwt) {
                    Some(h) => h,
                    None => return Err(VerifyError::MalformedToken),
                };
                let (kid, rs256) = header;
                match self.key_provider.lookup(kid.as_str()) {
                    Err(e) => Err(VerifyError::KeyUnavailable(e)),
                    Ok(key) => self.check_token_with_key(jwt, rs256, &key, now),
                }
            },
        }
    }
}

} // verus!
