use rust_authz::errors::{KeyError, SourceError};
use rust_authz::key_providers::{process_document, parse_key_document, GoogleKeyProvider, Jwk, JwkSet};

const TEST_MODULUS: &str = "vcGwfIndA5ZTmLgCDdii0eJ1vaonSHa09TXICllsThrPRbfQMKFFL6DuvuIx1G4DIkah0PgWuEra2PI5D4V2wKoLBGuYNLngisj-NhS6_KuF2jp6hpdUf1rKh8dA0toH0VC0vhU-adARcsPHYc9bWKL6eX5Cp3tI8uQ2kv_cJO7sK33s1KNd7XRzhHSMTPV6kG9kSgu03BpJNCJHmQIvUmEMouFgPi7yqU-08UZ1Z3Z9n43_6DmfkEJLhjGJ4iBYlkqg0aQsn_I10poiX3gGMS-Gz5mRGx5SBL3PjvDtI3aK3p4kxg-YKaOGQSfF4nLnEguPQ5cTIpHmzzwH8VvAvQ";

fn key_document() -> String {
    format!(
        "{{\"keys\":[{{\"kid\":\"A\",\"alg\":\"RS256\",\"n\":\"{}\",\"e\":\"AQAB\",\"kty\":\"RSA\",\"use\":\"sig\"}}]}}",
        TEST_MODULUS
    )
}

fn jwk(kid: &str, modulus: &str) -> Jwk {
    Jwk {
        public_key_use: "sig".to_string(),
        algorithm: "RS256".to_string(),
        modulus: modulus.to_string(),
        exponent: "AQAB".to_string(),
        key_type: "RSA".to_string(),
        key_id: kid.to_string(),
    }
}

/// A resolution under the serialization discipline: serve from the
/// cache when fresh, else fetch (counted), install, and look up.
fn resolve_driver(
    provider: &mut GoogleKeyProvider,
    kid: &str,
    now: u64,
    body: &str,
    cache_control: Option<&str>,
    fetch_count: &mut u32,
) -> Result<Jwk, KeyError> {
    match provider.resolve_cached(kid, now) {
        Some(result) => result,
        None => {
            *fetch_count += 1;
            let outcome = process_document(body, cache_control);
            match provider.refresh(now, outcome) {
                Ok(()) => provider.lookup(kid),
                Err(e) => Err(e),
            }
        }
    }
}

#[test]
fn get_key_round_trip() {
    let set = JwkSet { keys: vec![jwk("A", TEST_MODULUS), jwk("B", "otherModulus")] };
    let a = set.get_key("A").expect("key A present");
    assert_eq!(a.key_id, "A");
    assert_eq!(a.modulus, TEST_MODULUS);
    assert_eq!(a.exponent, "AQAB");
    assert_eq!(a.algorithm, "RS256");
    assert_eq!(a.key_type, "RSA");
    assert_eq!(a.public_key_use, "sig");
    let b = set.get_key("B").expect("key B present");
    assert_eq!(b.modulus, "otherModulus");
    assert!(set.get_key("C").is_none());
}

#[test]
fn get_key_last_wins_on_duplicate_ids() {
    let set = JwkSet { keys: vec![jwk("A", "first"), jwk("A", "second")] };
    let a = set.get_key("A").expect("key A present");
    assert_eq!(a.modulus, "second");
}

#[test]
fn get_id_returns_key_id() {
    assert_eq!(jwk("A", TEST_MODULUS).get_id(), "A");
}

#[test]
fn parsed_document_round_trip() {
    let set = parse_key_document(&key_document()).expect("well-formed document");
    let a = set.get_key("A").expect("key A present");
    assert_eq!(a.modulus, TEST_MODULUS);
    assert_eq!(a.exponent, "AQAB");
}

#[test]
fn parse_rejects_malformed_documents() {
    assert_eq!(parse_key_document("not json").unwrap_err(), SourceError::ParseError);
    assert_eq!(parse_key_document("{}").unwrap_err(), SourceError::ParseError);
    assert_eq!(parse_key_document("{\"keys\":7}").unwrap_err(), SourceError::ParseError);
    assert_eq!(
        parse_key_document("{\"keys\":[{\"kid\":\"A\"}]}").unwrap_err(),
        SourceError::ParseError
    );
}

#[test]
fn max_age_directive_is_extracted() {
    let (_, d) = process_document(&key_document(), Some("max-age=3600")).unwrap();
    assert_eq!(d, Some(3600));
    let (_, d) = process_document(&key_document(), Some("public, max-age=19545, must-revalidate, no-transform")).unwrap();
    assert_eq!(d, Some(19545));
    let (_, d) = process_document(&key_document(), Some("no-cache")).unwrap();
    assert_eq!(d, None);
    let (_, d) = process_document(&key_document(), None).unwrap();
    assert_eq!(d, None);
}

#[test]
fn fresh_cache_serves_without_fetch() {
    let mut provider = GoogleKeyProvider::default();
    let body = key_document();
    provider.process_response(1000, Some("max-age=3600"), &body).unwrap();

    let mut fetches: u32 = 0;
    let key = resolve_driver(&mut provider, "A", 1010, &body, Some("max-age=3600"), &mut fetches)
        .expect("fresh cache serves key A");
    assert_eq!(key.modulus, TEST_MODULUS);
    assert_eq!(fetches, 0);
}

#[test]
fn fresh_cache_unknown_id_fails_without_refetch() {
    let mut provider = GoogleKeyProvider::default();
    let body = key_document();
    provider.process_response(1000, Some("max-age=3600"), &body).unwrap();

    let mut fetches: u32 = 0;
    let r = resolve_driver(&mut provider, "B", 1010, &body, Some("max-age=3600"), &mut fetches);
    assert_eq!(r.unwrap_err(), KeyError::KeyNotFound);
    assert_eq!(fetches, 0);
}

#[test]
fn expiry_scenario_single_refetch() {
    // Document with key A, max-age 3600, cached at T0 = 1000.
    let t0: u64 = 1000;
    let body = key_document();
    let mut provider = GoogleKeyProvider::default();
    let mut fetches: u32 = 0;

    // The very first resolution must fetch: the cache starts expired.
    let key = resolve_driver(&mut provider, "A", t0, &body, Some("max-age=3600"), &mut fetches)
        .expect("first resolution installs and serves");
    assert_eq!(key.key_id, "A");
    assert_eq!(fetches, 1);

    // At T0 + 1800 the cache is fresh: zero further fetches.
    let key = resolve_driver(&mut provider, "A", t0 + 1800, &body, Some("max-age=3600"), &mut fetches)
        .expect("fresh cache serves");
    assert_eq!(key.modulus, TEST_MODULUS);
    assert_eq!(fetches, 1);

    // At T0 + 3601 the cache has expired: exactly one more fetch.
    assert!(provider.needs_fetch(t0 + 3601));
    let _ = resolve_driver(&mut provider, "A", t0 + 3601, &body, Some("max-age=3600"), &mut fetches)
        .expect("stale cache refetches and serves");
    assert_eq!(fetches, 2);
}

#[test]
fn expiry_boundary_of_the_cache() {
    let mut provider = GoogleKeyProvider::default();
    let body = key_document();
    provider.process_response(1000, Some("max-age=3600"), &body).unwrap();
    assert!(!provider.needs_fetch(4599));
    assert!(provider.needs_fetch(4600));
}

#[test]
fn concurrent_stale_callers_serialize_to_one_fetch() {
    // Two callers find the cache stale at the same instant. Under the
    // mutual-exclusion discipline the second re-checks freshness after
    // the first's refresh and is served from the installed set.
    let t: u64 = 5000;
    let body = key_document();
    let mut provider = GoogleKeyProvider::default();
    let mut fetches: u32 = 0;

    assert!(provider.needs_fetch(t));
    let first = resolve_driver(&mut provider, "A", t, &body, Some("max-age=3600"), &mut fetches)
        .expect("first caller fetches and is served");
    assert_eq!(fetches, 1);

    let second = resolve_driver(&mut provider, "A", t, &body, Some("max-age=3600"), &mut fetches)
        .expect("second caller is served from the refreshed cache");
    assert_eq!(fetches, 1);
    assert_eq!(first.modulus, second.modulus);
    assert_eq!(first.key_id, second.key_id);
}

#[test]
fn failed_fetch_leaves_cache_untouched() {
    let mut provider = GoogleKeyProvider::default();
    let body = key_document();
    provider.process_response(1000, Some("max-age=3600"), &body).unwrap();

    // A refresh attempt that fails must not disturb the cached set.
    let r = provider.refresh(5000, Err(SourceError::FetchError));
    assert_eq!(r.unwrap_err(), KeyError::KeyFetchFailed(SourceError::FetchError));
    let key = provider.lookup("A").expect("previous set still present");
    assert_eq!(key.modulus, TEST_MODULUS);

    // A refresh fed an unparsable body fails the same way.
    let r = provider.process_response(5000, Some("max-age=3600"), "not json");
    assert_eq!(r.unwrap_err(), KeyError::KeyFetchFailed(SourceError::ParseError));
    assert!(provider.lookup("A").is_ok());
}

#[test]
fn missing_freshness_directive_leaves_cache_always_stale() {
    let mut provider = GoogleKeyProvider::default();
    let body = key_document();
    provider.process_response(1000, None, &body).unwrap();
    // The set is installed, but the next call at any later instant
    // refetches: the degraded always-stale mode.
    assert!(provider.lookup("A").is_ok());
    assert!(provider.needs_fetch(1000));
    assert!(provider.needs_fetch(1001));
}
