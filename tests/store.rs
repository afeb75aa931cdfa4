use std::io::Write;

use cacache_store::{
    list_records, metadata_record, plan_write, CacheError, Digest, Entry, HashAlgorithm,
    Metadata, WriteOptions,
};

fn root(name: &str) -> String {
    let dir = format!("/tmp/cacache_store_tests/{}", name);
    let _ = cacache::clear_sync(&dir);
    dir
}

fn outside_algorithm(a: HashAlgorithm) -> cacache::Algorithm {
    match a {
        HashAlgorithm::Sha512 => cacache::Algorithm::Sha512,
        HashAlgorithm::Sha384 => cacache::Algorithm::Sha384,
        HashAlgorithm::Sha256 => cacache::Algorithm::Sha256,
        HashAlgorithm::Sha1 => cacache::Algorithm::Sha1,
        HashAlgorithm::Xxh3 => cacache::Algorithm::Xxh3,
    }
}

fn digest_of(i: &cacache::Integrity) -> Digest {
    let pairs: Vec<(String, String)> =
        i.hashes.iter().map(|h| (h.algorithm.to_string(), h.digest.clone())).collect();
    Digest::from_tagged(&pairs).unwrap()
}

fn entry_of(m: cacache::Metadata) -> Entry {
    Entry::new(
        m.key,
        digest_of(&m.integrity),
        m.time,
        m.size,
        &m.metadata,
        m.raw_metadata,
    )
}

fn write(cache: &str, data: &[u8], ops: Option<WriteOptions>) -> Result<String, CacheError> {
    let plan = plan_write(ops, data)?;
    let opts = cacache::WriteOpts::new().algorithm(outside_algorithm(plan.algorithm)).size(plan.size);
    let mut writer = match plan.key {
        Some(key) => opts.open_sync(cache, key),
        None => opts.open_hash_sync(cache),
    }
    .unwrap();
    writer.write_all(data).unwrap();
    Ok(digest_of(&writer.commit().unwrap()).to_text())
}

fn keyed(key: &str) -> Option<WriteOptions> {
    Some(WriteOptions::new(None, Some(key.to_string())))
}

fn outside_integrity(sri: &str) -> cacache::Integrity {
    let d = Digest::parse(sri).unwrap();
    d.to_text().parse().unwrap()
}

fn metadata(cache: &str, key: &str) -> Option<Metadata> {
    let found = match cacache::metadata_sync(cache, key) {
        Ok(Some(m)) => Ok(Some(entry_of(m))),
        Ok(None) => Ok(None),
        Err(e) => Err(CacheError::from_store(&e)),
    };
    metadata_record(&found)
}

fn list(cache: &str) -> Vec<Metadata> {
    let found: Vec<Result<Entry, CacheError>> = cacache::list_sync(cache)
        .map(|r| r.map(entry_of).map_err(|e| CacheError::from_store(&e)))
        .collect();
    list_records(&found)
}

#[test]
fn greeting_example() {
    let cache = root("greeting");
    let sri = write(&cache, b"hello", keyed("greeting")).unwrap();
    assert!(sri.starts_with("sha256-"));
    assert_eq!(sri, "sha256-LPJNul+wow4m6DsqxbninhsWHlwfp0JecwQzYpOLmCQ=");
    assert_eq!(cacache::read_sync(&cache, "greeting").unwrap(), b"hello".to_vec());
    assert!(cacache::exists_sync(&cache, &outside_integrity(&sri)));
    let m = metadata(&cache, "greeting").unwrap();
    assert_eq!(m.size, "5");
    assert_eq!(m.integrity, sri);
    assert_eq!(m.key, "greeting");
}

#[test]
fn round_trip_by_key_and_digest() {
    let cache = root("round_trip");
    let payloads: Vec<Vec<u8>> = vec![vec![], vec![0], b"some bytes".to_vec(), vec![255; 4096]];
    for (i, d) in payloads.iter().enumerate() {
        let key = format!("k{}", i);
        let ops = Some(WriteOptions::new(Some("sha512".to_string()), Some(key.clone())));
        let sri = write(&cache, d, ops).unwrap();
        assert!(sri.starts_with("sha512-"));
        assert_eq!(&cacache::read_sync(&cache, &key).unwrap(), d);
        assert_eq!(&cacache::read_hash_sync(&cache, &outside_integrity(&sri)).unwrap(), d);
    }
}

#[test]
fn content_only_write_has_no_index_entry() {
    let cache = root("content_only");
    let sri = write(&cache, b"loose", Some(WriteOptions::default())).unwrap();
    assert!(cacache::exists_sync(&cache, &outside_integrity(&sri)));
    assert!(list(&cache).is_empty());
}

#[test]
fn dedup_same_bytes_two_keys() {
    let cache = root("dedup");
    let a = write(&cache, b"same", keyed("one")).unwrap();
    let b = write(&cache, b"same", keyed("two")).unwrap();
    assert_eq!(a, b);
    assert_eq!(list(&cache).len(), 2);
    cacache::remove_hash_sync(&cache, &outside_integrity(&a)).unwrap();
    assert!(cacache::read_sync(&cache, "one").is_err());
    assert!(cacache::read_sync(&cache, "two").is_err());
}

#[test]
fn removal_is_idempotent() {
    let cache = root("removal");
    write(&cache, b"bye", keyed("gone")).unwrap();
    cacache::remove_sync(&cache, "gone").unwrap();
    cacache::remove_sync(&cache, "gone").unwrap();
    cacache::remove_sync(&cache, "never-there").unwrap();
    assert!(cacache::read_sync(&cache, "gone").is_err());
    assert!(metadata(&cache, "gone").is_none());
}

#[test]
fn clear_empties_the_cache() {
    let cache = root("clear");
    let sri = write(&cache, b"temporary", keyed("t")).unwrap();
    write(&cache, b"other", keyed("u")).unwrap();
    assert_eq!(list(&cache).len(), 2);
    cacache::clear_sync(&cache).unwrap();
    assert!(list(&cache).is_empty());
    assert!(!cacache::exists_sync(&cache, &outside_integrity(&sri)));
}

#[test]
fn unknown_algorithm_writes_nothing() {
    let cache = root("unknown_algorithm");
    let ops = Some(WriteOptions::new(Some("md5".to_string()), Some("k".to_string())));
    assert!(matches!(write(&cache, b"x", ops), Err(CacheError::UnsupportedAlgorithm(_))));
    assert!(list(&cache).is_empty());
}

#[test]
fn distinct_keys_listed_with_sizes() {
    let cache = root("distinct_keys");
    let mut expected = Vec::new();
    for i in 0..8usize {
        let data = vec![i as u8; i + 1];
        let sri = write(&cache, &data, keyed(&format!("key-{}", i))).unwrap();
        expected.push((format!("key-{}", i), sri, (i + 1).to_string()));
    }
    let mut got: Vec<(String, String, String)> =
        list(&cache).into_iter().map(|m| (m.key, m.integrity, m.size)).collect();
    got.sort();
    expected.sort();
    assert_eq!(got, expected);
}

#[test]
fn missing_key_is_not_found() {
    let cache = root("missing_key");
    write(&cache, b"present", keyed("here")).unwrap();
    let e = cacache::read_sync(&cache, "absent").unwrap_err();
    assert!(matches!(CacheError::from_store(&e), CacheError::NotFound(_)));
}

#[test]
fn size_mismatch_is_integrity_mismatch() {
    let cache = root("size_mismatch");
    let mut writer = cacache::WriteOpts::new().size(3).open_sync(&cache, "short").unwrap();
    writer.write_all(b"toolong").unwrap();
    let e = writer.commit().unwrap_err();
    match CacheError::from_store(&e) {
        CacheError::IntegrityMismatch(text) => assert_eq!(text, e.to_string()),
        other => panic!("unexpected {:?}", other),
    }
}

#[test]
fn tampered_blob_fails_checked_read() {
    let cache = root("tamper");
    let sri = write(&cache, b"original", keyed("t")).unwrap();
    let other = write(&cache, b"tampered", Some(WriteOptions::default())).unwrap();
    let (algo, hex) = outside_integrity(&sri).to_hex();
    let blob = format!("{}/content-v2/{}/{}/{}/{}", cache, algo, &hex[0..2], &hex[2..4], &hex[4..]);
    cacache::copy_hash_unchecked_sync(&cache, &outside_integrity(&other), &blob).unwrap();
    let e = cacache::read_sync(&cache, "t").unwrap_err();
    assert!(matches!(CacheError::from_store(&e), CacheError::IntegrityMismatch(_)));
    let e = cacache::read_hash_sync(&cache, &outside_integrity(&sri)).unwrap_err();
    assert!(matches!(CacheError::from_store(&e), CacheError::IntegrityMismatch(_)));
    let out = format!("{}-copy", cache);
    assert_eq!(cacache::copy_unchecked_sync(&cache, "t", &out).unwrap(), 8);
    assert!(cacache::copy_sync(&cache, "t", &out).is_err());
}

#[test]
fn write_without_options_creates_no_index_entry() {
    let cache = root("no_options");
    let sri = write(&cache, b"hello", None).unwrap();
    assert_eq!(cacache::read_hash_sync(&cache, &outside_integrity(&sri)).unwrap(), b"hello".to_vec());
    assert!(list(&cache).is_empty());
    assert!(metadata(&cache, "").is_none());
}

#[test]
fn missing_blob_is_not_found() {
    let cache = root("missing_blob");
    write(&cache, b"kept", keyed("kept")).unwrap();
    let absent = outside_integrity("sha256-LPJNul+wow4m6DsqxbninhsWHlwfp0JecwQzYpOLmCQ=");
    let e = cacache::read_hash_sync(&cache, &absent).unwrap_err();
    assert!(matches!(CacheError::from_store(&e), CacheError::NotFound(_)));
}
