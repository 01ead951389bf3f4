use stellar_cartography::cache::{
    bytes_equal, check_artifact, compute_data_fingerprint, to_hex, CacheArtifact, CacheError,
    LoadAction, LoadEvent, SourceData, SourceFile, DIGEST_LEN, FORMAT_VERSION, HEADER_LEN,
};
use stellar_cartography::spatial::SpatialIndex;

fn file(contents: &[u8], modified: u64) -> Option<SourceFile> {
    Some(SourceFile { contents: contents.to_vec(), modified })
}

fn sources() -> SourceData {
    SourceData {
        starmap: file(b"{\"systems\":{}}", 1_700_000_000),
        labels: file(b"{}", 1_700_000_001),
    }
}

#[test]
fn message_is_contents_then_times() {
    let message = sources().message();
    let mut expected = b"{\"systems\":{}}{}".to_vec();
    expected.extend_from_slice(&1_700_000_000u64.to_le_bytes());
    expected.extend_from_slice(&1_700_000_001u64.to_le_bytes());
    assert_eq!(message, expected);
}

#[test]
fn message_skips_absent_files() {
    let only_labels = SourceData { starmap: None, labels: file(b"xy", 7) };
    assert_eq!(only_labels.message(), vec![b'x', b'y', 7, 0, 0, 0, 0, 0, 0, 0]);
    let nothing = SourceData { starmap: None, labels: None };
    assert!(nothing.message().is_empty());
}

#[test]
fn fingerprint_of_known_sources() {
    let nothing = SourceData { starmap: None, labels: None };
    assert_eq!(
        to_hex(&compute_data_fingerprint(&nothing)),
        "e3b0c44298fc1c149afbf4c8996fb92427ae41e4649b934ca495991b7852b855"
    );
    let abc = SourceData { starmap: file(b"abc", 0), labels: None };
    assert_eq!(
        to_hex(&compute_data_fingerprint(&abc)),
        "4b5c6fd314d0d83d29a1e129033092289834a2b50da22f2c0f74177dc3e7525e"
    );
    assert_eq!(
        to_hex(&compute_data_fingerprint(&sources())),
        "d3129d079c1c4f8cf94fb868b2c02183ed0ce387bc985b86e7ad926fa673823e"
    );
    assert_eq!(compute_data_fingerprint(&sources()).len(), DIGEST_LEN);
}

#[test]
fn hex_is_lower_case_two_digits_per_byte() {
    assert_eq!(to_hex(&vec![0x00, 0x0f, 0xa0, 0xff, 0x5b]), "000fa0ff5b");
    assert_eq!(to_hex(&Vec::new()), "");
}

#[test]
fn bytes_equal_compares_contents() {
    assert!(bytes_equal(&vec![1, 2, 3], &vec![1, 2, 3]));
    assert!(!bytes_equal(&vec![1, 2, 3], &vec![1, 2, 4]));
    assert!(!bytes_equal(&vec![1, 2, 3], &vec![1, 2]));
    assert!(bytes_equal(&Vec::new(), &Vec::new()));
}

#[test]
fn artifact_layout() {
    let artifact = CacheArtifact {
        format_version: 1,
        fingerprint: (0u8..32).collect(),
        created_at: 0x0102_0304_0506_0708,
        snapshot: vec![0xaa, 0xbb, 0xcc],
    };
    let bytes = artifact.encode();
    assert_eq!(bytes.len(), HEADER_LEN + 3);
    assert_eq!(&bytes[0..4], &[1, 0, 0, 0]);
    assert_eq!(&bytes[4..36], &(0u8..32).collect::<Vec<u8>>()[..]);
    assert_eq!(&bytes[36..44], &[8, 7, 6, 5, 4, 3, 2, 1]);
    assert_eq!(&bytes[44..52], &[3, 0, 0, 0, 0, 0, 0, 0]);
    assert_eq!(&bytes[52..], &[0xaa, 0xbb, 0xcc]);
}

#[test]
fn decode_reads_back_what_encode_wrote() {
    let artifact = CacheArtifact {
        format_version: 9,
        fingerprint: vec![7; 32],
        created_at: 1_700_000_123,
        snapshot: b"snapshot bytes".to_vec(),
    };
    let back = CacheArtifact::decode(&artifact.encode()).unwrap();
    assert_eq!(back.format_version, 9);
    assert_eq!(back.fingerprint, vec![7; 32]);
    assert_eq!(back.created_at, 1_700_000_123);
    assert_eq!(back.snapshot, b"snapshot bytes".to_vec());
}

#[test]
fn decode_refuses_short_and_mislabelled_blobs() {
    assert_eq!(CacheArtifact::decode(&Vec::new()).unwrap_err(), CacheError::Truncated);
    assert_eq!(CacheArtifact::decode(&vec![0; 51]).unwrap_err(), CacheError::Truncated);
    assert!(CacheArtifact::decode(&vec![0; 52]).is_ok());
    assert_eq!(CacheArtifact::decode(&vec![0; 53]).unwrap_err(), CacheError::LengthMismatch);
    let mut bytes = SpatialIndex::save_to_binary(vec![1, 2, 3], &sources(), 5);
    bytes.pop();
    assert_eq!(CacheArtifact::decode(&bytes).unwrap_err(), CacheError::LengthMismatch);
}

#[test]
fn cache_round_trip() {
    let snapshot = b"the serialised snapshot".to_vec();
    let bytes = SpatialIndex::save_to_binary(snapshot.clone(), &sources(), 1_700_000_500);
    assert_eq!(SpatialIndex::load_from_binary(&bytes, &sources()), Ok(snapshot));
}

#[test]
fn cache_round_trip_of_empty_snapshot() {
    let bytes = SpatialIndex::save_to_binary(Vec::new(), &sources(), 0);
    assert_eq!(bytes.len(), HEADER_LEN);
    assert_eq!(SpatialIndex::load_from_binary(&bytes, &sources()), Ok(Vec::new()));
}

#[test]
fn changed_byte_makes_cache_stale() {
    let bytes = SpatialIndex::save_to_binary(vec![1, 2, 3], &sources(), 10);
    let mut changed = sources();
    changed.starmap.as_mut().unwrap().contents[3] ^= 1;
    assert_eq!(SpatialIndex::load_from_binary(&bytes, &changed), Err(CacheError::Stale));
}

#[test]
fn changed_timestamp_makes_cache_stale() {
    let bytes = SpatialIndex::save_to_binary(vec![1, 2, 3], &sources(), 10);
    let mut changed = sources();
    changed.labels.as_mut().unwrap().modified += 1;
    assert_eq!(SpatialIndex::load_from_binary(&bytes, &changed), Err(CacheError::Stale));
}

#[test]
fn removed_file_makes_cache_stale() {
    let bytes = SpatialIndex::save_to_binary(vec![1, 2, 3], &sources(), 10);
    let mut changed = sources();
    changed.labels = None;
    assert_eq!(SpatialIndex::load_from_binary(&bytes, &changed), Err(CacheError::Stale));
}

#[test]
fn other_layout_version_is_refused() {
    let artifact = CacheArtifact {
        format_version: FORMAT_VERSION + 1,
        fingerprint: compute_data_fingerprint(&sources()),
        created_at: 10,
        snapshot: vec![1, 2, 3],
    };
    assert_eq!(
        SpatialIndex::load_from_binary(&artifact.encode(), &sources()),
        Err(CacheError::VersionMismatch)
    );
}

#[test]
fn corrupt_blob_is_refused() {
    assert_eq!(
        SpatialIndex::load_from_binary(&b"not a cache".to_vec(), &sources()),
        Err(CacheError::Truncated)
    );
}

#[test]
fn check_artifact_compares_with_given_fingerprint() {
    let artifact = CacheArtifact {
        format_version: FORMAT_VERSION,
        fingerprint: vec![3; 32],
        created_at: 10,
        snapshot: vec![9, 9],
    };
    let bytes = artifact.encode();
    assert_eq!(check_artifact(&bytes, &vec![3; 32]), Ok(vec![9, 9]));
    assert_eq!(check_artifact(&bytes, &vec![4; 32]), Err(CacheError::Stale));
    assert_eq!(check_artifact(&bytes, &vec![3; 31]), Err(CacheError::Stale));
}

#[test]
fn two_builds_from_same_sources_share_fingerprint_not_bytes() {
    let first = SpatialIndex::save_to_binary(vec![1, 2, 3], &sources(), 1_700_000_500);
    let second = SpatialIndex::save_to_binary(vec![1, 2, 3], &sources(), 1_700_000_900);
    let a = CacheArtifact::decode(&first).unwrap();
    let b = CacheArtifact::decode(&second).unwrap();
    assert_eq!(a.fingerprint, b.fingerprint);
    assert_ne!(a.created_at, b.created_at);
    assert_ne!(first, second);
}

#[test]
fn load_falls_back_to_build_and_swallows_failed_write() {
    assert_eq!(SpatialIndex::load_with_cache(LoadEvent::Begin), LoadAction::ProbeCache);
    assert_eq!(SpatialIndex::load_with_cache(LoadEvent::CacheFound), LoadAction::ReadCache);
    assert_eq!(SpatialIndex::load_with_cache(LoadEvent::CacheMissing), LoadAction::BuildFromSource);
    assert_eq!(SpatialIndex::load_with_cache(LoadEvent::CacheLoaded), LoadAction::ServeCached);
    assert_eq!(
        SpatialIndex::load_with_cache(LoadEvent::CacheRejected),
        LoadAction::BuildFromSource
    );
    assert_eq!(SpatialIndex::load_with_cache(LoadEvent::Built), LoadAction::WriteCache);
    assert_eq!(SpatialIndex::load_with_cache(LoadEvent::BuildFailed), LoadAction::Abort);
    assert_eq!(SpatialIndex::load_with_cache(LoadEvent::Saved), LoadAction::ServeBuilt);
    assert_eq!(SpatialIndex::load_with_cache(LoadEvent::SaveFailed), LoadAction::ServeBuilt);
}
