use zerofs::cli::debug::decode_payload;
use zerofs::cli::debug::describe_key;
use zerofs::cli::debug::KeyListing;
use zerofs::cli::debug::ListedKey;
use zerofs::fs::key_codec::KeyCodec;
use zerofs::fs::key_codec::KeyPrefix;
use zerofs::fs::key_codec::META_DOMAIN;

// Every key kind the filesystem writes must classify under its KeyPrefix
// and decode its id payload; keys are built via KeyCodec so this breaks
// if the parser ever drifts from the codec's segmented layout again.
#[test]
fn test_describe_key_decodes_every_kind() {
    let codec = KeyCodec::new();
    let cases: Vec<(bytes::Bytes, KeyPrefix, &str)> = vec![
        (codec.inode_key(42), KeyPrefix::Inode, "inode_id=42"),
        (
            codec.extent_key(7, 99),
            KeyPrefix::Extent,
            "inode_id=7, extent_index=99",
        ),
        (
            codec.dir_entry_key(3, b"hello.txt"),
            KeyPrefix::DirEntry,
            "dir_id=3, name=\"hello.txt\"",
        ),
        (
            codec.dir_scan_key(3, 12),
            KeyPrefix::DirScan,
            "dir_id=3, cookie=12",
        ),
        (
            codec.dir_cookie_counter_key(3),
            KeyPrefix::DirCookie,
            "dir_id=3",
        ),
        (
            codec.tombstone_key(1111, 5),
            KeyPrefix::Tombstone,
            "timestamp=1111, inode_id=5",
        ),
        (codec.orphan_key(8), KeyPrefix::Orphan, "inode_id=8"),
        (codec.stats_shard_key(2), KeyPrefix::Stats, "shard_id=2"),
        (
            codec.system_counter_key(),
            KeyPrefix::System,
            "subtype=0x01",
        ),
        (
            codec.segcount_key(4, 17),
            KeyPrefix::SegCount,
            "epoch=4, counter=17",
        ),
    ];
    for (key, want_prefix, want_detail) in cases {
        let (prefix, detail) = match describe_key(&codec, &key) {
            Some(described) => described,
            None => panic!("key {:?} not recognized", key),
        };
        assert_eq!(prefix, want_prefix, "kind for {:?}", key);
        assert_eq!(detail, want_detail, "payload for {:?}", key);
    }
}

#[test]
fn test_describe_key_rejects_undecodable_keys() {
    let codec = KeyCodec::new();
    // Empty, no domain prefix, and the pre-segment layout (bare kind byte).
    assert!(describe_key(&codec, b"").is_none());
    assert!(describe_key(&codec, b"garbage").is_none());
    assert!(describe_key(&codec, &[0x01, 0, 0, 0, 0, 0, 0, 0, 42]).is_none());
    // An extent kind byte under the meta domain is misrouted, not a kind.
    let mut misrouted = META_DOMAIN.to_vec();
    misrouted.push(u8::from(KeyPrefix::Extent));
    misrouted.extend_from_slice(&[0; 16]);
    assert!(describe_key(&codec, &misrouted).is_none());
    // A recognized kind with a truncated payload still classifies (and
    // counts) but falls back to the raw rendering instead of misdecoding.
    let inode_key = codec.inode_key(1);
    let truncated = &inode_key[..inode_key.len() - 1];
    let (prefix, detail) = describe_key(&codec, truncated).unwrap();
    assert_eq!(prefix, KeyPrefix::Inode);
    assert!(detail.starts_with("raw="));
    assert_eq!(detail, format!("raw={:?}", truncated));
}

#[test]
fn a_system_key_without_its_subtype_is_shown_raw() {
    let codec = KeyCodec::new();
    assert_eq!(decode_payload(&codec, KeyPrefix::System, b"meta\x06"), None);
    assert_eq!(
        describe_key(&codec, b"meta\x06"),
        Some((KeyPrefix::System, "raw=[109, 101, 116, 97, 6]".to_string()))
    );
    assert_eq!(
        decode_payload(&codec, KeyPrefix::System, b"meta\x06\x0a"),
        Some("subtype=0x0a".to_string())
    );
}

#[test]
fn invalid_names_are_shown_with_replacement_characters() {
    let codec = KeyCodec::new();
    let (_, detail) = describe_key(&codec, &codec.dir_entry_key(3, b"a\xffb")).unwrap();
    assert_eq!(detail, "dir_id=3, name=\"a\u{fffd}b\"");
}

#[test]
fn a_listing_counts_keys_by_kind() {
    let codec = KeyCodec::new();
    let mut listing = KeyListing::new();
    assert_eq!(listing.add_key(&codec, b"garbage"), ListedKey::Unknown);
    assert_eq!(listing.add_key(&codec, b""), ListedKey::Empty);
    assert_eq!(
        listing.add_key(&codec, &codec.orphan_key(8)),
        ListedKey::Known("[ORPHAN] inode_id=8".to_string())
    );
    listing.add_key(&codec, &codec.inode_key(1));
    listing.add_key(&codec, &codec.inode_key(2));
    listing.add_key(&codec, &codec.extent_key(1, 0));
    assert_eq!(listing.total(), 4);
    let mut expected: Vec<(u8, String)> = vec![
        (u8::from(KeyPrefix::Inode), "  INODE: 2".to_string()),
        (u8::from(KeyPrefix::Orphan), "  ORPHAN: 1".to_string()),
        (u8::from(KeyPrefix::Extent), "  EXTENT: 1".to_string()),
    ];
    expected.sort();
    let lines: Vec<String> = expected.into_iter().map(|(_, line)| line).collect();
    assert_eq!(listing.summary(), lines);
}
