use zerofs::fs::errors::FsError;
use zerofs::fs::key_codec::is_reserved_mutation_key;
use zerofs::fs::key_codec::ExportBindingMetadataKey;
use zerofs::fs::key_codec::ExportMutationKey;
use zerofs::fs::key_codec::KeyCodec;
use zerofs::fs::key_codec::KeyPrefix;
use zerofs::fs::key_codec::NbdSessionKey;
use zerofs::fs::key_codec::ParsedKey;
use zerofs::fs::key_codec::EXTENT_DOMAIN;
use zerofs::fs::key_codec::META_DOMAIN;
use zerofs::replication::HaStamp;
use zerofs::replication::HaStampError;
use zerofs::replication::ShipSeqno;
use zerofs::replication::SoloHistory;
use zerofs::replication::WriterEpoch;

const SAMPLES: [u64; 9] = [0, 1, 2, 255, 256, 65_535, 1 << 40, u64::MAX - 1, u64::MAX];

fn session() -> NbdSessionKey<'static> {
    NbdSessionKey {
        workspace_id: "workspace-a",
        actor: "actor-a",
        actor_generation: 1,
        placement_epoch: 2,
        session_id: "session-a",
        server_boot_id: "boot-a",
    }
}

#[test]
fn reserved_mutation_namespace_matches_only_registered_encoded_prefixes() {
    let codec = KeyCodec::new();
    let ledger = codec.workspace_operation_key(1, b"workspace-a", 10, b"request-a");
    assert!(is_reserved_mutation_key(&ledger));
    assert!(is_reserved_mutation_key(
        &codec.export_authority_key("workspace-a")
    ));
    let session = session();
    assert!(is_reserved_mutation_key(
        &codec.nbd_session_install_key(&session)
    ));
    assert!(is_reserved_mutation_key(
        &codec.nbd_session_install_outcome_key("workspace-a", &[1; 16])
    ));
    assert!(is_reserved_mutation_key(
        &codec.nbd_connection_receipt_key(&session, &[2; 16])
    ));
    assert!(is_reserved_mutation_key(
        &codec.nbd_connection_reservation_key(&[2; 16])
    ));
    assert!(is_reserved_mutation_key(&codec.export_boot_key()));

    assert!(!is_reserved_mutation_key(&META_DOMAIN));
    assert!(!is_reserved_mutation_key(b"met"));
    assert!(!is_reserved_mutation_key(b"metadata\x0a"));
    assert!(!is_reserved_mutation_key(&codec.inode_key(1)));
    assert!(!is_reserved_mutation_key(&codec.system_counter_key()));
    assert!(!is_reserved_mutation_key(&codec.extent_key(1, 0)));
}

#[test]
fn genesis_head_and_barrier_rows_are_reserved() {
    let codec = KeyCodec::new();
    assert!(is_reserved_mutation_key(
        &codec.workspace_genesis_key("workspace-a")
    ));
    assert!(is_reserved_mutation_key(
        &codec.workspace_head_key("workspace-a")
    ));
    assert!(is_reserved_mutation_key(
        &codec.workspace_head_version_key("workspace-a", 2)
    ));
    assert!(is_reserved_mutation_key(
        &codec.workspace_barrier_record_key("workspace-a", "request-a")
    ));
    assert_ne!(
        codec.workspace_head_version_key("workspace-a", 1),
        codec.workspace_head_version_key("workspace-a", 2)
    );
    assert_ne!(
        codec.workspace_barrier_record_key("workspace-a", "request-a"),
        codec.workspace_barrier_record_key("workspace-a", "request-b")
    );
}

#[test]
fn test_dir_scan_parsing() {
    let codec = KeyCodec::new();
    let dir_id = 10u64;
    let cookie = 42u64;
    let key = codec.dir_scan_key(dir_id, cookie);

    match codec.parse_key(&key) {
        ParsedKey::DirScan {
            cookie: parsed_cookie,
        } => {
            assert_eq!(parsed_cookie, cookie);
        }
        _ => panic!("Failed to parse dir scan key"),
    }
}

#[test]
fn test_tombstone_parsing() {
    let codec = KeyCodec::new();
    let timestamp = 123456u64;
    let inode_id = 789u64;
    let key = codec.tombstone_key(timestamp, inode_id);

    match codec.parse_key(&key) {
        ParsedKey::Tombstone {
            inode_id: parsed_id,
        } => {
            assert_eq!(parsed_id, inode_id);
        }
        _ => panic!("Failed to parse tombstone key"),
    }
}

#[test]
fn test_extent_parsing() {
    let codec = KeyCodec::new();
    let inode_id = 7u64;
    let extent_index = 99u64;
    let key = codec.extent_key(inode_id, extent_index);
    assert_eq!(codec.parse_extent_key(&key), Some(extent_index));
    assert_eq!(codec.parse_extent_key_full(&key), Some((7, 99)));
}

#[test]
fn test_layout_routing() {
    let codec = KeyCodec::new();
    let inode_key = codec.inode_key(0);
    assert!(inode_key.starts_with(&META_DOMAIN));
    assert_eq!(inode_key[META_DOMAIN.len()], u8::from(KeyPrefix::Inode));

    let extent_key = codec.extent_key(0, 0);
    assert!(extent_key.starts_with(&EXTENT_DOMAIN));
    assert_eq!(extent_key[EXTENT_DOMAIN.len()], u8::from(KeyPrefix::Extent));

    let tombstone = codec.tombstone_key(0, 0);
    assert!(tombstone.starts_with(&META_DOMAIN));

    // No metadata key should be misrouted into the extent domain.
    assert!(!inode_key.starts_with(&EXTENT_DOMAIN));
    assert!(!tombstone.starts_with(&EXTENT_DOMAIN));
}

#[test]
fn segcount_key_roundtrips_and_orders() {
    let codec = KeyCodec::new();
    for (e, c) in [(0u64, 0u64), (5, 0x23b), (7, 255), (u64::MAX, u64::MAX)] {
        let k = codec.segcount_key(e, c);
        assert_eq!(k.len(), META_DOMAIN.len() + 1 + 16);
        assert!(k.starts_with(&META_DOMAIN));
        assert_eq!(k[META_DOMAIN.len()], u8::from(KeyPrefix::SegCount));
        assert_eq!(codec.parse_segcount_key(&k), Some((e, c)));
    }
    // Big-endian id => creation-order scan.
    assert!(codec.segcount_key(5, 10).as_ref() < codec.segcount_key(5, 11).as_ref());
    assert!(codec.segcount_key(5, u64::MAX).as_ref() < codec.segcount_key(6, 0).as_ref());
    // The prefix range brackets every segcount key and excludes other kinds.
    let (start, end) = codec.segcount_prefix_range();
    let sc = codec.segcount_key(9, 9);
    assert!(sc.as_ref() >= start.as_ref() && sc.as_ref() < end.as_ref());
    let ino = codec.inode_key(9);
    assert!(!(ino.as_ref() >= start.as_ref() && ino.as_ref() < end.as_ref()));
    assert_eq!(codec.parse_segcount_key(&ino), None);
}

#[test]
fn test_value_encoding() {
    let counter = 12345u64;
    let encoded = KeyCodec::encode_counter(counter);
    let decoded = KeyCodec::decode_counter(&encoded).unwrap();
    assert_eq!(decoded, counter);

    let inode_id = 999u64;
    let cookie = 42u64;
    let encoded = KeyCodec::encode_dir_entry(inode_id, cookie);
    let (decoded_id, decoded_cookie) = KeyCodec::decode_dir_entry(&encoded).unwrap();
    assert_eq!(decoded_id, inode_id);
    assert_eq!(decoded_cookie, cookie);

    let size = 1024u64;
    let encoded = KeyCodec::encode_tombstone_size(size);
    let decoded = KeyCodec::decode_tombstone_size(&encoded).unwrap();
    assert_eq!(decoded, size);
}

#[test]
fn values_of_the_wrong_length_are_rejected() {
    assert_eq!(KeyCodec::decode_counter(&[0; 7]), Err(FsError::InvalidData));
    assert_eq!(KeyCodec::decode_tombstone_size(&[0; 9]), Err(FsError::InvalidData));
    assert_eq!(KeyCodec::decode_dir_entry(&[0; 15]), Err(FsError::InvalidData));
    assert_eq!(KeyCodec::decode_u64(&[0; 3]), None);
    assert_eq!(KeyCodec::decode_segcount(&[0; 9]), None);
    assert_eq!(
        KeyCodec::decode_segcount(&KeyCodec::encode_u64(5)),
        Some((5, 5))
    );
    assert_eq!(
        KeyCodec::decode_segcount(&KeyCodec::encode_segcount(3, 9)),
        Some((3, 9))
    );
    assert_eq!(&KeyCodec::encode_counter(1)[..], [1, 0, 0, 0, 0, 0, 0, 0]);
}

#[test]
fn test_ha_stamp_encoding() {
    let (epoch, seqno, solo, applied_through) = (7u64, 123456u64, 3u64, 123458u64);
    let stamp = HaStamp::new(
        WriterEpoch::new(epoch).unwrap(),
        ShipSeqno::new(seqno),
        SoloHistory::ever(solo),
        ShipSeqno::new(applied_through),
    )
    .unwrap();
    let encoded = KeyCodec::encode_ha_stamp(&stamp);
    assert_eq!(KeyCodec::decode_ha_stamp(&encoded), Some(stamp));
    // A transitional four-field layout never existed and remains invalid.
    assert_eq!(KeyCodec::decode_ha_stamp(&encoded[..32]), None);
    // Durable legacy layouts migrate conservatively: the shipped seqno is
    // known applied, but missing Solo history disables retry grace.
    let legacy_three_field = HaStamp::new(
        WriterEpoch::new(epoch).unwrap(),
        ShipSeqno::new(seqno),
        SoloHistory::ever(solo),
        ShipSeqno::new(seqno),
    )
    .unwrap();
    assert_eq!(
        KeyCodec::decode_ha_stamp(&encoded[..24]),
        Some(legacy_three_field)
    );
    let legacy_two_field = HaStamp::new(
        WriterEpoch::new(epoch).unwrap(),
        ShipSeqno::new(seqno),
        SoloHistory::ever(0),
        ShipSeqno::new(seqno),
    )
    .unwrap();
    assert_eq!(
        KeyCodec::decode_ha_stamp(&encoded[..16]),
        Some(legacy_two_field)
    );
    let mut legacy_solo_from_birth = Vec::with_capacity(24);
    legacy_solo_from_birth.extend_from_slice(&epoch.to_le_bytes());
    legacy_solo_from_birth.extend_from_slice(&0u64.to_le_bytes());
    legacy_solo_from_birth.extend_from_slice(&2u64.to_le_bytes());
    let legacy_solo_from_birth_stamp = HaStamp::new(
        WriterEpoch::new(epoch).unwrap(),
        None,
        SoloHistory::ever(2),
        None,
    )
    .unwrap();
    assert_eq!(
        KeyCodec::decode_ha_stamp(&legacy_solo_from_birth),
        Some(legacy_solo_from_birth_stamp),
        "a pre-upgrade writer may have committed Solo before its first ship"
    );
    // Wrong length is rejected, not silently misread.
    assert_eq!(KeyCodec::decode_ha_stamp(&encoded[..8]), None);
    assert_eq!(KeyCodec::decode_ha_stamp(&[]), None);

    let mut zero_epoch = encoded.to_vec();
    zero_epoch[..8].copy_from_slice(&0u64.to_le_bytes());
    assert_eq!(
        KeyCodec::decode_ha_stamp(&zero_epoch),
        None,
        "zero is the absence sentinel, not a valid HA writer epoch"
    );

    let mut regressed = encoded.to_vec();
    regressed[24..32].copy_from_slice(&(seqno - 1).to_le_bytes());
    assert_eq!(
        KeyCodec::decode_ha_stamp(&regressed),
        None,
        "an applied frontier behind an acknowledged ship is invalid"
    );

    let mut invalid_solo_ever = encoded.to_vec();
    invalid_solo_ever[32..].copy_from_slice(&2u64.to_le_bytes());
    assert_eq!(
        KeyCodec::decode_ha_stamp(&invalid_solo_ever),
        None,
        "the durable Solo-history bit accepts only canonical boolean values"
    );

    let never_solo = HaStamp::new(
        WriterEpoch::new(epoch).unwrap(),
        ShipSeqno::new(seqno),
        SoloHistory::never(),
        ShipSeqno::new(seqno),
    )
    .unwrap();
    let inconsistent_solo_history = KeyCodec::encode_ha_stamp(&never_solo);
    let mut inconsistent_solo_history = inconsistent_solo_history.to_vec();
    inconsistent_solo_history[16..24].copy_from_slice(&1u64.to_le_bytes());
    assert_eq!(
        KeyCodec::decode_ha_stamp(&inconsistent_solo_history),
        None,
        "a positive current Solo count cannot claim the term never ran Solo"
    );

    // The HA-stamp key is distinct from the inode counter (both System-prefixed).
    let codec = KeyCodec::new();
    assert_ne!(codec.ha_seqno_key(), codec.system_counter_key());
}

#[test]
fn a_stamp_behind_its_shipped_frontier_is_refused() {
    let stamp = HaStamp::new(
        WriterEpoch::new(1).unwrap(),
        ShipSeqno::new(5),
        SoloHistory::never(),
        ShipSeqno::new(4),
    );
    assert_eq!(stamp, Err(HaStampError::AppliedBehindShipped));
    assert!(WriterEpoch::new(0).is_none());
    assert!(ShipSeqno::new(0).is_none());
    assert!(SoloHistory::from_parts(1, false).is_none());
    let history = SoloHistory::from_parts(2, true).unwrap();
    assert_eq!(history.commits_since_last_ship(), 2);
    assert!(history.ran_solo());
}

#[test]
fn last_orphan_sweep_key_is_distinct_system_key() {
    let codec = KeyCodec::new();
    let k = codec.last_orphan_sweep_key();
    assert!(k.starts_with(&META_DOMAIN));
    assert_eq!(
        k[codec.kind_offset(KeyPrefix::System)],
        u8::from(KeyPrefix::System)
    );
    // Must not alias any other System-subtyped key.
    for other in [
        codec.system_counter_key(),
        codec.ha_seqno_key(),
        codec.lineage_key(),
        codec.taint_key(),
    ] {
        assert_ne!(k, other);
    }
}

#[test]
fn test_invalid_key_parsing() {
    let codec = KeyCodec::new();
    assert!(matches!(codec.parse_key(&[]), ParsedKey::Unknown));
    assert!(matches!(codec.parse_key(&[0xFF]), ParsedKey::Unknown));
    assert!(matches!(
        codec.parse_key(&[u8::from(KeyPrefix::Inode)]),
        ParsedKey::Unknown
    ));
    let inode_key = codec.inode_key(1);
    assert!(matches!(codec.parse_key(&inode_key), ParsedKey::Unknown));
}

#[test]
fn extent_key_roundtrips_and_orders() {
    let codec = KeyCodec::new();
    for a0 in SAMPLES {
        for a1 in SAMPLES {
            let ka = codec.extent_key(a0, a1);
            assert_eq!(codec.parse_extent_key(&ka), Some(a1));
            for b0 in SAMPLES {
                for b1 in SAMPLES {
                    let kb = codec.extent_key(b0, b1);
                    assert_eq!(ka.as_ref().cmp(kb.as_ref()), (a0, a1).cmp(&(b0, b1)));
                }
            }
        }
    }
}

#[test]
fn tombstone_key_roundtrips_and_orders() {
    let codec = KeyCodec::new();
    for a0 in SAMPLES {
        for a1 in SAMPLES {
            let ka = codec.tombstone_key(a0, a1);
            match codec.parse_key(&ka) {
                ParsedKey::Tombstone { inode_id } => assert_eq!(inode_id, a1),
                other => panic!("expected Tombstone, got {:?}", other),
            }
            for b0 in SAMPLES {
                for b1 in SAMPLES {
                    let kb = codec.tombstone_key(b0, b1);
                    // Ordered by (timestamp, inode_id): GC scans tombstones in time order.
                    assert_eq!(ka.as_ref().cmp(kb.as_ref()), (a0, a1).cmp(&(b0, b1)));
                }
            }
        }
    }
}

#[test]
fn dir_scan_key_roundtrips_and_orders() {
    let codec = KeyCodec::new();
    for a0 in SAMPLES {
        for a1 in SAMPLES {
            let ka = codec.dir_scan_key(a0, a1);
            match codec.parse_key(&ka) {
                ParsedKey::DirScan { cookie } => assert_eq!(cookie, a1),
                other => panic!("expected DirScan, got {:?}", other),
            }
            for b0 in SAMPLES {
                for b1 in SAMPLES {
                    let kb = codec.dir_scan_key(b0, b1);
                    assert_eq!(ka.as_ref().cmp(kb.as_ref()), (a0, a1).cmp(&(b0, b1)));
                }
            }
        }
    }
}

#[test]
fn dir_scan_resume_is_next_cookie() {
    let codec = KeyCodec::new();
    for dir in SAMPLES {
        for cookie in SAMPLES {
            if cookie == u64::MAX {
                continue;
            }
            let resume = codec.dir_scan_resume_key(dir, cookie);
            assert_eq!(&resume, &codec.dir_scan_key(dir, cookie + 1));
            assert!(resume.as_ref() > codec.dir_scan_key(dir, cookie).as_ref());
        }
    }
}

#[test]
fn orphan_key_roundtrips() {
    let codec = KeyCodec::new();
    for ino in SAMPLES {
        match codec.parse_key(&codec.orphan_key(ino)) {
            ParsedKey::Orphan { inode_id } => assert_eq!(inode_id, ino),
            other => panic!("expected Orphan, got {:?}", other),
        }
    }
}

#[test]
fn non_extent_keys_never_parse_as_extent() {
    let codec = KeyCodec::new();
    for ino in SAMPLES {
        for x in SAMPLES {
            for length in 0..40usize {
                let name = vec![0xFEu8; length];
                assert_eq!(codec.parse_extent_key(&codec.inode_key(ino)), None);
                assert_eq!(codec.parse_extent_key(&codec.tombstone_key(x, ino)), None);
                assert_eq!(codec.parse_extent_key(&codec.orphan_key(ino)), None);
                assert_eq!(codec.parse_extent_key(&codec.dir_scan_key(ino, x)), None);
                assert_eq!(
                    codec.parse_extent_key(&codec.dir_entry_key(ino, &name)),
                    None
                );
            }
        }
    }
}

#[test]
fn value_codecs_roundtrip() {
    for x in SAMPLES {
        if x == 0 {
            continue;
        }
        for y in SAMPLES {
            assert_eq!(KeyCodec::decode_u64(&KeyCodec::encode_u64(x)), Some(x));
            assert_eq!(
                KeyCodec::decode_counter(&KeyCodec::encode_counter(x)).unwrap(),
                x
            );
            assert_eq!(
                KeyCodec::decode_tombstone_size(&KeyCodec::encode_tombstone_size(x)).unwrap(),
                x
            );
            let last_shipped = ShipSeqno::new(y);
            let stamp = HaStamp::new(
                WriterEpoch::new(x).unwrap(),
                last_shipped,
                SoloHistory::ever(x),
                last_shipped,
            )
            .unwrap();
            assert_eq!(
                KeyCodec::decode_ha_stamp(&KeyCodec::encode_ha_stamp(&stamp)),
                Some(stamp)
            );
            assert_eq!(
                KeyCodec::decode_dir_entry(&KeyCodec::encode_dir_entry(x, y)).unwrap(),
                (x, y)
            );
        }
    }
}

#[test]
fn prefix_range_isolates_extents() {
    let codec = KeyCodec::new();
    let (start, end) = codec.prefix_range(KeyPrefix::Extent);
    for ino in SAMPLES {
        for idx in SAMPLES {
            let extent = codec.extent_key(ino, idx);
            assert!(extent.as_ref() >= start.as_ref() && extent.as_ref() < end.as_ref());

            let meta = codec.tombstone_key(idx, ino);
            assert!(
                !(meta.as_ref() >= start.as_ref() && meta.as_ref() < end.as_ref()),
                "a metadata key leaked into the extent prefix range"
            );
        }
    }
}

#[test]
fn kind_bytes_roundtrip_and_have_names() {
    let kinds = [
        (KeyPrefix::Inode, "INODE"),
        (KeyPrefix::Extent, "EXTENT"),
        (KeyPrefix::DirEntry, "DIR_ENTRY"),
        (KeyPrefix::DirScan, "DIR_SCAN"),
        (KeyPrefix::Tombstone, "TOMBSTONE"),
        (KeyPrefix::Orphan, "ORPHAN"),
        (KeyPrefix::Stats, "STATS"),
        (KeyPrefix::System, "SYSTEM"),
        (KeyPrefix::DirCookie, "DIR_COOKIE"),
        (KeyPrefix::SegCount, "SEGCOUNT"),
        (KeyPrefix::WorkspaceOperation, "WORKSPACE_OPERATION"),
    ];
    for (kind, name) in kinds {
        assert_eq!(KeyPrefix::try_from(u8::from(kind)), Ok(kind));
        assert_eq!(kind.as_str(), name);
    }
    assert_eq!(KeyPrefix::try_from(0x00), Err(()));
}

#[test]
fn authority_keys_name_their_workspace() {
    let codec = KeyCodec::new();
    let key = codec.export_authority_key("workspace-a");
    assert!(key.starts_with(&codec.export_authority_prefix()));
    assert_eq!(
        codec.parse_export_authority_workspace(&key),
        Some("workspace-a")
    );
    let mut long = key.to_vec();
    long.push(0);
    assert_eq!(codec.parse_export_authority_workspace(&long), None);
    let mut broken = key.to_vec();
    let last = broken.len() - 1;
    broken[last] = 0xFF;
    assert_eq!(codec.parse_export_authority_workspace(&broken), None);
    assert!(codec
        .export_reverse_name_key(1, b"disk")
        .starts_with(&codec.export_reverse_name_prefix()));
    assert!(codec
        .export_reverse_inode_key(1)
        .starts_with(&codec.export_reverse_inode_prefix()));
    assert!(!key.starts_with(&codec.legacy_export_v1_prefix()));
}

#[test]
fn outcome_keys_differ_with_every_part_of_the_identity() {
    let codec = KeyCodec::new();
    let base = || ExportMutationKey {
        workspace_id: "workspace-a",
        actor: "actor-a",
        actor_generation: 1,
        placement_epoch: 2,
        session_id: "session-a",
        server_boot_id: "boot-a",
        operation_id: [7; 32],
    };
    let key = codec.export_mutation_outcome_key(&base());
    assert_eq!(key, codec.export_mutation_outcome_key(&base()));
    let mut other = base();
    other.workspace_id = "workspace-b";
    assert_ne!(key, codec.export_mutation_outcome_key(&other));
    let mut other = base();
    other.placement_epoch = 3;
    assert_ne!(key, codec.export_mutation_outcome_key(&other));
    let mut other = base();
    other.operation_id = [8; 32];
    assert_ne!(key, codec.export_mutation_outcome_key(&other));
}

#[test]
fn binding_metadata_keys_are_recognized() {
    let codec = KeyCodec::new();
    assert!(matches!(
        codec.parse_export_binding_metadata_key(&codec.inode_key(5)),
        Some(ExportBindingMetadataKey::Inode(5))
    ));
    match codec.parse_export_binding_metadata_key(&codec.dir_entry_key(3, b"disk")) {
        Some(ExportBindingMetadataKey::DirectoryEntry {
            directory_inode,
            name,
        }) => {
            assert_eq!(directory_inode, 3);
            assert_eq!(&name[..], b"disk");
        }
        _ => panic!("a directory entry is part of a binding"),
    }
    assert!(codec
        .parse_export_binding_metadata_key(&codec.orphan_key(5))
        .is_none());
}
