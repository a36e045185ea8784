use bytes::Bytes;
use sha2::Digest;
use sha2::Sha256;
use zerofs::fault_store::FaultControls;
use zerofs::fs::errors::FsError;
use zerofs::fs::export_authority::records::open_reverse_binding;
use zerofs::fs::export_authority::records::reverse_binding_keys;
use zerofs::fs::export_authority::types::ExportIdentity;
use zerofs::fs::key_codec::is_reserved_mutation_key;
use zerofs::fs::key_codec::KeyCodec;
use zerofs::fs::workspace_genesis::codec::content_object_key;
use zerofs::fs::workspace_genesis::codec::decode_record;
use zerofs::fs::workspace_genesis::codec::encode_record;
use zerofs::fs::workspace_genesis::codec::take_bytes;
use zerofs::fs::workspace_genesis::codec::validate_record;
use zerofs::fs::workspace_genesis::run::GenesisAction;
use zerofs::fs::workspace_genesis::run::GenesisEvent;
use zerofs::fs::workspace_genesis::run::GenesisRun;
use zerofs::fs::workspace_genesis::store::check_object_readback;
use zerofs::fs::workspace_genesis::store::encoded_reverse_bindings;
use zerofs::fs::workspace_genesis::store::reverse_binding;
use zerofs::fs::workspace_genesis::store::validate_activation_genesis;
use zerofs::fs::workspace_genesis::store::VerifiedGenesisInput;
use zerofs::fs::workspace_genesis::store::VerifiedGenesisTerminal;
use zerofs::fs::workspace_genesis::store::WorkspaceGenesisStore;
use zerofs::fs::workspace_genesis::types::ContentDigest;
use zerofs::fs::workspace_genesis::types::GenesisCommand;
use zerofs::fs::workspace_genesis::types::GenesisDomainRecord;
use zerofs::fs::workspace_genesis::types::GenesisDurabilityReceipt;
use zerofs::fs::workspace_genesis::types::GenesisError;
use zerofs::fs::workspace_genesis::types::GenesisMaterializeResult;
use zerofs::fs::workspace_operation::ledger::LedgerStep;
use zerofs::fs::workspace_operation::ledger::WorkspaceOperationLedger;
use zerofs::fs::workspace_operation::types::CanonicalRequestDigest;
use zerofs::fs::workspace_operation::types::WorkspaceOperationError;
use zerofs::fs::workspace_operation::types::WorkspaceOperationKey;
use zerofs::fs::workspace_operation::types::WorkspaceOperationRecord;
use zerofs::fs::workspace_operation::types::WorkspaceOperationState;

fn command(workspace: &str, request: &str, root: &'static [u8]) -> GenesisCommand {
    let root_bytes = Bytes::from_static(root);
    GenesisCommand {
        operation: WorkspaceOperationKey::new(workspace, 101, request),
        request_digest: CanonicalRequestDigest::new(Sha256::digest(request).into()),
        actor: format!("tenants/t/actors/{workspace}"),
        actor_generation: 7,
        export_name: format!("{workspace}.img").into_bytes(),
        advertised_size: 4096,
        root_digest: ContentDigest::new(Sha256::digest(&root_bytes).into()),
        root_bytes,
    }
}

fn verified(workspace: &str, request: &str, root: &'static [u8]) -> VerifiedGenesisInput {
    VerifiedGenesisInput::for_test(command(workspace, request, root)).unwrap()
}

fn store() -> WorkspaceGenesisStore {
    WorkspaceGenesisStore::new(WorkspaceOperationLedger::new())
}

/// Begins the operation and reads the root object back.
fn materialized(input: VerifiedGenesisInput) -> GenesisDomainRecord {
    let operation = match store().materialize(&input, None).unwrap() {
        LedgerStep::Write { record, .. } => record,
        _ => panic!("a new operation is recorded"),
    };
    assert_eq!(operation.state, WorkspaceOperationState::Pending);
    let root = input.command().root_bytes.clone();
    let key = content_object_key(input.command().root_digest);
    let run = GenesisRun::start(input);
    assert!(matches!(run.action(), GenesisAction::Begin));
    let run = run.advance(GenesisEvent::Begun(Ok(operation)));
    match run.action() {
        GenesisAction::PutObject { object_key } => assert_eq!(object_key, key),
        _ => panic!("the operation is pending"),
    }
    let run = run.advance(GenesisEvent::ReadBack(Some(root)));
    let mut record = match run.action() {
        GenesisAction::Commit(request) => request.record,
        _ => panic!("the object was read back"),
    };
    record.export.nbd_directory_inode = 1;
    record.export.inode = 2;
    record
}

#[test]
fn materializes_sparse_export_record_and_reverse_graph_atomically() {
    let input = verified("workspace-a", "request-a", b"root-a");
    let record = materialized(verified("workspace-a", "request-a", b"root-a"));
    assert_eq!(record.export.name, b"workspace-a.img");
    assert_eq!(record.export.advertised_size, 4096);
    let store = store();
    let key = store.record_key("workspace-a").unwrap();
    let row = encode_record(&key, &record).unwrap();
    assert_eq!(
        store
            .lookup_record_durable("workspace-a", Some(&row))
            .unwrap(),
        Some(record.clone())
    );
    let binding = reverse_binding(&record);
    let (name_key, inode_key) = reverse_binding_keys(&binding);
    let (by_name, by_inode) = encoded_reverse_bindings(&record, b"binding").unwrap();
    assert_eq!(by_name.0, name_key);
    assert_eq!(by_inode.0, inode_key);
    assert_eq!(
        open_reverse_binding(&by_name.1, &name_key).unwrap(),
        b"binding"
    );
    assert_eq!(
        open_reverse_binding(&by_inode.1, &inode_key).unwrap(),
        b"binding"
    );

    let stored = match store.materialize(&input, None).unwrap() {
        LedgerStep::Write { value, .. } => value,
        _ => panic!("a new operation is recorded"),
    };
    let terminal =
        VerifiedGenesisTerminal::for_test(Bytes::from_static(b"signed-receipt")).unwrap();
    match store.complete(&input, terminal, Some(&stored)).unwrap() {
        LedgerStep::Write { record, .. } => assert_eq!(
            record.state,
            WorkspaceOperationState::Succeeded(Bytes::from_static(b"signed-receipt"))
        ),
        _ => panic!("a pending operation is completed"),
    }
}

#[test]
fn unknown_genesis_reply_converges_without_a_second_export() {
    let store = store();
    let input = || verified("workspace-a", "request-a", b"root-a");
    let key = store.record_key("workspace-a").unwrap();
    let stored = match store.materialize(&input(), None).unwrap() {
        LedgerStep::Write { value, .. } => value,
        _ => panic!("a new operation is recorded"),
    };
    let commit = || {
        let operation = match store.materialize(&input(), Some(&stored)).unwrap() {
            LedgerStep::Existing(record) => record,
            _ => panic!("the operation is recorded once"),
        };
        GenesisRun::start(input())
            .advance(GenesisEvent::Begun(Ok(operation)))
            .advance(GenesisEvent::ReadBack(Some(Bytes::from_static(b"root-a"))))
    };
    let planned = |run: &GenesisRun| match run.action() {
        GenesisAction::Commit(request) => request.record,
        _ => panic!("the object was read back"),
    };

    // The writer commits, and its reply is lost.
    let first = commit();
    let mut written = planned(&first);
    written.export.nbd_directory_inode = 1;
    written.export.inode = 2;
    let row = encode_record(&key, &written).unwrap();
    let first = first.advance(GenesisEvent::Committed(Err(
        GenesisError::CommitOutcomeUnknown,
    )));
    assert_eq!(
        first.into_result(),
        Some(Err(GenesisError::CommitOutcomeUnknown))
    );
    let durable = store
        .lookup_record_durable("workspace-a", Some(&row))
        .unwrap()
        .unwrap();

    // The replay plans the same export, for which the writer finds its record.
    let replay = commit();
    assert_eq!(planned(&replay), planned(&commit()));
    assert_eq!(planned(&replay).export.name, durable.export.name);
    let replay = replay.advance(GenesisEvent::Committed(Ok(GenesisDurabilityReceipt {
        record: durable.clone(),
        writer_epoch: 3,
        durable_seq: 9,
    })));
    match replay.into_result() {
        Some(Ok(GenesisMaterializeResult::Materialized(replay))) => {
            assert_eq!(replay.record, durable)
        }
        _ => panic!("pending operation must replay materialization"),
    }
}

#[test]
fn a_field_is_taken_as_it_was_pushed() {
    let input = b"\x00\x03abcrest";
    assert_eq!(take_bytes(input, 3), Ok((&b"abc"[..], &b"rest"[..])));
    assert_eq!(
        take_bytes(input, usize::MAX),
        Ok((&b"abc"[..], &b"rest"[..]))
    );
    assert_eq!(take_bytes(input, 2), Err(GenesisError::Corrupt));
    assert_eq!(take_bytes(b"\x00\x03ab", 3), Err(GenesisError::Corrupt));
    assert_eq!(take_bytes(b"\x00", 3), Err(GenesisError::Corrupt));
    assert_eq!(take_bytes(b"\x00\x00", 0), Ok((&b""[..], &b""[..])));
}

#[test]
fn a_terminal_operation_is_not_materialized_again() {
    let input = verified("workspace-a", "request-a", b"root-a");
    let record = WorkspaceOperationRecord {
        request_digest: input.command().request_digest,
        state: WorkspaceOperationState::Failed(Bytes::from_static(b"negative")),
    };
    let run = GenesisRun::start(input).advance(GenesisEvent::Begun(Ok(record.clone())));
    assert!(matches!(run.action(), GenesisAction::Finish));
    assert_eq!(
        run.into_result(),
        Some(Ok(GenesisMaterializeResult::AlreadyTerminal(record)))
    );
}

#[test]
fn unavailable_exact_get_keeps_physical_genesis_absent() {
    let run = putting().advance(GenesisEvent::ReadBack(None));
    assert!(matches!(run.action(), GenesisAction::Finish));
    assert_eq!(
        run.into_result(),
        Some(Err(GenesisError::ObjectOutcomeUnknown))
    );
    assert_eq!(store().lookup_record_durable("workspace-a", None), Ok(None));
}

/// A genesis that waits for its root object.
fn putting() -> GenesisRun {
    let input = verified("workspace-a", "request-a", b"root-a");
    let record = WorkspaceOperationRecord {
        request_digest: input.command().request_digest,
        state: WorkspaceOperationState::Pending,
    };
    GenesisRun::start(input).advance(GenesisEvent::Begun(Ok(record)))
}

#[test]
fn only_the_exact_object_leads_to_a_commit() {
    let run = putting().advance(GenesisEvent::ReadBack(Some(Bytes::from_static(b"root-b"))));
    assert_eq!(run.into_result(), Some(Err(GenesisError::Conflict)));
    let run = putting().advance(GenesisEvent::Committed(Err(GenesisError::Storage)));
    assert!(matches!(run.action(), GenesisAction::PutObject { .. }));
    let committing =
        || putting().advance(GenesisEvent::ReadBack(Some(Bytes::from_static(b"root-a"))));
    let run = committing().advance(GenesisEvent::Committed(Err(
        GenesisError::CommitOutcomeUnknown,
    )));
    assert_eq!(
        run.into_result(),
        Some(Err(GenesisError::CommitOutcomeUnknown))
    );
    let receipt = || GenesisDurabilityReceipt {
        record: materialized(verified("workspace-a", "request-a", b"root-a")),
        writer_epoch: 3,
        durable_seq: 9,
    };
    let run = committing().advance(GenesisEvent::Committed(Ok(receipt())));
    assert_eq!(
        run.into_result(),
        Some(Ok(GenesisMaterializeResult::Materialized(receipt())))
    );
    let input = verified("workspace-a", "request-a", b"root-a");
    let run = GenesisRun::start(input).advance(GenesisEvent::Begun(Err(GenesisError::Conflict)));
    assert_eq!(run.into_result(), Some(Err(GenesisError::Conflict)));
}

#[test]
fn conditional_create_response_loss_converges_by_exact_get() {
    let mut faults = FaultControls::new();
    faults.fail_puts_after_apply(1);
    let run = putting();
    let key = match run.action() {
        GenesisAction::PutObject { object_key } => object_key,
        _ => panic!("the object is put first"),
    };
    let stored = run.input().command().root_bytes.clone();
    let manifest = faults.begin_put(&key, stored.len()).unwrap();
    assert!(faults.finish_put(manifest).is_err());
    assert!(faults.begin_get().is_ok());
    let run = run.advance(GenesisEvent::ReadBack(Some(stored)));
    assert!(matches!(run.action(), GenesisAction::Commit(_)));
    assert_eq!(faults.put_count(), 1);
    assert_eq!(faults.get_count(), 1);
}

#[test]
fn invalid_physical_precondition_leaves_no_genesis_domain_record() {
    let run = putting()
        .advance(GenesisEvent::ReadBack(Some(Bytes::from_static(b"root-a"))))
        .advance(GenesisEvent::Committed(Err(GenesisError::Invalid)));
    assert_eq!(run.into_result(), Some(Err(GenesisError::Invalid)));
    assert_eq!(store().lookup_record_durable("workspace-a", None), Ok(None));
}

#[test]
fn another_object_under_the_key_is_a_conflict() {
    let digest: [u8; 32] = Sha256::digest(b"root-a").into();
    assert_eq!(check_object_readback(&digest, b"root-a", Some(b"root-a")), Ok(()));
    assert_eq!(
        check_object_readback(&digest, b"root-a", Some(b"root-b")),
        Err(GenesisError::Conflict)
    );
    assert_eq!(
        check_object_readback(&digest, b"root-a", Some(b"root-")),
        Err(GenesisError::Conflict)
    );
    assert_eq!(
        check_object_readback(&[0; 32], b"root-a", Some(b"root-a")),
        Err(GenesisError::Conflict)
    );
}

#[test]
fn reserved_genesis_namespace_rejects_raw_transactions() {
    let key = KeyCodec::new().workspace_genesis_key("workspace-a");
    assert!(is_reserved_mutation_key(&key));
}

#[test]
fn activation_gate_requires_exact_genesis_binding() {
    let record = materialized(verified("workspace-a", "request-a", b"root-a"));
    let check = |workspace: &str, actor: &str, generation: u64, export: &ExportIdentity| {
        validate_activation_genesis(&record, workspace, actor, generation, export)
    };
    assert_eq!(
        check("workspace-a", &record.actor, 7, &record.export),
        Ok(())
    );
    let mut other = record.export.clone();
    other.inode += 1;
    for refused in [
        check("workspace-missing", &record.actor, 7, &record.export),
        check("workspace-a", "actor-b", 7, &record.export),
        check("workspace-a", &record.actor, 8, &record.export),
        check("workspace-a", &record.actor, 7, &other),
    ] {
        assert_eq!(refused, Err(GenesisError::Conflict));
    }
}

#[test]
fn explicit_codec_rejects_cross_key_copy_and_trailing_bytes() {
    let mut record = GenesisDomainRecord {
        workspace_id: "workspace-a".into(),
        actor: "actor-a".into(),
        actor_generation: 1,
        request_digest: CanonicalRequestDigest::new([1; 32]),
        root_digest: ContentDigest::new([2; 32]),
        root_object_key: content_object_key(ContentDigest::new([2; 32])),
        export: ExportIdentity {
            nbd_directory_inode: 1,
            name: b"disk-a".to_vec(),
            inode: 2,
            advertised_size: 4096,
        },
    };
    let key = KeyCodec::new().workspace_genesis_key("workspace-a");
    let encoded = encode_record(&key, &record).unwrap();
    assert_eq!(decode_record(&key, &encoded).unwrap(), record);
    let other = KeyCodec::new().workspace_genesis_key("workspace-b");
    assert_eq!(decode_record(&other, &encoded), Err(GenesisError::Corrupt));
    let mut trailing = encoded.to_vec();
    trailing.push(0);
    assert_eq!(decode_record(&key, &trailing), Err(GenesisError::Corrupt));
    record.root_object_key.push('x');
    assert_eq!(encode_record(&key, &record), Err(GenesisError::Invalid));
}

#[test]
fn every_genesis_record_byte_is_covered_by_the_checksum() {
    let record = materialized(verified("workspace-a", "request-a", b"root-a"));
    let key = KeyCodec::new().workspace_genesis_key("workspace-a");
    let encoded = encode_record(&key, &record).unwrap();
    for index in 0..encoded.len() {
        let mut mutated = encoded.to_vec();
        mutated[index] ^= 1;
        assert_eq!(decode_record(&key, &mutated), Err(GenesisError::Corrupt));
    }
    assert_eq!(decode_record(&key, &encoded), Ok(record));
}

#[test]
fn objects_are_named_by_their_digest() {
    let mut digest = [0xab; 32];
    digest[31] = 0x0f;
    let hex = format!("{}0f", "ab".repeat(31));
    assert_eq!(
        content_object_key(ContentDigest::new(digest)),
        format!("rhizome/workspace-genesis/sha256/{hex}")
    );
}

#[test]
fn incomplete_commands_are_invalid() {
    let valid = || command("workspace-a", "request-a", b"root-a");
    let mut cases = Vec::new();
    let mut case = valid();
    case.operation.workspace_id = String::new();
    cases.push(case);
    let mut case = valid();
    case.operation.request_id = "x".repeat(1025);
    cases.push(case);
    let mut case = valid();
    case.operation.kind = 0;
    cases.push(case);
    let mut case = valid();
    case.actor = "nul\0".into();
    cases.push(case);
    let mut case = valid();
    case.actor_generation = 0;
    cases.push(case);
    for name in [vec![], b".".to_vec(), b"..".to_vec(), vec![b'x'; 256]] {
        let mut case = valid();
        case.export_name = name;
        cases.push(case);
    }
    for size in [0, 511, 4097] {
        let mut case = valid();
        case.advertised_size = size;
        cases.push(case);
    }
    let mut case = valid();
    case.root_bytes = Bytes::from_static(b"root-b");
    cases.push(case);
    let mut case = valid();
    case.root_bytes = Bytes::new();
    case.root_digest = ContentDigest::new(Sha256::digest(b"").into());
    cases.push(case);
    for case in cases {
        assert!(matches!(
            VerifiedGenesisInput::for_test(case),
            Err(GenesisError::Invalid)
        ));
    }
    assert!(matches!(
        VerifiedGenesisTerminal::for_test(Bytes::new()),
        Err(GenesisError::Invalid)
    ));
}

#[test]
fn a_record_without_inodes_is_not_stored() {
    let mut record = materialized(verified("workspace-a", "request-a", b"root-a"));
    assert_eq!(validate_record(&record), Ok(()));
    record.export.inode = 0;
    assert_eq!(validate_record(&record), Err(GenesisError::Invalid));
    let store = store();
    assert_eq!(store.record_key(""), Err(GenesisError::Invalid));
    assert_eq!(
        store.lookup_record_durable("", None),
        Err(GenesisError::Invalid)
    );
}

#[test]
fn ledger_failures_are_genesis_failures() {
    assert_eq!(
        GenesisError::from(WorkspaceOperationError::CommitOutcomeUnknown),
        GenesisError::CommitOutcomeUnknown
    );
    assert_eq!(
        GenesisError::from(WorkspaceOperationError::RequestConflict),
        GenesisError::Conflict
    );
    assert_eq!(
        GenesisError::from(WorkspaceOperationError::CorruptRecord("x")),
        GenesisError::Corrupt
    );
    assert_eq!(
        GenesisError::from(WorkspaceOperationError::Storage(FsError::IoError)),
        GenesisError::Storage
    );
    let input = verified("workspace-a", "request-a", b"root-a");
    assert!(matches!(
        store().materialize(&input, Some(b"corrupt")),
        Err(GenesisError::Corrupt)
    ));
}
