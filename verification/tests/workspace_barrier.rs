use bytes::Bytes;
use sha2::Digest;
use sha2::Sha256;
use std::collections::HashMap;
use zerofs::fs::errors::FsError;
use zerofs::fs::export_authority::shard::FileFacts;
use zerofs::fs::export_authority::types::AuthorityVersion;
use zerofs::fs::export_authority::types::ExportAuthorityRecord;
use zerofs::fs::export_authority::types::ExportIdentity;
use zerofs::fs::export_authority::types::ExportSessionState;
use zerofs::fs::export_authority::types::MutationFenceToken;
use zerofs::fs::key_codec::is_reserved_mutation_key;
use zerofs::fs::key_codec::KeyCodec;
use zerofs::fs::workspace_barrier::digests::claim_matches;
use zerofs::fs::workspace_barrier::digests::effect_claim;
use zerofs::fs::workspace_barrier::digests::head_digest;
use zerofs::fs::workspace_barrier::digests::initial_head;
use zerofs::fs::workspace_barrier::digests::is_canonical_v4;
use zerofs::fs::workspace_barrier::digests::new_canonical_v4;
use zerofs::fs::workspace_barrier::digests::next_head;
use zerofs::fs::workspace_barrier::digests::receipt_digest;
use zerofs::fs::workspace_barrier::fault::check_fault_run;
use zerofs::fs::workspace_barrier::fault::claim_field;
use zerofs::fs::workspace_barrier::fault::fault_handshake;
use zerofs::fs::workspace_barrier::fault::fault_run_root;
use zerofs::fs::workspace_barrier::fault::paths_agree;
use zerofs::fs::workspace_barrier::fault::CrashReport;
use zerofs::fs::workspace_barrier::fault::FaultRun;
use zerofs::fs::workspace_barrier::graph::GraphRead;
use zerofs::fs::workspace_barrier::graph::GraphRow;
use zerofs::fs::workspace_barrier::graph::HeadGraphWalk;
use zerofs::fs::workspace_barrier::lookup::LookupAction;
use zerofs::fs::workspace_barrier::lookup::LookupEvent;
use zerofs::fs::workspace_barrier::lookup::ReceiptLookup;
use zerofs::fs::workspace_barrier::model::check_barrier_codecs;
use zerofs::fs::workspace_barrier::model::dst_workspace_barrier_codec_model;
use zerofs::fs::workspace_barrier::records::encode_barrier_record;
use zerofs::fs::workspace_barrier::records::encode_head_record;
use zerofs::fs::workspace_barrier::records::open_barrier_record;
use zerofs::fs::workspace_barrier::records::open_head_record;
use zerofs::fs::workspace_barrier::rules::authority_matches;
use zerofs::fs::workspace_barrier::rules::command_from_receipt;
use zerofs::fs::workspace_barrier::rules::ensure_receipt_matches_command;
use zerofs::fs::workspace_barrier::rules::genesis_matches;
use zerofs::fs::workspace_barrier::rules::validate_command;
use zerofs::fs::workspace_barrier::rules::validate_head_record;
use zerofs::fs::workspace_barrier::rules::validate_receipt;
use zerofs::fs::workspace_barrier::run::BarrierCandidate;
use zerofs::fs::workspace_barrier::run::BarrierRun;
use zerofs::fs::workspace_barrier::run::RunAction;
use zerofs::fs::workspace_barrier::run::RunEvent;
use zerofs::fs::workspace_barrier::store::VerifiedBarrierInput;
use zerofs::fs::workspace_barrier::store::VerifiedBarrierTerminal;
use zerofs::fs::workspace_barrier::store::WorkspaceBarrierStore;
use zerofs::fs::workspace_barrier::types::BarrierCommand;
use zerofs::fs::workspace_barrier::types::BarrierDurabilityReceipt;
use zerofs::fs::workspace_barrier::types::BarrierError;
use zerofs::fs::workspace_barrier::types::BarrierGenesis;
use zerofs::fs::workspace_barrier::types::BarrierMaterializeResult;
use zerofs::fs::workspace_barrier::types::HeadDigest;
use zerofs::fs::workspace_barrier::types::WorkspaceHeadRecord;
use zerofs::fs::workspace_barrier::types::CREATE_BARRIER_KIND;
use zerofs::fs::workspace_genesis::types::ContentDigest;
use zerofs::fs::workspace_operation::codec::encode_key;
use zerofs::fs::workspace_operation::ledger::LedgerStep;
use zerofs::fs::workspace_operation::ledger::WorkspaceOperationLedger;
use zerofs::fs::workspace_operation::types::CanonicalRequestDigest;
use zerofs::fs::workspace_operation::types::EffectDispatchClaim;
use zerofs::fs::workspace_operation::types::WorkspaceOperationError;
use zerofs::fs::workspace_operation::types::WorkspaceOperationKey;
use zerofs::fs::workspace_operation::types::WorkspaceOperationLookup;
use zerofs::fs::workspace_operation::types::WorkspaceOperationRecord;
use zerofs::fs::workspace_operation::types::WorkspaceOperationState;

const BOOT: &str = "server-boot-a";

fn genesis() -> BarrierGenesis {
    BarrierGenesis {
        workspace_id: "workspace-a".into(),
        actor: "tenants/t/actors/a".into(),
        actor_generation: 7,
        home_cell: "cells/c".into(),
        object_lineage: "lineage-a".into(),
        storage_shard_id: "test-shard-a".into(),
        storage_routing_revision: 1,
        root_digest: ContentDigest::new(Sha256::digest(b"barrier-root").into()),
        export: ExportIdentity {
            nbd_directory_inode: 1,
            name: b"workspace-a.img".to_vec(),
            inode: 2,
            advertised_size: 4096,
        },
    }
}

fn token() -> MutationFenceToken {
    MutationFenceToken {
        workspace_id: "workspace-a".into(),
        export: genesis().export,
        authority: AuthorityVersion {
            actor: "tenants/t/actors/a".into(),
            actor_generation: 7,
            home_cell: "cells/c".into(),
            home_revision: 1,
            authority_epoch: 1,
            placement_epoch: 1,
            assignment_revision: 1,
        },
        session_id: "session-a".into(),
        capability_id: "capability-a".into(),
        expires_at_unix_millis: u64::MAX,
        node_incarnation_id: "node-a".into(),
        runtime_id: "runtime-a".into(),
        server_boot_id: BOOT.into(),
    }
}

fn authority_record(committed_through_sequence: u64) -> ExportAuthorityRecord {
    let token = token();
    ExportAuthorityRecord {
        workspace_id: token.workspace_id,
        export: token.export,
        authority: token.authority,
        rejected_through_placement_epoch: 0,
        binding_initialized: true,
        active_session: Some(ExportSessionState {
            session_id: token.session_id,
            capability_id: token.capability_id,
            expires_at_unix_millis: token.expires_at_unix_millis,
            node_incarnation_id: token.node_incarnation_id,
            runtime_id: token.runtime_id,
            server_boot_id: token.server_boot_id,
            committed_through_sequence,
        }),
    }
}

fn command(request_id: &str, expected_head_digest: HeadDigest) -> BarrierCommand {
    let token = token();
    BarrierCommand {
        operation: WorkspaceOperationKey::new(&token.workspace_id, CREATE_BARRIER_KIND, request_id),
        request_digest: CanonicalRequestDigest::new(Sha256::digest(request_id).into()),
        token,
        expected_head_digest,
        storage_shard_id: "test-shard-a".into(),
        storage_routing_revision: 1,
    }
}

/// The rows of one workspace, and the steps of the store on them.
struct Workspace {
    store: WorkspaceBarrierStore,
    genesis: BarrierGenesis,
    ledger: HashMap<Vec<u8>, Bytes>,
    heads: HashMap<Vec<u8>, WorkspaceHeadRecord>,
    receipts: HashMap<Vec<u8>, BarrierDurabilityReceipt>,
    cuts: u64,
    /// Through which mutation the session has committed.
    sequence: u64,
    lose_claim_reply: bool,
    lose_dispatch_reply: bool,
    fail_before_publish: bool,
}

impl Workspace {
    fn new() -> Self {
        let genesis = genesis();
        let initial = initial_head(&genesis);
        let codec = KeyCodec::new();
        let mut heads = HashMap::new();
        heads.insert(
            codec.workspace_head_key("workspace-a").to_vec(),
            initial.clone(),
        );
        heads.insert(
            codec.workspace_head_version_key("workspace-a", 1).to_vec(),
            initial,
        );
        Workspace {
            store: WorkspaceBarrierStore::new(WorkspaceOperationLedger::new()),
            genesis,
            ledger: HashMap::new(),
            heads,
            receipts: HashMap::new(),
            cuts: 0,
            sequence: 0,
            lose_claim_reply: false,
            lose_dispatch_reply: false,
            fail_before_publish: false,
        }
    }

    fn raw(&self, key: &WorkspaceOperationKey) -> Option<Bytes> {
        self.ledger.get(&encode_key(key).unwrap().to_vec()).cloned()
    }

    fn perform(&mut self, step: LedgerStep) -> Option<WorkspaceOperationRecord> {
        match step {
            LedgerStep::Unknown => None,
            LedgerStep::Existing(record) => Some(record),
            LedgerStep::Write { key, value, record } => {
                self.ledger.insert(key.to_vec(), value);
                Some(record)
            }
        }
    }

    fn walk(&self, allow: bool) -> Result<WorkspaceHeadRecord, BarrierError> {
        let mut walk = HeadGraphWalk::start(self.genesis.clone(), allow);
        loop {
            let row = match walk.next_read() {
                GraphRead::Nothing => return Ok(walk.into_current().unwrap()),
                read => self.row(read)?,
            };
            walk = walk.advance(row)?;
        }
    }

    fn lookup(
        &self,
        command: &BarrierCommand,
    ) -> Result<Option<BarrierDurabilityReceipt>, BarrierError> {
        let mut lookup = ReceiptLookup::start(command.clone());
        loop {
            let event = match lookup.action() {
                LookupAction::Read(read) => LookupEvent::Row(self.row(read)),
                LookupAction::ReadGenesis => LookupEvent::Genesis(Ok(self.genesis.clone())),
                LookupAction::Finish => return lookup.into_result().unwrap(),
            };
            lookup = lookup.advance(event);
        }
    }

    fn row(&self, read: GraphRead) -> Result<GraphRow, BarrierError> {
        Ok(match read {
            GraphRead::Head(key) => GraphRow::Head(self.heads.get(&key.to_vec()).cloned()),
            GraphRead::Receipt(key) => GraphRow::Receipt(self.receipts.get(&key.to_vec()).cloned()),
            GraphRead::Operation(key, digest) => {
                let stored = self.raw(&key);
                let lookup =
                    WorkspaceOperationLedger::new().lookup(&key, digest, stored.as_deref());
                GraphRow::Operation(lookup.map_err(BarrierError::from)?)
            }
            GraphRead::Nothing => unreachable!(),
        })
    }

    /// What the writer does.
    fn cut(
        &mut self,
        command: &BarrierCommand,
        claim: Bytes,
        barrier_id: String,
    ) -> Result<BarrierDurabilityReceipt, BarrierError> {
        let current = self.walk(true)?;
        genesis_matches(&self.genesis, command)?;
        let sequence = authority_matches(&authority_record(self.sequence), command, BOOT, 1_000)?;
        if head_digest(&current.head) != command.expected_head_digest {
            return Err(BarrierError::Conflict);
        }
        self.cuts += 1;
        if self.fail_before_publish {
            return Err(BarrierError::CommitOutcomeUnknown);
        }
        let next = next_head(&current, command, sequence, 3, self.cuts, 9)?;
        let mut receipt = BarrierDurabilityReceipt {
            workspace_id: command.operation.workspace_id.clone(),
            request_id: command.operation.request_id.clone(),
            request_digest: *command.request_digest.as_bytes(),
            effect_claim: claim,
            token: command.token.clone(),
            expected_head_digest: command.expected_head_digest,
            head: next.head.clone(),
            barrier_id,
            included_write_sequence: sequence,
            zerofs_writer_epoch: 3,
            zerofs_manifest_id: self.cuts,
            zerofs_durable_sequence: 9,
            storage_shard_id: command.storage_shard_id.clone(),
            storage_routing_revision: command.storage_routing_revision,
            committed_at_unix_seconds: 100,
            committed_at_nanos: 7,
            receipt_digest: [0; 32],
        };
        receipt.receipt_digest = receipt_digest(&receipt);
        let codec = KeyCodec::new();
        let version = next.head.workspace_version;
        self.heads.insert(
            codec.workspace_head_key("workspace-a").to_vec(),
            next.clone(),
        );
        self.heads.insert(
            codec
                .workspace_head_version_key("workspace-a", version)
                .to_vec(),
            next,
        );
        let operation = &command.operation;
        let key =
            codec.workspace_barrier_record_key(&operation.workspace_id, &operation.request_id);
        self.receipts.insert(key.to_vec(), receipt.clone());
        if self.lose_dispatch_reply {
            return Err(BarrierError::CommitOutcomeUnknown);
        }
        Ok(receipt)
    }

    fn materialize(
        &mut self,
        command: BarrierCommand,
    ) -> Result<BarrierMaterializeResult, BarrierError> {
        let mut run = BarrierRun::start(VerifiedBarrierInput::for_test(command)?);
        loop {
            let event = match run.action() {
                RunAction::LookUpReceipt => RunEvent::Receipt(self.lookup(run.input().command())),
                RunAction::Begin => {
                    let stored = self.raw(&run.input().command().operation);
                    RunEvent::Begun(match self.store.materialize(run.input(), stored.as_deref()) {
                        Ok(step) => Ok(self.perform(step).unwrap()),
                        Err(error) => Err(error),
                    })
                }
                RunAction::Claim => RunEvent::Claimed(self.claim(run.input(), run.candidate())),
                RunAction::FindOperation => {
                    let command = run.input().command();
                    let stored = self.raw(&command.operation);
                    RunEvent::Found(WorkspaceOperationLedger::new().lookup(
                        &command.operation,
                        command.request_digest,
                        stored.as_deref(),
                    ))
                }
                RunAction::Dispatch(request) => RunEvent::Cut(self.cut(
                    &request.command,
                    request.effect_claim,
                    request.barrier_id,
                )),
                RunAction::Finish => return run.into_result().unwrap(),
            };
            run = run.advance(event);
        }
    }

    fn claim(
        &mut self,
        input: &VerifiedBarrierInput,
        candidate: &BarrierCandidate,
    ) -> Result<EffectDispatchClaim, WorkspaceOperationError> {
        let stored = self.raw(&input.command().operation);
        let step = self.store.claim(input, candidate, stored.as_deref())?;
        let won = matches!(step, LedgerStep::Write { .. });
        let record = self.perform(step).unwrap();
        if self.lose_claim_reply {
            Err(WorkspaceOperationError::CommitOutcomeUnknown)
        } else if won {
            Ok(EffectDispatchClaim::Installed(record))
        } else {
            Ok(EffectDispatchClaim::Existing(record))
        }
    }

    fn materialized(&mut self, command: BarrierCommand) -> BarrierDurabilityReceipt {
        match self.materialize(command).unwrap() {
            BarrierMaterializeResult::Materialized(receipt) => *receipt,
            other => panic!("unexpected barrier result: {other:?}"),
        }
    }

    fn complete(
        &mut self,
        command: BarrierCommand,
        receipt: BarrierDurabilityReceipt,
    ) -> Result<WorkspaceOperationRecord, BarrierError> {
        let input = VerifiedBarrierInput::for_test(command)?;
        let terminal = VerifiedBarrierTerminal::for_test(
            receipt,
            Bytes::from_static(b"signed-barrier-receipt"),
        )?;
        let durable = self.lookup(input.command())?;
        let stored = self.raw(&input.command().operation);
        let step = self
            .store
            .complete(&input, terminal, durable, stored.as_deref())?;
        Ok(self.perform(step).unwrap())
    }
}

fn first_command(request_id: &str) -> BarrierCommand {
    command(request_id, head_digest(&initial_head(&genesis()).head))
}

fn started(request_id: &str) -> BarrierRun {
    BarrierRun::start(VerifiedBarrierInput::for_test(first_command(request_id)).unwrap())
}

#[test]
fn publishes_exact_manifest_cut_and_advances_head() {
    let mut workspace = Workspace::new();
    let first = workspace.materialized(first_command("barrier-1"));
    assert_eq!(first.included_write_sequence, 0);
    assert!(first.zerofs_writer_epoch > 0);
    assert!(first.zerofs_manifest_id > 0);
    assert!(first.zerofs_durable_sequence > 0);
    assert_eq!(first.head.workspace_version, 2);
    assert_eq!(first.storage_shard_id, "test-shard-a");
    assert_eq!(first.storage_routing_revision, 1);

    let record = workspace
        .complete(first_command("barrier-1"), first.clone())
        .unwrap();
    assert!(matches!(
        record.state,
        WorkspaceOperationState::Succeeded(_)
    ));

    let second = workspace.materialized(command("barrier-2", head_digest(&first.head)));
    assert_eq!(second.head.workspace_version, 3);
    assert_eq!(second.head.base_root_digest, first.head.base_root_digest);
    assert_eq!(second.expected_head_digest, head_digest(&first.head));
}

#[test]
fn a_cut_includes_what_the_session_has_committed() {
    let mut workspace = Workspace::new();
    workspace.sequence = 5;
    let first = workspace.materialized(first_command("barrier-1"));
    assert_eq!(first.included_write_sequence, 5);
    assert_eq!(first.head.committed_tail_position, 5);
}

#[test]
fn lost_materialization_reply_converges_by_exact_durable_record() {
    let mut workspace = Workspace::new();
    workspace.lose_dispatch_reply = true;
    let receipt = workspace.materialized(first_command("barrier-lost"));
    assert_eq!(
        workspace.lookup(&first_command("barrier-lost")).unwrap(),
        Some(receipt)
    );
    assert_eq!(workspace.cuts, 1);
}

#[test]
fn lost_claim_reply_dispatches_its_own_claim() {
    let mut workspace = Workspace::new();
    workspace.lose_claim_reply = true;
    workspace.materialized(first_command("barrier-lost-claim"));
    assert_eq!(workspace.cuts, 1);
}

#[test]
fn unknown_after_flush_never_dispatches_a_second_barrier() {
    let mut workspace = Workspace::new();
    workspace.fail_before_publish = true;
    assert_eq!(
        workspace.materialize(first_command("barrier-unknown")),
        Err(BarrierError::CommitOutcomeUnknown)
    );
    workspace.fail_before_publish = false;
    let completed = workspace.cuts;
    assert_eq!(
        workspace.materialize(first_command("barrier-unknown")),
        Err(BarrierError::CommitOutcomeUnknown)
    );
    assert_eq!(workspace.cuts, completed);
}

#[test]
fn failpoint_after_data_cut_never_reflushes_claimed_operation() {
    let mut workspace = Workspace::new();
    workspace.fail_before_publish = true;
    assert_eq!(
        workspace.materialize(first_command("barrier-fp-cut")),
        Err(BarrierError::CommitOutcomeUnknown)
    );
    workspace.fail_before_publish = false;
    let completed = workspace.cuts;
    assert_eq!(
        workspace.materialize(first_command("barrier-fp-cut")),
        Err(BarrierError::CommitOutcomeUnknown)
    );
    assert_eq!(workspace.cuts, completed);
}

#[test]
fn failpoint_after_publish_converges_by_exact_readback() {
    let mut workspace = Workspace::new();
    workspace.lose_dispatch_reply = true;
    let receipt = workspace.materialized(first_command("barrier-fp-publish"));
    workspace.lose_dispatch_reply = false;
    assert_eq!(
        workspace
            .lookup(&first_command("barrier-fp-publish"))
            .unwrap(),
        Some(receipt)
    );
}

#[test]
fn exact_materialized_cut_survives_cold_reopen() {
    let mut workspace = Workspace::new();
    let command = first_command("barrier-reopen");
    let receipt = workspace.materialized(command.clone());
    let reopened = Workspace {
        store: WorkspaceBarrierStore::new(WorkspaceOperationLedger::new()),
        ..workspace
    };
    assert_eq!(reopened.lookup(&command).unwrap(), Some(receipt));
}

#[test]
fn a_terminal_barrier_is_replayed() {
    let mut workspace = Workspace::new();
    let first = workspace.materialized(first_command("barrier-1"));
    let record = workspace
        .complete(first_command("barrier-1"), first.clone())
        .unwrap();
    assert_eq!(
        workspace
            .complete(first_command("barrier-1"), first.clone())
            .unwrap(),
        record
    );
    assert_eq!(workspace.materialized(first_command("barrier-1")), first);
    let run = started("barrier-1")
        .advance(RunEvent::Receipt(Ok(None)))
        .advance(RunEvent::Begun(Ok(record.clone())));
    assert_eq!(
        run.into_result(),
        Some(Ok(BarrierMaterializeResult::AlreadyTerminal(record)))
    );
}

#[test]
fn record_checksum_and_key_binding_cover_every_byte() {
    let mut workspace = Workspace::new();
    let command = first_command("barrier-codec");
    let receipt = workspace.materialized(command.clone());
    let key = KeyCodec::new().workspace_barrier_record_key(
        &command.operation.workspace_id,
        &command.operation.request_id,
    );
    let encoded = encode_barrier_record(&key, &receipt, b"serialized receipt").unwrap();
    for index in 0..encoded.len() {
        let mut corrupted = encoded.to_vec();
        corrupted[index] ^= 1;
        assert!(open_barrier_record(&key, &corrupted).is_err(), "byte {index}");
    }
    assert_eq!(
        open_barrier_record(&key, &encoded).unwrap(),
        b"serialized receipt"
    );
    let wrong_key = KeyCodec::new().workspace_barrier_record_key("workspace-a", "other");
    assert_eq!(
        open_barrier_record(&wrong_key, &encoded),
        Err(BarrierError::Corrupt)
    );
}

#[test]
fn stale_epoch_cannot_publish_a_barrier_record() {
    let mut workspace = Workspace::new();
    let mut command = first_command("barrier-stale");
    command.token.authority.placement_epoch += 1;
    assert_eq!(
        workspace.materialize(command.clone()),
        Err(BarrierError::Conflict)
    );
    assert_eq!(workspace.lookup(&command).unwrap(), None);
    assert_eq!(workspace.cuts, 0);
}

#[test]
fn general_transaction_cannot_forge_workspace_head_or_barrier_rows() {
    for key in [
        KeyCodec::new().workspace_head_key("workspace-a"),
        KeyCodec::new().workspace_barrier_record_key("workspace-a", "request-a"),
        KeyCodec::new().workspace_head_version_key("workspace-a", 1),
    ] {
        assert!(is_reserved_mutation_key(&key));
    }
}

#[test]
fn missing_current_head_or_predecessor_receipt_is_corruption() {
    let codec = KeyCodec::new();
    let command = first_command("barrier-closed");
    let mut workspace = Workspace::new();
    let first = workspace.materialized(command.clone());
    workspace.complete(command.clone(), first.clone()).unwrap();
    workspace
        .heads
        .remove(&codec.workspace_head_key("workspace-a").to_vec());
    assert_eq!(workspace.lookup(&command), Err(BarrierError::Corrupt));

    let mut workspace = Workspace::new();
    let first = workspace.materialized(command.clone());
    workspace.complete(command.clone(), first.clone()).unwrap();
    workspace.receipts.clear();
    assert_eq!(workspace.lookup(&command), Err(BarrierError::Corrupt));
    assert_eq!(
        workspace.materialize(self::command(
            "barrier-after-corrupt",
            head_digest(&first.head)
        )),
        Err(BarrierError::Corrupt)
    );

    let mut workspace = Workspace::new();
    let first = workspace.materialized(command.clone());
    workspace
        .heads
        .remove(&codec.workspace_head_version_key("workspace-a", 1).to_vec());
    assert_eq!(workspace.lookup(&command), Err(BarrierError::Corrupt));
    assert_eq!(first.head.workspace_version, 2);
}

#[test]
fn final_permit_rejects_a_superseding_process_boot() {
    let command = first_command("barrier-boot-race");
    assert_eq!(
        authority_matches(&authority_record(5), &command, BOOT, 1_000),
        Ok(5)
    );
    assert_eq!(
        authority_matches(
            &authority_record(5),
            &command,
            "superseding-process-boot",
            1_000
        ),
        Err(BarrierError::Conflict)
    );
    assert_eq!(
        authority_matches(&authority_record(5), &command, BOOT, u64::MAX),
        Err(BarrierError::Conflict)
    );
    let mut closed = authority_record(5);
    closed.active_session = None;
    assert_eq!(
        authority_matches(&closed, &command, BOOT, 1_000),
        Err(BarrierError::Conflict)
    );
}

#[test]
fn checksummed_but_non_derivable_head_graph_is_corruption() {
    let mut workspace = Workspace::new();
    let command = first_command("barrier-tampered-head");
    let mut receipt = workspace.materialized(command.clone());
    receipt.head.base_root_digest = [0x7a; 32];
    receipt.receipt_digest = receipt_digest(&receipt);
    validate_receipt(&receipt).unwrap();
    let tampered_head = WorkspaceHeadRecord {
        head: receipt.head.clone(),
        last_barrier_request_id: Some(receipt.request_id.clone()),
        last_barrier_request_digest: Some(receipt.request_digest),
    };
    let codec = KeyCodec::new();
    let head_key = codec.workspace_head_key(&receipt.workspace_id);
    let version_key =
        codec.workspace_head_version_key(&receipt.workspace_id, receipt.head.workspace_version);
    let receipt_key =
        codec.workspace_barrier_record_key(&receipt.workspace_id, &receipt.request_id);
    workspace
        .heads
        .insert(head_key.to_vec(), tampered_head.clone());
    workspace.heads.insert(version_key.to_vec(), tampered_head);
    workspace.receipts.insert(receipt_key.to_vec(), receipt);
    assert_eq!(workspace.lookup(&command), Err(BarrierError::Corrupt));
}

#[test]
fn an_unfinished_barrier_may_only_be_the_latest() {
    let mut workspace = Workspace::new();
    let first = workspace.materialized(first_command("barrier-1"));
    assert!(workspace.walk(true).is_ok());
    assert_eq!(workspace.walk(false), Err(BarrierError::Corrupt));
    workspace.materialized(command("barrier-2", head_digest(&first.head)));
    assert_eq!(workspace.walk(true), Err(BarrierError::Corrupt));
}

#[test]
fn a_completion_needs_the_durable_receipt() {
    let mut workspace = Workspace::new();
    let command = first_command("barrier-1");
    let receipt = workspace.materialized(command.clone());
    let input = VerifiedBarrierInput::for_test(command.clone()).unwrap();
    let terminal = |receipt: &BarrierDurabilityReceipt| {
        VerifiedBarrierTerminal::for_test(receipt.clone(), Bytes::from_static(b"signed")).unwrap()
    };
    let stored = workspace.raw(&command.operation);
    assert!(matches!(
        workspace
            .store
            .complete(&input, terminal(&receipt), None, stored.as_deref()),
        Err(BarrierError::CommitOutcomeUnknown)
    ));
    let mut other = receipt.clone();
    other.committed_at_nanos += 1;
    other.receipt_digest = receipt_digest(&other);
    assert!(matches!(
        workspace
            .store
            .complete(&input, terminal(&receipt), Some(other), stored.as_deref()),
        Err(BarrierError::Conflict)
    ));
    assert!(matches!(
        VerifiedBarrierTerminal::for_test(receipt, Bytes::new()),
        Err(BarrierError::Invalid)
    ));
}

#[test]
fn claims_authorize_one_barrier() {
    let command = first_command("barrier-1");
    let barrier = new_canonical_v4();
    let installer = new_canonical_v4();
    assert_ne!(barrier, installer);
    assert!(is_canonical_v4(&barrier));
    assert!(!is_canonical_v4(&barrier.to_uppercase().replace('-', "A")));
    assert!(!is_canonical_v4("00000000-0000-0000-0000-000000000000"));
    let claim = effect_claim(&command, &barrier, &installer);
    assert!(claim.starts_with(b"rhizome.workspace-barrier-dispatch.v1\0"));
    assert!(claim_matches(&claim, &command, &barrier));
    assert!(!claim_matches(&claim, &command, &installer));
    assert!(!claim_matches(&claim, &first_command("barrier-2"), &barrier));
    assert!(!claim_matches(&claim[..claim.len() - 1], &command, &barrier));
    assert!(!claim_matches(&effect_claim(&command, &barrier, "x"), &command, &barrier));
}

#[test]
fn head_digests_cover_every_field() {
    let head = initial_head(&genesis()).head;
    let text = |out: &mut Vec<u8>, value: &str| {
        out.extend_from_slice(&(value.len() as u64).to_be_bytes());
        out.extend_from_slice(value.as_bytes());
    };
    let mut preimage = b"rhizome.workspace-head.initial.v1\0".to_vec();
    text(&mut preimage, "workspace-a");
    text(&mut preimage, "lineage-a");
    preimage.extend_from_slice(&head.base_root_digest);
    assert_eq!(head.tail_chain_digest[..], Sha256::digest(&preimage)[..]);
    assert_eq!(head.workspace_version, 1);

    let mut preimage = b"rhizome.workspace-head.digest.v1\0".to_vec();
    text(&mut preimage, "workspace-a");
    preimage.extend_from_slice(&head.base_root_digest);
    preimage.extend_from_slice(&0u64.to_be_bytes());
    preimage.extend_from_slice(&0u64.to_be_bytes());
    preimage.extend_from_slice(&head.tail_chain_digest);
    preimage.extend_from_slice(&1u64.to_be_bytes());
    text(&mut preimage, "lineage-a");
    assert_eq!(head_digest(&head).0[..], Sha256::digest(&preimage)[..]);
    let mut moved = head.clone();
    moved.committed_tail_position = 1;
    assert_ne!(head_digest(&moved), head_digest(&head));
}

#[test]
fn heads_only_move_forward() {
    let genesis = genesis();
    let mut current = initial_head(&genesis);
    current.head.committed_tail_position = 6;
    let command = first_command("barrier-1");
    assert_eq!(
        next_head(&current, &command, 5, 1, 1, 1),
        Err(BarrierError::Corrupt)
    );
    let next = next_head(&current, &command, 6, 1, 1, 1).unwrap();
    assert_eq!(next.head.workspace_version, 2);
    assert_eq!(next.head.committed_tail_position, 6);
    assert_eq!(
        next.last_barrier_request_id,
        Some("barrier-1".to_string())
    );
    current.head.workspace_version = u64::MAX;
    assert_eq!(
        next_head(&current, &command, 6, 1, 1, 1),
        Err(BarrierError::Corrupt)
    );
}

#[test]
fn receipts_answer_one_command() {
    let mut workspace = Workspace::new();
    let command = first_command("barrier-1");
    let receipt = workspace.materialized(command.clone());
    assert_eq!(command_from_receipt(&receipt), command);
    assert_eq!(ensure_receipt_matches_command(&receipt, &command), Ok(()));
    assert_eq!(
        ensure_receipt_matches_command(&receipt, &first_command("barrier-2")),
        Err(BarrierError::Conflict)
    );
    let mut forged = receipt.clone();
    forged.zerofs_manifest_id += 1;
    assert_eq!(validate_receipt(&forged), Err(BarrierError::Corrupt));
    let mut unnamed = receipt;
    unnamed.request_id = String::new();
    assert_eq!(validate_receipt(&unnamed), Err(BarrierError::Invalid));
}

#[test]
fn incomplete_barrier_commands_are_invalid() {
    let mut case = first_command("barrier-1");
    assert_eq!(validate_command(&case), Ok(()));
    case.operation.kind = 5;
    assert_eq!(validate_command(&case), Err(BarrierError::Invalid));
    let mut case = first_command("barrier-1");
    case.operation.workspace_id = "workspace-b".into();
    assert_eq!(validate_command(&case), Err(BarrierError::Invalid));
    let mut case = first_command("barrier-1");
    case.expected_head_digest = HeadDigest([0; 32]);
    assert_eq!(validate_command(&case), Err(BarrierError::Invalid));
    let mut case = first_command("barrier-1");
    case.token.export.inode = 0;
    assert!(matches!(
        VerifiedBarrierInput::for_test(case),
        Err(BarrierError::Invalid)
    ));
    let mut other = genesis();
    other.storage_routing_revision = 2;
    assert_eq!(
        genesis_matches(&other, &first_command("barrier-1")),
        Err(BarrierError::Conflict)
    );
}

#[test]
fn head_records_are_bound_to_their_key() {
    let record = initial_head(&genesis());
    let key = KeyCodec::new().workspace_head_key("workspace-a");
    let encoded = encode_head_record(&key, &record, b"head").unwrap();
    assert_eq!(open_head_record(&key, &encoded).unwrap(), b"head");
    let other = KeyCodec::new().workspace_head_key("workspace-b");
    assert_eq!(
        open_head_record(&other, &encoded),
        Err(BarrierError::Corrupt)
    );
    let mut half = record.clone();
    half.last_barrier_request_id = Some("x".into());
    assert_eq!(validate_head_record(&half), Err(BarrierError::Corrupt));
    assert_eq!(
        encode_head_record(&key, &half, b"head"),
        Err(BarrierError::Corrupt)
    );
    let mut unnamed = record;
    unnamed.head.object_lineage = String::new();
    assert_eq!(validate_head_record(&unnamed), Err(BarrierError::Invalid));
}

fn pending(command: &BarrierCommand) -> WorkspaceOperationRecord {
    WorkspaceOperationRecord {
        request_digest: command.request_digest,
        state: WorkspaceOperationState::Pending,
    }
}

/// A request that waits for the answer to its claim.
fn claiming() -> BarrierRun {
    let run = started("barrier-1")
        .advance(RunEvent::Receipt(Ok(None)))
        .advance(RunEvent::Begun(Ok(pending(&first_command("barrier-1")))));
    assert!(matches!(run.action(), RunAction::Claim));
    run
}

#[test]
fn refused_claims_are_reported() {
    let dispatched = |claim: Bytes| WorkspaceOperationRecord {
        request_digest: first_command("barrier-1").request_digest,
        state: WorkspaceOperationState::EffectDispatched(claim),
    };
    let run = claiming();
    let claim = run.candidate().claim.clone();
    let barrier_id = run.candidate().barrier_id.clone();
    assert!(claim_matches(&claim, &first_command("barrier-1"), &barrier_id));
    let run = run.advance(RunEvent::Claimed(Ok(EffectDispatchClaim::Installed(
        dispatched(claim.clone()),
    ))));
    match run.action() {
        RunAction::Dispatch(request) => {
            assert_eq!(request.command, first_command("barrier-1"));
            assert_eq!(request.effect_claim, claim);
            assert_eq!(request.barrier_id, barrier_id);
        }
        _ => panic!("the installed claim owns the effect"),
    }

    let other = Bytes::from_static(b"another claim");
    let run = claiming().advance(RunEvent::Claimed(Ok(EffectDispatchClaim::Existing(
        dispatched(other.clone()),
    ))));
    assert!(matches!(run.action(), RunAction::LookUpReceipt));
    let run = run.advance(RunEvent::Receipt(Ok(None)));
    assert_eq!(
        run.into_result(),
        Some(Err(BarrierError::CommitOutcomeUnknown))
    );

    let run = claiming().advance(RunEvent::Claimed(Err(
        WorkspaceOperationError::RequestConflict,
    )));
    assert!(matches!(run.action(), RunAction::LookUpReceipt));
    let run = claiming().advance(RunEvent::Claimed(Err(WorkspaceOperationError::Storage(
        FsError::IoError,
    ))));
    assert_eq!(run.into_result(), Some(Err(BarrierError::Storage)));

    let lost = || {
        let run = claiming().advance(RunEvent::Claimed(Err(
            WorkspaceOperationError::CommitOutcomeUnknown,
        )));
        assert!(matches!(run.action(), RunAction::FindOperation));
        run
    };
    let run = lost().advance(RunEvent::Found(Ok(WorkspaceOperationLookup::Unknown)));
    assert!(matches!(run.action(), RunAction::LookUpReceipt));
    let run = lost().advance(RunEvent::Found(Ok(WorkspaceOperationLookup::Known(
        dispatched(other),
    ))));
    assert!(matches!(run.action(), RunAction::LookUpReceipt));
    let run = lost();
    let own = run.candidate().claim.clone();
    let run = run.advance(RunEvent::Found(Ok(WorkspaceOperationLookup::Known(
        dispatched(own),
    ))));
    assert!(matches!(run.action(), RunAction::Dispatch(_)));
}

#[test]
fn a_finished_request_stays_finished() {
    let run = started("barrier-1").advance(RunEvent::Receipt(Err(BarrierError::Corrupt)));
    assert!(matches!(run.action(), RunAction::Finish));
    let run = run
        .advance(RunEvent::Receipt(Ok(None)))
        .advance(RunEvent::Begun(Ok(pending(&first_command("barrier-1")))));
    assert_eq!(run.into_result(), Some(Err(BarrierError::Corrupt)));
    let run = started("barrier-1").advance(RunEvent::Cut(Err(BarrierError::Conflict)));
    assert!(matches!(run.action(), RunAction::LookUpReceipt));
    assert_eq!(run.into_result(), None);
}

#[test]
fn the_codec_model_passes_for_any_seed() {
    for seed in [0u64, 1, 77, u64::MAX - 1, u64::MAX] {
        let model = dst_workspace_barrier_codec_model(seed);
        assert_eq!(validate_receipt(&model.receipt), Ok(()));
        assert_eq!(validate_head_record(&model.next), Ok(()));
        assert_eq!(
            ensure_receipt_matches_command(&model.receipt, &model.command),
            Ok(())
        );
        assert!(check_barrier_codecs(&model, b"head", b"receipt"));
        assert!(!check_barrier_codecs(&model, &vec![0; 128 * 1024 + 1], b"receipt"));
    }
}

#[test]
fn fault_runs_are_checked_before_they_are_believed() {
    let run_id = new_canonical_v4();
    let root = fault_run_root(&run_id);
    assert_eq!(
        root,
        format!("/opt/rhizome/validation/zerofs-barrier-fault/runs/{run_id}")
    );
    let digest = "0f".repeat(32);
    let facts = FileFacts {
        is_dir: true,
        is_file: false,
        uid: 0,
        gid: 0,
        mode: 0o040700,
        links: 2,
        device: 1,
        inode: 2,
    };
    let run = |root: FileFacts, digest: &'static str| {
        let run_root = fault_run_root(&run_id);
        check_fault_run(
            &FaultRun {
                run_id: &run_id,
                scenario: "after-claim",
                configured_root: &run_root,
                canonical_root: &run_root,
                root,
                preflight_receipt_sha256: digest,
            },
            "after-claim",
        )
    };
    assert_eq!(digest.len(), 64);
    let good = "0f0f0f0f0f0f0f0f0f0f0f0f0f0f0f0f0f0f0f0f0f0f0f0f0f0f0f0f0f0f0f0f";
    assert!(run(facts, good));
    assert!(!run(facts, "0F"));
    assert!(!run(
        FileFacts {
            mode: 0o040755,
            ..facts
        },
        good
    ));
    assert!(!run(FileFacts { uid: 1, ..facts }, good));

    // The root is compared as a path.
    let configured = |root: &str| {
        check_fault_run(
            &FaultRun {
                run_id: &run_id,
                scenario: "after-claim",
                configured_root: root,
                canonical_root: &fault_run_root(&run_id),
                root: facts,
                preflight_receipt_sha256: good,
            },
            "after-claim",
        )
    };
    let root = fault_run_root(&run_id);
    assert!(configured(&format!("{root}/")));
    assert!(configured(&format!("/{root}/.//")));
    assert!(configured(&root.replace("/runs/", "/runs/./")));
    assert!(!configured(&root[1..]));
    assert!(!configured(&format!("{root}/x")));
    assert!(!configured(&root.replace("/runs/", "/runs/../")));
}

#[test]
fn paths_agree_by_components() {
    let paths = [
        "", ".", "/", "//", "/.", "./", "a", "./a", "a/", "a/.", "/a", "//a/", "a/b", "a//b",
        "a/./b", "./a/b", ".a", "a/..", "..", "./..", "a.", "/..", "\u{e9}/b", "\u{e9}//b/",
    ];
    for a in paths {
        for b in paths {
            let same = std::path::Path::new(a) == std::path::Path::new(b);
            assert_eq!(paths_agree(a, b), same, "{a:?} and {b:?}");
        }
    }
}

#[test]
fn crash_reports_name_every_part() {
    let report = CrashReport {
        run_id: "run",
        scenario: "s",
        point: "p",
        pid: 42,
        preflight_receipt_sha256: "aa",
        request_digest: [1; 32],
        included_write_sequence: 9,
        receipt_digest: None,
    };
    let claim = b"schema=1\r\nbarrier_id=b\neffect_claim_digest=\xc3\xa9\r\n";
    let expected = format!(
        "schema=1\nrun_id=run\nscenario=s\npoint=p\npid=42\npreflight_receipt_sha256=aa\nrequest_digest={}\nbarrier_id=b\neffect_claim_digest=\u{e9}\nclaim_record_digest={}\nincluded_write_sequence=9\nreceipt_digest=none\n",
        "01".repeat(32),
        Sha256::digest(claim)
            .iter()
            .map(|byte| format!("{byte:02x}"))
            .collect::<String>()
    );
    assert_eq!(fault_handshake(&report, claim), Some(expected));
    for refused in [
        &b"barrier_id=b\n"[..],
        b"effect_claim_digest=e\n",
        b"barrier_id=b\neffect_claim_digest=e\nx=\xff\n",
    ] {
        assert_eq!(fault_handshake(&report, refused), None);
    }
    assert_eq!(
        claim_field(b"schema=1\r\nbarrier_id=b\nbarrier_id=c\n", b"barrier_id="),
        Some(&b"b"[..])
    );
    assert_eq!(
        claim_field(b"schema=1\r\nx=y", b"schema="),
        Some(&b"1"[..])
    );
    assert_eq!(claim_field(b"schema=1\n", b"barrier_id="), None);
}

#[test]
fn a_receipt_is_looked_for_in_a_closed_graph() {
    let mut workspace = Workspace::new();
    let head = head_digest(&initial_head(&genesis()).head);
    let command = command("request-a", head);
    assert_eq!(workspace.lookup(&command), Ok(None));
    workspace.materialize(command.clone()).unwrap();
    let receipt = workspace.lookup(&command).unwrap().unwrap();
    assert!(receipt.same(&workspace.lookup(&command).unwrap().unwrap()));

    // An error of a read is the answer.
    let failed = ReceiptLookup::start(command.clone())
        .advance(LookupEvent::Row(Err(BarrierError::Storage)));
    assert!(matches!(failed.action(), LookupAction::Finish));
    assert_eq!(failed.into_result(), Some(Err(BarrierError::Storage)));

    // An invalid command is refused before anything is read.
    let mut invalid = command.clone();
    invalid.storage_routing_revision = 0;
    assert_eq!(
        ReceiptLookup::start(invalid).into_result(),
        Some(Err(BarrierError::Invalid))
    );

    // A receipt that is there counts for nothing while the graph is open.
    let codec = KeyCodec::new();
    let first = codec.workspace_head_version_key("workspace-a", 1).to_vec();
    let initial = workspace.heads.remove(&first).unwrap();
    assert_eq!(workspace.lookup(&command), Err(BarrierError::Corrupt));
    workspace.heads.insert(first, initial);
    assert!(workspace.lookup(&command).unwrap().is_some());

    // A receipt that is not the answer to the command is a conflict.
    let mut other = command.clone();
    other.storage_routing_revision += 1;
    assert_eq!(workspace.lookup(&other), Err(BarrierError::Conflict));
}
