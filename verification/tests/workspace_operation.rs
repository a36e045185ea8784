use bytes::Bytes;
use std::collections::HashMap;
use zerofs::fs::errors::FsError;
use zerofs::fs::key_codec::is_reserved_mutation_key;
use zerofs::fs::key_codec::KeyCodec;
use zerofs::fs::workspace_operation::codec::decode_record;
use zerofs::fs::workspace_operation::codec::encode_key;
use zerofs::fs::workspace_operation::codec::encode_record;
use zerofs::fs::workspace_operation::codec::KEY_VERSION;
use zerofs::fs::workspace_operation::ledger::LedgerStep;
use zerofs::fs::workspace_operation::ledger::WorkspaceOperationLedger;
use zerofs::fs::workspace_operation::types::CanonicalRequestDigest;
use zerofs::fs::workspace_operation::types::WorkspaceOperationError;
use zerofs::fs::workspace_operation::types::WorkspaceOperationKey;
use zerofs::fs::workspace_operation::types::WorkspaceOperationLookup;
use zerofs::fs::workspace_operation::types::WorkspaceOperationRecord;
use zerofs::fs::workspace_operation::types::WorkspaceOperationState;
use zerofs::fs::workspace_operation::types::WorkspaceTerminalOutcome;

fn key() -> WorkspaceOperationKey {
    WorkspaceOperationKey::new("workspace-a", 10, "request-a")
}

fn digest(byte: u8) -> CanonicalRequestDigest {
    CanonicalRequestDigest::new([byte; 32])
}

fn pending(byte: u8) -> WorkspaceOperationRecord {
    WorkspaceOperationRecord {
        request_digest: digest(byte),
        state: WorkspaceOperationState::Pending,
    }
}

fn succeeded(receipt: &'static [u8]) -> WorkspaceTerminalOutcome {
    WorkspaceTerminalOutcome::Succeeded(Bytes::from_static(receipt))
}

fn failed(receipt: &'static [u8]) -> WorkspaceTerminalOutcome {
    WorkspaceTerminalOutcome::Failed(Bytes::from_static(receipt))
}

/// A ledger over rows that are current at once and durable after a flush.
struct Rows {
    ledger: WorkspaceOperationLedger,
    current: HashMap<Vec<u8>, Bytes>,
    durable: HashMap<Vec<u8>, Bytes>,
    fail_next_flush: bool,
    flushes: usize,
}

impl Rows {
    fn new() -> Self {
        Rows {
            ledger: WorkspaceOperationLedger::new(),
            current: HashMap::new(),
            durable: HashMap::new(),
            fail_next_flush: false,
            flushes: 0,
        }
    }

    fn raw(&self, key: &WorkspaceOperationKey) -> Option<Bytes> {
        let encoded = encode_key(key).ok()?;
        self.current.get(&encoded.to_vec()).cloned()
    }

    fn flush(&mut self) -> Result<(), WorkspaceOperationError> {
        self.flushes += 1;
        if self.fail_next_flush {
            self.fail_next_flush = false;
            return Err(WorkspaceOperationError::from(FsError::CommitOutcomeUnknown));
        }
        self.durable = self.current.clone();
        Ok(())
    }

    fn commit(&mut self, key: &Bytes, value: Bytes) -> Result<(), WorkspaceOperationError> {
        self.current.insert(key.to_vec(), value);
        self.flush()?;
        self.ledger.maybe_lose_commit_reply()
    }

    /// A transaction of anything but the ledger.
    fn raw_put(&mut self, key: &Bytes, value: Bytes) -> Result<(), FsError> {
        if is_reserved_mutation_key(key) {
            return Err(FsError::OperationNotPermitted);
        }
        self.current.insert(key.to_vec(), value);
        Ok(())
    }

    fn settle(&mut self, key: &WorkspaceOperationKey) -> Result<(), WorkspaceOperationError> {
        let encoded = encode_key(key)?;
        let current = match self.current.get(&encoded.to_vec()) {
            Some(raw) => Some(decode_record(&encoded, raw)?),
            None => None,
        };
        let durable = match self.durable.get(&encoded.to_vec()) {
            Some(raw) => Some(decode_record(&encoded, raw)?),
            None => None,
        };
        if !self.ledger.is_settled(current.as_ref(), durable.as_ref()) {
            self.flush()?;
        }
        Ok(())
    }

    fn perform(
        &mut self,
        step: LedgerStep,
    ) -> Result<WorkspaceOperationLookup, WorkspaceOperationError> {
        match step {
            LedgerStep::Unknown => Ok(WorkspaceOperationLookup::Unknown),
            LedgerStep::Existing(record) => Ok(WorkspaceOperationLookup::Known(record)),
            LedgerStep::Write { key, value, record } => {
                self.commit(&key, value)?;
                Ok(WorkspaceOperationLookup::Known(record))
            }
        }
    }

    fn begin(
        &mut self,
        key: &WorkspaceOperationKey,
        digest: CanonicalRequestDigest,
    ) -> Result<WorkspaceOperationRecord, WorkspaceOperationError> {
        self.settle(key)?;
        let stored = self.raw(key);
        let step = self.ledger.begin(key, digest, stored.as_deref())?;
        match self.perform(step)? {
            WorkspaceOperationLookup::Known(record) => Ok(record),
            WorkspaceOperationLookup::Unknown => panic!("an intent is recorded or replayed"),
        }
    }

    fn complete(
        &mut self,
        key: &WorkspaceOperationKey,
        digest: CanonicalRequestDigest,
        outcome: WorkspaceTerminalOutcome,
    ) -> Result<WorkspaceOperationLookup, WorkspaceOperationError> {
        self.settle(key)?;
        let stored = self.raw(key);
        let step = self
            .ledger
            .complete(key, digest, outcome, stored.as_deref())?;
        self.perform(step)
    }

    fn claim(
        &mut self,
        key: &WorkspaceOperationKey,
        digest: CanonicalRequestDigest,
        claim: &'static [u8],
    ) -> Result<bool, WorkspaceOperationError> {
        self.settle(key)?;
        let stored = self.raw(key);
        let step = self.ledger.claim_effect_dispatch(
            key,
            digest,
            Bytes::from_static(claim),
            stored.as_deref(),
        )?;
        let won = matches!(step, LedgerStep::Write { .. });
        self.perform(step)?;
        Ok(won)
    }

    fn complete_claimed(
        &mut self,
        key: &WorkspaceOperationKey,
        digest: CanonicalRequestDigest,
        claim: &'static [u8],
        outcome: WorkspaceTerminalOutcome,
    ) -> Result<WorkspaceOperationLookup, WorkspaceOperationError> {
        self.settle(key)?;
        let stored = self.raw(key);
        let step = self.ledger.complete_claimed_effect(
            key,
            digest,
            &Bytes::from_static(claim),
            outcome,
            stored.as_deref(),
        )?;
        self.perform(step)
    }

    fn lookup(
        &self,
        key: &WorkspaceOperationKey,
        digest: CanonicalRequestDigest,
    ) -> Result<WorkspaceOperationLookup, WorkspaceOperationError> {
        let encoded = encode_key(key)?;
        let stored = self.durable.get(&encoded.to_vec());
        self.ledger.lookup(key, digest, stored.map(|raw| &raw[..]))
    }
}

#[test]
fn absence_is_unknown_and_complete_does_not_create_a_tombstone() {
    let mut rows = Rows::new();
    assert_eq!(
        rows.lookup(&key(), digest(1)).unwrap(),
        WorkspaceOperationLookup::Unknown
    );
    assert_eq!(
        rows.complete(
            &key(),
            digest(1),
            WorkspaceTerminalOutcome::NotCommitted(Bytes::from_static(b"signed")),
        )
        .unwrap(),
        WorkspaceOperationLookup::Unknown
    );
    assert!(rows.current.is_empty());
}

#[test]
fn concurrent_same_digest_replays_one_pending_record() {
    let mut rows = Rows::new();
    let flushes_before = rows.flushes;
    assert_eq!(rows.begin(&key(), digest(1)).unwrap(), pending(1));
    assert_eq!(rows.begin(&key(), digest(1)).unwrap(), pending(1));
    assert_eq!(
        rows.flushes,
        flushes_before + 1,
        "the winning PENDING commit must be durable; replay must not flush again"
    );
}

#[test]
fn concurrent_different_digest_has_one_winner_and_one_conflict() {
    let mut rows = Rows::new();
    let results = [rows.begin(&key(), digest(1)), rows.begin(&key(), digest(2))];
    assert_eq!(results.iter().filter(|result| result.is_ok()).count(), 1);
    assert_eq!(
        results
            .iter()
            .filter(|result| **result == Err(WorkspaceOperationError::RequestConflict))
            .count(),
        1
    );
}

#[test]
fn lost_commit_reply_converges_by_readback() {
    let mut rows = Rows::new();
    rows.ledger.dst_lose_next_commit_reply();
    assert_eq!(
        rows.begin(&key(), digest(1)),
        Err(WorkspaceOperationError::CommitOutcomeUnknown)
    );
    assert_eq!(
        rows.lookup(&key(), digest(1)).unwrap(),
        WorkspaceOperationLookup::Known(pending(1))
    );
    assert_eq!(rows.begin(&key(), digest(1)).unwrap(), pending(1));
}

#[test]
fn lost_terminal_reply_converges_to_the_exact_terminal_bytes() {
    let mut rows = Rows::new();
    rows.begin(&key(), digest(1)).unwrap();
    rows.ledger.dst_lose_next_commit_reply();
    assert_eq!(
        rows.complete(&key(), digest(1), failed(b"signed-negative")),
        Err(WorkspaceOperationError::CommitOutcomeUnknown)
    );
    assert_eq!(
        rows.lookup(&key(), digest(1)).unwrap(),
        WorkspaceOperationLookup::Known(WorkspaceOperationRecord {
            request_digest: digest(1),
            state: WorkspaceOperationState::Failed(Bytes::from_static(b"signed-negative")),
        })
    );
}

#[test]
fn post_apply_flush_failure_is_unknown_and_preserves_terminal_choice() {
    let mut rows = Rows::new();
    rows.begin(&key(), digest(1)).unwrap();
    rows.fail_next_flush = true;
    assert_eq!(
        rows.complete(&key(), digest(1), succeeded(b"receipt-a")),
        Err(WorkspaceOperationError::CommitOutcomeUnknown)
    );
    assert_eq!(
        rows.complete(&key(), digest(1), failed(b"receipt-b")),
        Err(WorkspaceOperationError::TerminalImmutable)
    );
    assert_eq!(
        rows.lookup(&key(), digest(1)).unwrap(),
        WorkspaceOperationLookup::Known(WorkspaceOperationRecord {
            request_digest: digest(1),
            state: WorkspaceOperationState::Succeeded(Bytes::from_static(b"receipt-a")),
        }),
        "a deterministic immutable verdict requires the original terminal to be durable"
    );
    assert!(matches!(
        rows.complete(&key(), digest(1), succeeded(b"receipt-a"))
            .unwrap(),
        WorkspaceOperationLookup::Known(WorkspaceOperationRecord {
            state: WorkspaceOperationState::Succeeded(_),
            ..
        })
    ));
}

#[test]
fn conflict_after_unknown_pending_first_makes_original_digest_durable() {
    let mut rows = Rows::new();
    rows.fail_next_flush = true;
    assert_eq!(
        rows.begin(&key(), digest(1)),
        Err(WorkspaceOperationError::CommitOutcomeUnknown)
    );
    assert_eq!(
        rows.begin(&key(), digest(2)),
        Err(WorkspaceOperationError::RequestConflict)
    );
    assert_eq!(
        rows.lookup(&key(), digest(1)).unwrap(),
        WorkspaceOperationLookup::Known(pending(1)),
        "a deterministic digest conflict requires the original intent to be durable"
    );
}

#[test]
fn operation_kind_is_part_of_the_durable_scope() {
    let mut rows = Rows::new();
    let first = key();
    let mut second = key();
    second.kind += 1;
    rows.begin(&first, digest(1)).unwrap();
    rows.begin(&second, digest(2)).unwrap();
    assert!(matches!(
        rows.lookup(&second, digest(2)).unwrap(),
        WorkspaceOperationLookup::Known(_)
    ));
}

#[test]
fn terminal_is_idempotent_but_immutable() {
    let mut rows = Rows::new();
    rows.begin(&key(), digest(1)).unwrap();
    let expected = rows
        .complete(&key(), digest(1), succeeded(b"receipt"))
        .unwrap();
    assert_eq!(
        rows.complete(&key(), digest(1), succeeded(b"receipt"))
            .unwrap(),
        expected
    );
    assert_eq!(
        rows.complete(&key(), digest(1), failed(b"negative")),
        Err(WorkspaceOperationError::TerminalImmutable)
    );
}

#[test]
fn corrupt_record_fails_closed() {
    let mut rows = Rows::new();
    let encoded_key = encode_key(&key()).unwrap();
    rows.commit(&encoded_key, Bytes::from_static(b"corrupt"))
        .unwrap();
    assert!(matches!(
        rows.lookup(&key(), digest(1)),
        Err(WorkspaceOperationError::CorruptRecord(_))
    ));
}

#[test]
fn raw_copy_to_another_operation_key_is_rejected() {
    let mut rows = Rows::new();
    let source_key = encode_key(&key()).unwrap();
    let mut destination = key();
    destination.request_id = "request-b".to_string();
    let destination_key = encode_key(&destination).unwrap();
    let copied_value = encode_record(&source_key, &pending(1)).unwrap();
    assert_eq!(
        rows.raw_put(&destination_key, copied_value),
        Err(FsError::OperationNotPermitted)
    );
    assert_eq!(
        rows.lookup(&destination, digest(1)),
        Ok(WorkspaceOperationLookup::Unknown)
    );
}

#[test]
fn typed_path_still_rejects_record_bytes_copied_across_keys_on_readback() {
    let mut rows = Rows::new();
    let source_key = encode_key(&key()).unwrap();
    let destination = WorkspaceOperationKey::new("workspace-b", 10, "request-a");
    let destination_key = encode_key(&destination).unwrap();
    let copied_source_bytes = encode_record(&source_key, &pending(1)).unwrap();
    rows.commit(&destination_key, copied_source_bytes).unwrap();
    assert!(matches!(
        rows.lookup(&destination, digest(1)),
        Err(WorkspaceOperationError::CorruptRecord(_))
    ));
}

#[test]
fn raw_put_with_valid_current_key_checksum_cannot_advance_pending() {
    let mut rows = Rows::new();
    rows.begin(&key(), digest(1)).unwrap();
    let encoded_key = encode_key(&key()).unwrap();
    let forged_terminal = WorkspaceOperationRecord {
        request_digest: digest(1),
        state: WorkspaceOperationState::Succeeded(Bytes::from_static(b"forged-receipt")),
    };
    assert_eq!(
        rows.raw_put(
            &encoded_key,
            encode_record(&encoded_key, &forged_terminal).unwrap()
        ),
        Err(FsError::OperationNotPermitted)
    );
    assert_eq!(
        rows.lookup(&key(), digest(1)),
        Ok(WorkspaceOperationLookup::Known(pending(1)))
    );
}

#[test]
fn failpoint_after_commit_requires_readback() {
    let mut rows = Rows::new();
    rows.ledger.dst_lose_next_commit_reply();
    assert_eq!(
        rows.begin(&key(), digest(1)),
        Err(WorkspaceOperationError::CommitOutcomeUnknown)
    );
    assert!(matches!(
        rows.lookup(&key(), digest(1)).unwrap(),
        WorkspaceOperationLookup::Known(WorkspaceOperationRecord {
            state: WorkspaceOperationState::Pending,
            ..
        })
    ));
}

#[test]
fn raw_cross_workspace_put_with_valid_target_checksum_is_rejected() {
    let mut rows = Rows::new();
    let destination = WorkspaceOperationKey::new("workspace-b", 10, "request-a");
    let destination_key = encode_key(&destination).unwrap();
    let forged = encode_record(&destination_key, &pending(1)).unwrap();
    assert_eq!(
        rows.raw_put(&destination_key, forged),
        Err(FsError::OperationNotPermitted)
    );
    assert_eq!(
        rows.lookup(&destination, digest(1)),
        Ok(WorkspaceOperationLookup::Unknown)
    );
}

#[test]
fn raw_put_cannot_overwrite_terminal_record() {
    let mut rows = Rows::new();
    rows.begin(&key(), digest(1)).unwrap();
    let expected = rows
        .complete(&key(), digest(1), succeeded(b"real-receipt"))
        .unwrap();
    let encoded_key = encode_key(&key()).unwrap();
    let forged = WorkspaceOperationRecord {
        request_digest: digest(1),
        state: WorkspaceOperationState::Failed(Bytes::from_static(b"forged-negative")),
    };
    assert_eq!(
        rows.raw_put(&encoded_key, encode_record(&encoded_key, &forged).unwrap()),
        Err(FsError::OperationNotPermitted)
    );
    assert_eq!(rows.lookup(&key(), digest(1)), Ok(expected));
}

#[test]
fn every_record_byte_is_covered_by_the_integrity_digest() {
    let encoded_key =
        KeyCodec::new().workspace_operation_key(KEY_VERSION, b"workspace-a", 10, b"request-a");
    let record = WorkspaceOperationRecord {
        request_digest: digest(1),
        state: WorkspaceOperationState::Succeeded(Bytes::from_static(b"exact-receipt")),
    };
    let encoded = encode_record(&encoded_key, &record).unwrap();
    for index in 0..encoded.len() {
        let mut mutated = encoded.to_vec();
        mutated[index] ^= 1;
        assert!(
            decode_record(&encoded_key, &mutated).is_err(),
            "byte {index} was not protected"
        );
    }
    assert_eq!(decode_record(&encoded_key, &encoded).unwrap(), record);
}

#[test]
fn terminal_record_survives_close_and_reopen() {
    let mut rows = Rows::new();
    rows.begin(&key(), digest(1)).unwrap();
    let expected = rows
        .complete(&key(), digest(1), succeeded(b"exact-receipt"))
        .unwrap();
    let mut reopened = Rows::new();
    reopened.current = rows.durable.clone();
    reopened.durable = rows.durable;
    assert_eq!(reopened.lookup(&key(), digest(1)).unwrap(), expected);
}

#[test]
fn a_claim_authorizes_one_dispatch() {
    let mut rows = Rows::new();
    assert_eq!(
        rows.claim(&key(), digest(1), b"claim"),
        Err(WorkspaceOperationError::CorruptRecord(
            "effect dispatch requires a pending operation"
        ))
    );
    rows.begin(&key(), digest(1)).unwrap();
    assert_eq!(
        rows.claim(&key(), digest(1), b""),
        Err(WorkspaceOperationError::CorruptRecord(
            "effect dispatch claim is empty"
        ))
    );
    assert_eq!(rows.claim(&key(), digest(1), b"claim"), Ok(true));
    assert_eq!(rows.claim(&key(), digest(1), b"claim"), Ok(false));
    assert_eq!(
        rows.claim(&key(), digest(1), b"other"),
        Err(WorkspaceOperationError::RequestConflict)
    );
    assert_eq!(
        rows.complete(&key(), digest(1), succeeded(b"receipt")),
        Err(WorkspaceOperationError::TerminalImmutable)
    );
    assert_eq!(
        rows.complete_claimed(&key(), digest(1), b"other", succeeded(b"receipt")),
        Err(WorkspaceOperationError::RequestConflict)
    );
    let known = rows
        .complete_claimed(&key(), digest(1), b"claim", succeeded(b"receipt"))
        .unwrap();
    assert_eq!(
        rows.complete_claimed(&key(), digest(1), b"claim", succeeded(b"receipt"))
            .unwrap(),
        known
    );
    assert_eq!(rows.claim(&key(), digest(1), b"claim"), Ok(false));
}

#[test]
fn a_claimed_completion_needs_a_claim() {
    let mut rows = Rows::new();
    assert_eq!(
        rows.complete_claimed(&key(), digest(1), b"claim", succeeded(b"receipt")),
        Ok(WorkspaceOperationLookup::Unknown)
    );
    rows.begin(&key(), digest(1)).unwrap();
    assert_eq!(
        rows.complete_claimed(&key(), digest(1), b"claim", succeeded(b"receipt")),
        Err(WorkspaceOperationError::TerminalImmutable)
    );
}

#[test]
fn identities_are_checked_in_order() {
    let long = "x".repeat(0x1_0000);
    let cases = [
        (
            WorkspaceOperationKey::new("", 10, ""),
            "workspace_id must not be empty",
        ),
        (
            WorkspaceOperationKey::new(&long, 10, "r"),
            "workspace_id is too long",
        ),
        (
            WorkspaceOperationKey::new("w", 10, ""),
            "request_id must not be empty",
        ),
        (
            WorkspaceOperationKey::new("w", 10, &long),
            "request_id is too long",
        ),
    ];
    for (key, reason) in cases {
        assert_eq!(
            encode_key(&key),
            Err(WorkspaceOperationError::InvalidIdentity(reason))
        );
    }
    for kind in [0, -1] {
        assert!(matches!(
            encode_key(&WorkspaceOperationKey::new("w", kind, "r")),
            Err(WorkspaceOperationError::InvalidIdentity(_))
        ));
    }
}

#[test]
fn storage_failures_keep_an_unknown_outcome_apart() {
    assert_eq!(
        WorkspaceOperationError::from(FsError::CommitOutcomeUnknown),
        WorkspaceOperationError::CommitOutcomeUnknown
    );
    assert_eq!(
        WorkspaceOperationError::from(FsError::IoError),
        WorkspaceOperationError::Storage(FsError::IoError)
    );
}

#[test]
fn only_outcomes_are_terminal() {
    assert!(!WorkspaceOperationState::Pending.is_terminal());
    assert!(!WorkspaceOperationState::EffectDispatched(Bytes::from_static(b"c")).is_terminal());
    for outcome in [
        succeeded(b"a"),
        failed(b"b"),
        WorkspaceTerminalOutcome::NotCommitted(Bytes::from_static(b"c")),
    ] {
        assert!(WorkspaceOperationState::from(outcome).is_terminal());
    }
    let empty = WorkspaceOperationRecord {
        request_digest: digest(1),
        state: WorkspaceOperationState::Succeeded(Bytes::new()),
    };
    let encoded_key = encode_key(&key()).unwrap();
    assert!(matches!(
        encode_record(&encoded_key, &empty),
        Err(WorkspaceOperationError::CorruptRecord(_))
    ));
    assert_eq!(digest(7).as_bytes(), &[7; 32]);
}
