//! The ledger's decisions.

use super::codec::corrupt;
use super::codec::decode_record;
use super::codec::decoded;
use super::codec::encode_key;
use super::codec::encode_record;
use super::codec::key_fault;
use super::codec::ledger_key;
use super::codec::record_bytes;
use super::codec::record_fault;
use super::codec::validate_record;
use super::types::CanonicalRequestDigest;
use super::types::OperationErrorModel;
use super::types::OperationRecordModel;
use super::types::StateModel;
use super::types::WorkspaceOperationError;
use super::types::WorkspaceOperationKey;
use super::types::WorkspaceOperationKeyModel;
use super::types::WorkspaceOperationLookup;
use super::types::WorkspaceOperationRecord;
use super::types::WorkspaceOperationState;
use super::types::WorkspaceTerminalOutcome;
use crate::outside::bytes_slice;
use crate::outside::contents;
use crate::wire::same_bytes;
use bytes::Bytes;
use vstd::prelude::*;

verus! {

/// A change of one operation's record.
pub enum LedgerRequest {
    /// Record the intent.
    Begin,
    /// Record the outcome of an operation that has no claimed effect.
    Complete(StateModel),
    /// Authorize one mutation attempt, identified by its bytes.
    Claim(Seq<u8>),
    /// Record the outcome of the claimed effect.
    CompleteClaimed(Seq<u8>, StateModel),
}

/// What the ledger answers.
pub enum LedgerVerdict {
    /// Nothing is stored, and nothing is written.
    Unknown,
    /// The stored record answers the request; nothing is written.
    Existing(OperationRecordModel),
    /// The record is written, and then answers the request.
    Write(OperationRecordModel),
    /// The request is refused; nothing is written.
    Refuse(OperationErrorModel),
}

/// The state that a request asks for.
pub open spec fn desired_state(request: LedgerRequest) -> StateModel {
    match request {
        LedgerRequest::Begin => StateModel::Pending,
        LedgerRequest::Complete(state) => state,
        LedgerRequest::Claim(claim) => StateModel::EffectDispatched(claim),
        LedgerRequest::CompleteClaimed(_, state) => state,
    }
}

/// The answer to a request with that digest, given the stored record.
pub open spec fn ledger_verdict(
    existing: Option<OperationRecordModel>,
    request_digest: Seq<u8>,
    request: LedgerRequest,
) -> LedgerVerdict {
    let desired = OperationRecordModel { request_digest, state: desired_state(request) };
    if !desired.state.valid() {
        LedgerVerdict::Refuse(record_fault(desired.state))
    } else {
        match existing {
            None => match request {
                LedgerRequest::Begin => LedgerVerdict::Write(desired),
                LedgerRequest::Claim(_) => LedgerVerdict::Refuse(
                    corrupt("effect dispatch requires a pending operation"@),
                ),
                _ => LedgerVerdict::Unknown,
            },
            Some(record) => if record.request_digest != request_digest {
                LedgerVerdict::Refuse(OperationErrorModel::RequestConflict)
            } else {
                match request {
                    LedgerRequest::Begin => LedgerVerdict::Existing(record),
                    LedgerRequest::Complete(_) => if record.state is Pending {
                        LedgerVerdict::Write(desired)
                    } else if record == desired {
                        LedgerVerdict::Existing(record)
                    } else {
                        LedgerVerdict::Refuse(OperationErrorModel::TerminalImmutable)
                    },
                    LedgerRequest::Claim(claim) => match record.state {
                        StateModel::Pending => LedgerVerdict::Write(desired),
                        StateModel::EffectDispatched(current) if current
                            != claim => LedgerVerdict::Refuse(OperationErrorModel::RequestConflict),
                        _ => LedgerVerdict::Existing(record),
                    },
                    LedgerRequest::CompleteClaimed(claim, _) => match record.state {
                        StateModel::EffectDispatched(current) => if current == claim {
                            LedgerVerdict::Write(desired)
                        } else {
                            LedgerVerdict::Refuse(OperationErrorModel::RequestConflict)
                        },
                        _ => if record == desired {
                            LedgerVerdict::Existing(record)
                        } else {
                            LedgerVerdict::Refuse(OperationErrorModel::TerminalImmutable)
                        },
                    },
                }
            },
        }
    }
}

/// The answer to a request, from the bytes stored under the operation's key.
pub open spec fn stored_verdict(
    key: WorkspaceOperationKeyModel,
    stored: Option<Seq<u8>>,
    request_digest: Seq<u8>,
    request: LedgerRequest,
) -> LedgerVerdict {
    let desired = desired_state(request);
    if (request is Claim) && !desired.valid() {
        LedgerVerdict::Refuse(record_fault(desired))
    } else if key_fault(key) is Some {
        LedgerVerdict::Refuse(key_fault(key)->0)
    } else if !desired.valid() {
        LedgerVerdict::Refuse(record_fault(desired))
    } else {
        match stored {
            None => ledger_verdict(None, request_digest, request),
            Some(raw) => match decoded(ledger_key(key), raw) {
                Ok(record) => ledger_verdict(Some(record), request_digest, request),
                Err(fault) => LedgerVerdict::Refuse(fault),
            },
        }
    }
}

/// What the caller does next.
pub enum LedgerStep {
    /// Nothing is stored: answer that the operation is unknown.
    Unknown,
    /// Answer with the stored record.
    Existing(WorkspaceOperationRecord),
    /// Durably store `value` under `key`, then answer with `record`.
    Write { key: Bytes, value: Bytes, record: WorkspaceOperationRecord },
}

/// `result` is the step that `verdict` asks for. A record too large to be stored is
/// refused.
pub open spec fn is_step(
    result: Result<LedgerStep, WorkspaceOperationError>,
    key: WorkspaceOperationKeyModel,
    verdict: LedgerVerdict,
) -> bool {
    match verdict {
        LedgerVerdict::Unknown => result matches Ok(LedgerStep::Unknown),
        LedgerVerdict::Existing(record) => result matches Ok(LedgerStep::Existing(r)) && r@
            == record,
        LedgerVerdict::Write(record) => if record.state.payload().len() > u32::MAX {
            result matches Err(e) && e@ == corrupt("terminal payload is too large"@)
        } else {
            result matches Ok(LedgerStep::Write { key: k, value, record: r }) && contents(k)
                == ledger_key(key) && contents(value) == record_bytes(ledger_key(key), record)
                && r@ == record
        },
        LedgerVerdict::Refuse(fault) => result matches Err(e) && e@ == fault,
    }
}

/// The bytes of an optional value.
pub open spec fn stored_view(stored: Option<&[u8]>) -> Option<Seq<u8>> {
    match stored {
        Some(raw) => Some(raw@),
        None => None,
    }
}

fn ensure_digest(
    record: &WorkspaceOperationRecord,
    expected: &CanonicalRequestDigest,
) -> (result: Result<(), WorkspaceOperationError>)
    ensures
        record@.request_digest == expected@ ==> result is Ok,
        record@.request_digest != expected@ ==> (result matches Err(e) && e@
            == OperationErrorModel::RequestConflict),
{
    if record.request_digest.same(expected) {
        Ok(())
    } else {
        Err(WorkspaceOperationError::RequestConflict)
    }
}

fn read_stored(key: &Bytes, stored: Option<&[u8]>) -> (result: Result<
    Option<WorkspaceOperationRecord>,
    WorkspaceOperationError,
>)
    ensures
        match stored {
            None => result matches Ok(None),
            Some(raw) => match decoded(contents(*key), raw@) {
                Ok(record) => result matches Ok(Some(r)) && r@ == record,
                Err(fault) => result matches Err(e) && e@ == fault,
            },
        },
{
    match stored {
        Some(raw) => {
            let record = decode_record(key, raw)?;
            Ok(Some(record))
        },
        None => Ok(None),
    }
}

fn write_step(key: Bytes, record: WorkspaceOperationRecord) -> (result: Result<
    LedgerStep,
    WorkspaceOperationError,
>)
    requires
        record@.state.valid(),
    ensures
        if record@.state.payload().len() > u32::MAX {
            result matches Err(e) && e@ == corrupt("terminal payload is too large"@)
        } else {
            result matches Ok(LedgerStep::Write { key: k, value, record: r }) && contents(k)
                == contents(key) && contents(value) == record_bytes(contents(key), record@) && r@
                == record@
        },
{
    let value = encode_record(&key, &record)?;
    Ok(LedgerStep::Write { key, value, record })
}

/// The ledger of one filesystem. It can be armed to lose the reply of its next commit,
/// for deterministic tests of ambiguous outcomes.
pub struct WorkspaceOperationLedger {
    lose_next_commit_reply: bool,
}

impl WorkspaceOperationLedger {
    /// The reply of the next commit will be lost.
    pub closed spec fn armed(self) -> bool {
        self.lose_next_commit_reply
    }

    pub fn new() -> (ledger: Self)
        ensures
            !ledger.armed(),
    {
        WorkspaceOperationLedger { lose_next_commit_reply: false }
    }

    /// Arms the loss of one commit reply.
    pub fn dst_lose_next_commit_reply(&mut self)
        ensures
            final(self).armed(),
    {
        self.lose_next_commit_reply = true;
    }

    /// What a commit that reached storage reports: its outcome is unknown if the reply
    /// is lost, once.
    pub fn maybe_lose_commit_reply(&mut self) -> (result: Result<(), WorkspaceOperationError>)
        ensures
            !final(self).armed(),
            old(self).armed() ==> (result matches Err(e) && e@
                == OperationErrorModel::CommitOutcomeUnknown),
            !old(self).armed() ==> result is Ok,
    {
        if self.lose_next_commit_reply {
            self.lose_next_commit_reply = false;
            return Err(WorkspaceOperationError::CommitOutcomeUnknown);
        }
        Ok(())
    }

    /// Create a durable pending intent or replay the exact durable record.
    pub fn begin(
        &self,
        key: &WorkspaceOperationKey,
        request_digest: CanonicalRequestDigest,
        stored: Option<&[u8]>,
    ) -> (result: Result<LedgerStep, WorkspaceOperationError>)
        ensures
            is_step(
                result,
                key@,
                stored_verdict(key@, stored_view(stored), request_digest@, LedgerRequest::Begin),
            ),
    {
        let encoded_key = encode_key(key)?;
        if let Some(existing) = read_stored(&encoded_key, stored)? {
            ensure_digest(&existing, &request_digest)?;
            return Ok(LedgerStep::Existing(existing));
        }
        write_step(
            encoded_key,
            WorkspaceOperationRecord { request_digest, state: WorkspaceOperationState::Pending },
        )
    }

    /// Replace a pending intent with one terminal outcome. A terminal record can only
    /// be replayed byte for byte; it is never rewritten.
    pub fn complete(
        &self,
        key: &WorkspaceOperationKey,
        request_digest: CanonicalRequestDigest,
        outcome: WorkspaceTerminalOutcome,
        stored: Option<&[u8]>,
    ) -> (result: Result<LedgerStep, WorkspaceOperationError>)
        ensures
            is_step(
                result,
                key@,
                stored_verdict(
                    key@,
                    stored_view(stored),
                    request_digest@,
                    LedgerRequest::Complete(outcome@),
                ),
            ),
    {
        let encoded_key = encode_key(key)?;
        let desired = WorkspaceOperationRecord {
            request_digest,
            state: WorkspaceOperationState::from(outcome),
        };
        assert(desired@.state == outcome@);
        validate_record(&desired)?;
        let existing = match read_stored(&encoded_key, stored)? {
            Some(existing) => existing,
            None => {
                return Ok(LedgerStep::Unknown);
            },
        };
        ensure_digest(&existing, &request_digest)?;
        match &existing.state {
            WorkspaceOperationState::EffectDispatched(_) => Err(
                WorkspaceOperationError::TerminalImmutable,
            ),
            WorkspaceOperationState::Pending => write_step(encoded_key, desired),
            _ => if existing.same(&desired) {
                Ok(LedgerStep::Existing(existing))
            } else {
                Err(WorkspaceOperationError::TerminalImmutable)
            },
        }
    }

    /// Complete an externally claimed effect. The claim bytes are the durable handoff
    /// identity; only their owner, having validated the effect's receipt, may use this
    /// path.
    pub fn complete_claimed_effect(
        &self,
        key: &WorkspaceOperationKey,
        request_digest: CanonicalRequestDigest,
        exact_claim: &Bytes,
        outcome: WorkspaceTerminalOutcome,
        stored: Option<&[u8]>,
    ) -> (result: Result<LedgerStep, WorkspaceOperationError>)
        ensures
            is_step(
                result,
                key@,
                stored_verdict(
                    key@,
                    stored_view(stored),
                    request_digest@,
                    LedgerRequest::CompleteClaimed(contents(*exact_claim), outcome@),
                ),
            ),
    {
        let encoded_key = encode_key(key)?;
        let desired = WorkspaceOperationRecord {
            request_digest,
            state: WorkspaceOperationState::from(outcome),
        };
        assert(desired@.state == outcome@);
        validate_record(&desired)?;
        let existing = match read_stored(&encoded_key, stored)? {
            Some(existing) => existing,
            None => {
                return Ok(LedgerStep::Unknown);
            },
        };
        ensure_digest(&existing, &request_digest)?;
        match &existing.state {
            WorkspaceOperationState::EffectDispatched(current) => if same_bytes(
                bytes_slice(current),
                bytes_slice(exact_claim),
            ) {
                write_step(encoded_key, desired)
            } else {
                Err(WorkspaceOperationError::RequestConflict)
            },
            WorkspaceOperationState::Pending => Err(WorkspaceOperationError::TerminalImmutable),
            _ => if existing.same(&desired) {
                Ok(LedgerStep::Existing(existing))
            } else {
                Err(WorkspaceOperationError::TerminalImmutable)
            },
        }
    }

    /// Durably authorize exactly one external mutation attempt. Only the call whose
    /// step is a write may dispatch; a replay may perform readback only.
    pub fn claim_effect_dispatch(
        &self,
        key: &WorkspaceOperationKey,
        request_digest: CanonicalRequestDigest,
        exact_claim: Bytes,
        stored: Option<&[u8]>,
    ) -> (result: Result<LedgerStep, WorkspaceOperationError>)
        ensures
            is_step(
                result,
                key@,
                stored_verdict(
                    key@,
                    stored_view(stored),
                    request_digest@,
                    LedgerRequest::Claim(contents(exact_claim)),
                ),
            ),
    {
        if bytes_slice(&exact_claim).len() == 0 {
            return Err(WorkspaceOperationError::CorruptRecord("effect dispatch claim is empty"));
        }
        let encoded_key = encode_key(key)?;
        let desired = WorkspaceOperationRecord {
            request_digest,
            state: WorkspaceOperationState::EffectDispatched(exact_claim),
        };
        let existing = match read_stored(&encoded_key, stored)? {
            Some(existing) => existing,
            None => {
                return Err(
                    WorkspaceOperationError::CorruptRecord(
                        "effect dispatch requires a pending operation",
                    ),
                );
            },
        };
        ensure_digest(&existing, &request_digest)?;
        match &existing.state {
            WorkspaceOperationState::Pending => write_step(encoded_key, desired),
            WorkspaceOperationState::EffectDispatched(_) => if existing.state.same(
                &desired.state,
            ) {
                Ok(LedgerStep::Existing(existing))
            } else {
                Err(WorkspaceOperationError::RequestConflict)
            },
            _ => Ok(LedgerStep::Existing(existing)),
        }
    }

    /// What durable state says of an operation. Absence is unknown; it is never taken
    /// for a proof that nothing was committed.
    pub fn lookup(
        &self,
        key: &WorkspaceOperationKey,
        request_digest: CanonicalRequestDigest,
        stored: Option<&[u8]>,
    ) -> (result: Result<WorkspaceOperationLookup, WorkspaceOperationError>)
        ensures
            match lookup_result(key@, stored_view(stored), request_digest@) {
                Ok(None) => result matches Ok(WorkspaceOperationLookup::Unknown),
                Ok(Some(record)) => result matches Ok(WorkspaceOperationLookup::Known(r)) && r@
                    == record,
                Err(fault) => result matches Err(e) && e@ == fault,
            },
    {
        let encoded_key = encode_key(key)?;
        match read_stored(&encoded_key, stored)? {
            Some(record) => {
                ensure_digest(&record, &request_digest)?;
                Ok(WorkspaceOperationLookup::Known(record))
            },
            None => Ok(WorkspaceOperationLookup::Unknown),
        }
    }

    /// Whether what is stored is settled: a record that is current must be durable
    /// before anything is decided from it. An unsettled record asks for a durability
    /// barrier and another read.
    pub fn is_settled(
        &self,
        current: Option<&WorkspaceOperationRecord>,
        durable: Option<&WorkspaceOperationRecord>,
    ) -> (settled: bool)
        ensures
            settled == (match (current, durable) {
                (None, _) => true,
                (Some(current), Some(durable)) => current@ == durable@,
                (Some(_), None) => false,
            }),
    {
        match (current, durable) {
            (None, _) => true,
            (Some(current), Some(durable)) => current.same(durable),
            (Some(_), None) => false,
        }
    }
}

/// What durable state says of an operation.
pub open spec fn lookup_result(
    key: WorkspaceOperationKeyModel,
    stored: Option<Seq<u8>>,
    request_digest: Seq<u8>,
) -> Result<Option<OperationRecordModel>, OperationErrorModel> {
    match key_fault(key) {
        Some(fault) => Err(fault),
        None => match stored {
            None => Ok(None),
            Some(raw) => match decoded(ledger_key(key), raw) {
                Ok(record) => if record.request_digest == request_digest {
                    Ok(Some(record))
                } else {
                    Err(OperationErrorModel::RequestConflict)
                },
                Err(fault) => Err(fault),
            },
        },
    }
}

} // verus!
