//! What the ledger answers to each request, said of what goes in and what comes out.

use super::codec::decode_record;
use super::codec::encode_key;
use super::codec::encode_record;
use super::codec::validate_record;
use super::laws::law_decoded_record_is_canonical;
use super::laws::law_record_roundtrips;
use super::ledger::LedgerStep;
use super::ledger::WorkspaceOperationLedger;
use super::types::CanonicalRequestDigest;
use super::types::WorkspaceOperationError;
use super::types::WorkspaceOperationKey;
use super::types::WorkspaceOperationLookup;
use super::types::WorkspaceOperationRecord;
use super::types::WorkspaceOperationState;
use super::types::WorkspaceTerminalOutcome;
use crate::fs::errors::FsError;
use crate::outside::contents;
use bytes::Bytes;
use vstd::prelude::*;
use vstd::utf8::encode_utf8;

verus! {

/// The bytes that a state carries, if it is one that carries bytes.
pub open spec fn carried(state: WorkspaceOperationState) -> Option<Seq<u8>> {
    match state {
        WorkspaceOperationState::Pending => None,
        WorkspaceOperationState::EffectDispatched(bytes) => Some(contents(bytes)),
        WorkspaceOperationState::Succeeded(bytes) => Some(contents(bytes)),
        WorkspaceOperationState::Failed(bytes) => Some(contents(bytes)),
        WorkspaceOperationState::NotCommitted(bytes) => Some(contents(bytes)),
    }
}

/// `state` is `outcome`, of its kind and with its bytes.
pub open spec fn is_outcome(
    state: WorkspaceOperationState,
    outcome: WorkspaceTerminalOutcome,
) -> bool {
    match outcome {
        WorkspaceTerminalOutcome::Succeeded(bytes) => {
            state matches WorkspaceOperationState::Succeeded(b) && contents(b) == contents(bytes)
        },
        WorkspaceTerminalOutcome::Failed(bytes) => {
            state matches WorkspaceOperationState::Failed(b) && contents(b) == contents(bytes)
        },
        WorkspaceTerminalOutcome::NotCommitted(bytes) => {
            state matches WorkspaceOperationState::NotCommitted(b) && contents(b) == contents(bytes)
        },
    }
}

/// Two steps ask for the same.
pub open spec fn same_step(a: LedgerStep, b: LedgerStep) -> bool {
    match a {
        LedgerStep::Unknown => b is Unknown,
        LedgerStep::Existing(record) => b matches LedgerStep::Existing(other) && other@ == record@,
        LedgerStep::Write { key, value, record } => b matches LedgerStep::Write {
            key: other_key,
            value: other_value,
            record: other,
        } && contents(other_key) == contents(key) && contents(other_value) == contents(value)
            && other@ == record@,
    }
}

/// The bytes of an outcome.
pub open spec fn outcome_bytes(outcome: WorkspaceTerminalOutcome) -> Seq<u8> {
    match outcome {
        WorkspaceTerminalOutcome::Succeeded(bytes) => contents(bytes),
        WorkspaceTerminalOutcome::Failed(bytes) => contents(bytes),
        WorkspaceTerminalOutcome::NotCommitted(bytes) => contents(bytes),
    }
}

/// Two states are the same exactly if they are of one kind and carry the same bytes, and
/// one has its outcome exactly if it is neither pending nor dispatched.
pub proof fn law_states_are_kind_and_bytes(
    a: &WorkspaceOperationState,
    b: &WorkspaceOperationState,
    same: bool,
    terminal: bool,
)
    requires
        call_ensures(WorkspaceOperationState::same, (a, b), same),
        call_ensures(WorkspaceOperationState::is_terminal, (a,), terminal),
    ensures
        same <==> {
            &&& carried(*a) == carried(*b)
            &&& *a is Pending == *b is Pending
            &&& *a is EffectDispatched == *b is EffectDispatched
            &&& *a is Succeeded == *b is Succeeded
            &&& *a is Failed == *b is Failed
        },
        same == (a@ == b@),
        terminal <==> *a is Succeeded || *a is Failed || *a is NotCommitted,
{
}

/// An outcome becomes the state of its kind with its bytes.
pub proof fn law_outcome_becomes_its_state(
    outcome: WorkspaceTerminalOutcome,
    state: WorkspaceOperationState,
)
    requires
        call_ensures(
            <WorkspaceOperationState as From<WorkspaceTerminalOutcome>>::from,
            (outcome,),
            state,
        ),
    ensures
        is_outcome(state, outcome),
{
}

/// A failure of storage keeps its error, but that an unknown outcome is told as such.
pub proof fn law_storage_failures_are_kept(error: FsError, told: WorkspaceOperationError)
    requires
        call_ensures(<WorkspaceOperationError as From<FsError>>::from, (error,), told),
    ensures
        told is CommitOutcomeUnknown <==> error is CommitOutcomeUnknown,
        !(error is CommitOutcomeUnknown) ==> (told matches WorkspaceOperationError::Storage(e) && e
            == error),
{
}

/// An operation has a key exactly if it names its workspace and request in at most 65535
/// bytes each and is of a positive kind. Any other identity is invalid.
pub proof fn law_operations_are_named(
    key: &WorkspaceOperationKey,
    result: Result<Bytes, WorkspaceOperationError>,
)
    requires
        call_ensures(encode_key, (key,), result),
    ensures
        result is Ok <==> {
            &&& key.workspace_id@.len() > 0
            &&& encode_utf8(key.workspace_id@).len() <= 65535
            &&& key.request_id@.len() > 0
            &&& encode_utf8(key.request_id@).len() <= 65535
            &&& key.kind > 0
        },
        result matches Err(e) ==> e is InvalidIdentity,
{
}

/// A record is valid exactly if its state carries bytes or needs none, and can be stored
/// exactly if they are no more than four bytes can count. What cannot is corrupt.
pub proof fn law_records_carry_their_bytes(
    key: &Bytes,
    record: &WorkspaceOperationRecord,
    valid: Result<(), WorkspaceOperationError>,
    stored: Result<Bytes, WorkspaceOperationError>,
)
    requires
        call_ensures(validate_record, (record,), valid),
        call_ensures(encode_record, (key, record), stored),
    ensures
        valid is Ok <==> (carried(record.state) matches Some(bytes) ==> bytes.len() > 0),
        stored is Ok <==> (carried(record.state) matches Some(bytes) ==> 0 < bytes.len()
            <= u32::MAX),
        valid matches Err(e) ==> e is CorruptRecord,
        stored matches Err(e) ==> e is CorruptRecord,
{
}

/// What was stored under a key is what is read there, and nothing else reads as that
/// record. Whatever cannot be read is corrupt.
pub proof fn law_stored_record_is_read_back(
    key: &Bytes,
    record: &WorkspaceOperationRecord,
    stored: Bytes,
    raw: &[u8],
    read: Result<WorkspaceOperationRecord, WorkspaceOperationError>,
)
    requires
        call_ensures(encode_record, (key, record), Ok(stored)),
        call_ensures(decode_record, (key, raw), read),
        record.request_digest@.len() == 32,
    ensures
        raw@ == contents(stored) ==> (read matches Ok(r) && r@ == record@),
        read matches Ok(r) ==> (r@ == record@ ==> raw@ == contents(stored)),
        read matches Err(e) ==> e is CorruptRecord,
{
    law_record_roundtrips(contents(*key), record@);
    law_decoded_record_is_canonical(contents(*key), raw@);
}

/// An operation begins as pending where nothing is stored, and otherwise is what is stored
/// for the same request. Another request of that name is a conflict.
pub proof fn law_begin_records_the_intent_once(
    ledger: &WorkspaceOperationLedger,
    key: &WorkspaceOperationKey,
    digest: CanonicalRequestDigest,
    stored: Option<&[u8]>,
    encoded_key: Result<Bytes, WorkspaceOperationError>,
    read: Result<WorkspaceOperationRecord, WorkspaceOperationError>,
    pending: WorkspaceOperationRecord,
    encoded: Result<Bytes, WorkspaceOperationError>,
    result: Result<LedgerStep, WorkspaceOperationError>,
)
    requires
        call_ensures(WorkspaceOperationLedger::begin, (ledger, key, digest, stored), result),
        call_ensures(encode_key, (key,), encoded_key),
        encoded_key matches Ok(k) ==> (stored matches Some(raw) ==> call_ensures(
            decode_record,
            (&k, raw),
            read,
        )),
        pending.request_digest@ == digest@ && pending.state is Pending,
        encoded_key matches Ok(k) ==> call_ensures(encode_record, (&k, &pending), encoded),
    ensures
        encoded_key matches Err(e) ==> (result matches Err(error) && error@ == e@),
        encoded_key matches Ok(k) ==> {
            &&& stored is None ==> (result matches Ok(LedgerStep::Write { key: at, value, record })
                && contents(at) == contents(k) && record@ == pending@ && (encoded matches Ok(bytes)
                && contents(value) == contents(bytes)))
            &&& stored is Some ==> {
                &&& read matches Err(e) ==> (result matches Err(error) && error@ == e@)
                &&& read matches Ok(r) ==> {
                    &&& r.request_digest@ == digest@ ==> (result matches Ok(
                        LedgerStep::Existing(record),
                    ) && record@ == r@)
                    &&& r.request_digest@ != digest@ ==> (result matches Err(
                        WorkspaceOperationError::RequestConflict,
                    ))
                }
            }
        },
{
}

/// A pending operation takes any outcome, once: it is then answered by that outcome and
/// refuses every other. One whose effect is claimed is not completed this way, and one that
/// never began stays unknown.
pub proof fn law_complete_records_one_outcome(
    ledger: &WorkspaceOperationLedger,
    key: &WorkspaceOperationKey,
    digest: CanonicalRequestDigest,
    outcome: WorkspaceTerminalOutcome,
    stored: Option<&[u8]>,
    encoded_key: Result<Bytes, WorkspaceOperationError>,
    read: Result<WorkspaceOperationRecord, WorkspaceOperationError>,
    desired: WorkspaceOperationRecord,
    encoded: Result<Bytes, WorkspaceOperationError>,
    result: Result<LedgerStep, WorkspaceOperationError>,
)
    requires
        call_ensures(
            WorkspaceOperationLedger::complete,
            (ledger, key, digest, outcome, stored),
            result,
        ),
        call_ensures(encode_key, (key,), encoded_key),
        encoded_key matches Ok(k) ==> (stored matches Some(raw) ==> call_ensures(
            decode_record,
            (&k, raw),
            read,
        )),
        desired.request_digest@ == digest@ && is_outcome(desired.state, outcome),
        encoded_key matches Ok(k) ==> call_ensures(encode_record, (&k, &desired), encoded),
    ensures
        encoded_key matches Err(e) ==> (result matches Err(error) && error@ == e@),
        encoded_key is Ok && outcome_bytes(outcome).len() == 0 ==> (result matches Err(e)
            && e is CorruptRecord),
        encoded_key matches Ok(k) ==> (outcome_bytes(outcome).len() > 0 ==> {
            &&& stored is None ==> (result matches Ok(LedgerStep::Unknown))
            &&& stored is Some ==> {
                &&& read matches Err(e) ==> (result matches Err(error) && error@ == e@)
                &&& read matches Ok(r) ==> {
                    let own = r.request_digest@ == digest@;
                    &&& !own ==> (result matches Err(WorkspaceOperationError::RequestConflict))
                    &&& own && r.state is Pending ==> {
                        &&& encoded matches Ok(bytes) ==> (result matches Ok(
                            LedgerStep::Write { key: at, value, record },
                        ) && contents(at) == contents(k) && record@ == desired@ && contents(value)
                            == contents(bytes))
                        &&& encoded matches Err(e) ==> (result matches Err(error) && error@ == e@)
                    }
                    &&& own && is_outcome(r.state, outcome) ==> (result matches Ok(
                        LedgerStep::Existing(record),
                    ) && record@ == r@)
                    &&& own && !(r.state is Pending) && !is_outcome(r.state, outcome) ==> (
                    result matches Err(WorkspaceOperationError::TerminalImmutable))
                }
            }
        }),
{
}

/// An effect is claimed once: a pending operation takes the claim, the same claim finds
/// itself, another one is a conflict, and an operation with its outcome is answered by it.
/// There is nothing to claim of an operation that never began.
pub proof fn law_claim_is_installed_once(
    ledger: &WorkspaceOperationLedger,
    key: &WorkspaceOperationKey,
    digest: CanonicalRequestDigest,
    claim: Bytes,
    stored: Option<&[u8]>,
    encoded_key: Result<Bytes, WorkspaceOperationError>,
    read: Result<WorkspaceOperationRecord, WorkspaceOperationError>,
    desired: WorkspaceOperationRecord,
    encoded: Result<Bytes, WorkspaceOperationError>,
    result: Result<LedgerStep, WorkspaceOperationError>,
)
    requires
        call_ensures(
            WorkspaceOperationLedger::claim_effect_dispatch,
            (ledger, key, digest, claim, stored),
            result,
        ),
        call_ensures(encode_key, (key,), encoded_key),
        encoded_key matches Ok(k) ==> (stored matches Some(raw) ==> call_ensures(
            decode_record,
            (&k, raw),
            read,
        )),
        desired.request_digest@ == digest@ && (
        desired.state matches WorkspaceOperationState::EffectDispatched(c) && contents(c)
            == contents(claim)),
        encoded_key matches Ok(k) ==> call_ensures(encode_record, (&k, &desired), encoded),
    ensures
        contents(claim).len() == 0 ==> (result matches Err(e) && e is CorruptRecord),
        contents(claim).len() > 0 ==> (encoded_key matches Err(e) ==> (result matches Err(error)
            && error@ == e@)),
        contents(claim).len() > 0 ==> (encoded_key matches Ok(k) ==> {
            &&& stored is None ==> (result matches Err(e) && e is CorruptRecord)
            &&& stored is Some ==> {
                &&& read matches Err(e) ==> (result matches Err(error) && error@ == e@)
                &&& read matches Ok(r) ==> {
                    let own = r.request_digest@ == digest@;
                    let dispatched = r.state matches WorkspaceOperationState::EffectDispatched(c)
                        && contents(c) != contents(claim);
                    &&& !own || dispatched ==> (result matches Err(
                        WorkspaceOperationError::RequestConflict,
                    ))
                    &&& own && r.state is Pending ==> {
                        &&& encoded matches Ok(bytes) ==> (result matches Ok(
                            LedgerStep::Write { key: at, value, record },
                        ) && contents(at) == contents(k) && record@ == desired@ && contents(value)
                            == contents(bytes))
                        &&& encoded matches Err(e) ==> (result matches Err(error) && error@ == e@)
                    }
                    &&& own && !dispatched && !(r.state is Pending) ==> (result matches Ok(
                        LedgerStep::Existing(record),
                    ) && record@ == r@)
                }
            }
        }),
{
}

/// The outcome of a claimed effect is recorded exactly under the claim that is stored, and
/// once: it is then answered by that outcome and refuses every other. Another claim is a
/// conflict.
pub proof fn law_claimed_effect_takes_one_outcome(
    ledger: &WorkspaceOperationLedger,
    key: &WorkspaceOperationKey,
    digest: CanonicalRequestDigest,
    claim: &Bytes,
    outcome: WorkspaceTerminalOutcome,
    stored: Option<&[u8]>,
    encoded_key: Result<Bytes, WorkspaceOperationError>,
    read: Result<WorkspaceOperationRecord, WorkspaceOperationError>,
    desired: WorkspaceOperationRecord,
    encoded: Result<Bytes, WorkspaceOperationError>,
    result: Result<LedgerStep, WorkspaceOperationError>,
)
    requires
        call_ensures(
            WorkspaceOperationLedger::complete_claimed_effect,
            (ledger, key, digest, claim, outcome, stored),
            result,
        ),
        call_ensures(encode_key, (key,), encoded_key),
        encoded_key matches Ok(k) ==> (stored matches Some(raw) ==> call_ensures(
            decode_record,
            (&k, raw),
            read,
        )),
        desired.request_digest@ == digest@ && is_outcome(desired.state, outcome),
        encoded_key matches Ok(k) ==> call_ensures(encode_record, (&k, &desired), encoded),
    ensures
        encoded_key matches Err(e) ==> (result matches Err(error) && error@ == e@),
        encoded_key is Ok && outcome_bytes(outcome).len() == 0 ==> (result matches Err(e)
            && e is CorruptRecord),
        encoded_key matches Ok(k) ==> (outcome_bytes(outcome).len() > 0 ==> {
            &&& stored is None ==> (result matches Ok(LedgerStep::Unknown))
            &&& stored is Some ==> {
                &&& read matches Err(e) ==> (result matches Err(error) && error@ == e@)
                &&& read matches Ok(r) ==> {
                    let own = r.request_digest@ == digest@;
                    let claimed = r.state matches WorkspaceOperationState::EffectDispatched(c)
                        && contents(c) == contents(*claim);
                    &&& !own || (r.state is EffectDispatched && !claimed) ==> (
                    result matches Err(WorkspaceOperationError::RequestConflict))
                    &&& own && claimed ==> {
                        &&& encoded matches Ok(bytes) ==> (result matches Ok(
                            LedgerStep::Write { key: at, value, record },
                        ) && contents(at) == contents(k) && record@ == desired@ && contents(value)
                            == contents(bytes))
                        &&& encoded matches Err(e) ==> (result matches Err(error) && error@ == e@)
                    }
                    &&& own && is_outcome(r.state, outcome) ==> (result matches Ok(
                        LedgerStep::Existing(record),
                    ) && record@ == r@)
                    &&& own && !(r.state is EffectDispatched) && !is_outcome(r.state, outcome) ==> (
                    result matches Err(WorkspaceOperationError::TerminalImmutable))
                }
            }
        }),
{
}

/// What is known of an operation is what is stored for the same request; nothing stored is
/// unknown, and another request of that name is a conflict.
pub proof fn law_lookup_tells_what_is_stored(
    ledger: &WorkspaceOperationLedger,
    key: &WorkspaceOperationKey,
    digest: CanonicalRequestDigest,
    stored: Option<&[u8]>,
    encoded_key: Result<Bytes, WorkspaceOperationError>,
    read: Result<WorkspaceOperationRecord, WorkspaceOperationError>,
    result: Result<WorkspaceOperationLookup, WorkspaceOperationError>,
)
    requires
        call_ensures(WorkspaceOperationLedger::lookup, (ledger, key, digest, stored), result),
        call_ensures(encode_key, (key,), encoded_key),
        encoded_key matches Ok(k) ==> (stored matches Some(raw) ==> call_ensures(
            decode_record,
            (&k, raw),
            read,
        )),
    ensures
        encoded_key matches Err(e) ==> (result matches Err(error) && error@ == e@),
        encoded_key is Ok && stored is None ==> (result matches Ok(
            WorkspaceOperationLookup::Unknown,
        )),
        encoded_key is Ok && stored is Some ==> {
            &&& read matches Err(e) ==> (result matches Err(error) && error@ == e@)
            &&& read matches Ok(r) ==> {
                &&& r.request_digest@ == digest@ ==> (result matches Ok(
                    WorkspaceOperationLookup::Known(record),
                ) && record@ == r@)
                &&& r.request_digest@ != digest@ ==> (result matches Err(
                    WorkspaceOperationError::RequestConflict,
                ))
            }
        },
{
}

/// What is stored is settled exactly if there is no current record or it is the durable
/// one.
pub proof fn law_settled_records_are_durable(
    ledger: &WorkspaceOperationLedger,
    current: Option<&WorkspaceOperationRecord>,
    durable: Option<&WorkspaceOperationRecord>,
    settled: bool,
)
    requires
        call_ensures(WorkspaceOperationLedger::is_settled, (ledger, current, durable), settled),
    ensures
        settled <==> (current matches Some(c) ==> (durable matches Some(d) && c.request_digest@
            == d.request_digest@ && c.state@ == d.state@)),
{
}

/// One reply is lost for each time that is asked for, and then no more; the outcome of a
/// lost commit is unknown.
pub proof fn law_one_reply_is_lost(
    fresh: WorkspaceOperationLedger,
    arming: &mut WorkspaceOperationLedger,
    ledger: &mut WorkspaceOperationLedger,
    result: Result<(), WorkspaceOperationError>,
)
    requires
        call_ensures(WorkspaceOperationLedger::new, (), fresh),
        call_ensures(WorkspaceOperationLedger::dst_lose_next_commit_reply, (arming,), ()),
        call_ensures(WorkspaceOperationLedger::maybe_lose_commit_reply, (ledger,), result),
    ensures
        !fresh.armed(),
        final(arming).armed(),
        !final(ledger).armed(),
        result is Err <==> old(ledger).armed(),
        result matches Err(e) ==> e is CommitOutcomeUnknown,
{
}

} // verus!
