//! What the ledger promises as a whole.

use super::codec::checksum_domain;
use super::codec::corrupt;
use super::codec::decoded;
use super::codec::record_body;
use super::codec::record_bytes;
use super::codec::state_of;
use super::codec::state_tag;
use super::codec::VALUE_MAGIC;
use super::codec::VALUE_VERSION;
use super::ledger::desired_state;
use super::ledger::ledger_verdict;
use super::ledger::LedgerRequest;
use super::ledger::LedgerVerdict;
use super::types::OperationErrorModel;
use super::types::OperationRecordModel;
use super::types::StateModel;
use crate::outside::sha256;
use crate::wire::be_bytes;
use crate::wire::be_value;
use crate::wire::lemma_be_bytes_len;
use crate::wire::lemma_be_roundtrip;
use crate::wire::lemma_be_value_bytes;
use crate::wire::lemma_span_values;
use vstd::prelude::*;

verus! {

broadcast use lemma_be_bytes_len;

/// A record that can be stored: its digest has its size, and its state its bytes.
pub open spec fn storable(record: OperationRecordModel) -> bool {
    &&& record.request_digest.len() == 32
    &&& record.state.valid()
    &&& record.state.payload().len() <= u32::MAX
}

/// The outcome that a request records is an outcome, as every terminal outcome is.
pub open spec fn outcome_is_terminal(request: LedgerRequest) -> bool {
    match request {
        LedgerRequest::Complete(state) => state.is_terminal(),
        LedgerRequest::CompleteClaimed(_, state) => state.is_terminal(),
        _ => true,
    }
}

/// The parts of a stored record lie where its layout puts them.
proof fn lemma_record_layout(key: Seq<u8>, record: OperationRecordModel)
    requires
        storable(record),
    ensures
        ({
            let raw = record_bytes(key, record);
            let end = 74 + record.state.payload().len() as int;
            &&& raw.len() == end + 32
            &&& raw.subrange(0, 4) == VALUE_MAGIC@
            &&& raw[4] == VALUE_VERSION
            &&& raw.subrange(5, 37) == sha256(key)@
            &&& raw.subrange(37, 69) == record.request_digest
            &&& raw[69] == state_tag(record.state)
            &&& be_value(raw.subrange(70, 74)) == record.state.payload().len()
            &&& raw.subrange(74, end) == record.state.payload()
            &&& raw.subrange(0, end) == record_body(key, record)
            &&& raw.subrange(end, end + 32) == sha256(checksum_domain() + record_body(key, record))@
        }),
{
    let raw = record_bytes(key, record);
    let payload = record.state.payload();
    let end = 74 + payload.len() as int;
    lemma_span_values();
    lemma_be_roundtrip(payload.len(), 4);
    assert(raw.subrange(0, 4) =~= VALUE_MAGIC@);
    assert(raw.subrange(5, 37) =~= sha256(key)@);
    assert(raw.subrange(37, 69) =~= record.request_digest);
    assert(raw.subrange(70, 74) =~= be_bytes(payload.len(), 4));
    assert(raw.subrange(74, end) =~= payload);
    assert(raw.subrange(0, end) =~= record_body(key, record));
    assert(raw.subrange(end, end + 32) =~= sha256(checksum_domain() + record_body(key, record))@);
}

/// What was stored is what is read.
pub proof fn law_record_roundtrips(key: Seq<u8>, record: OperationRecordModel)
    requires
        storable(record),
    ensures
        decoded(key, record_bytes(key, record)) == Ok::<OperationRecordModel, OperationErrorModel>(
            record,
        ),
{
    lemma_record_layout(key, record);
    assert(state_of(state_tag(record.state), record.state.payload()) == Ok::<
        StateModel,
        OperationErrorModel,
    >(record.state));
}

/// Only the stored form of a record reads as that record: the encoding is canonical,
/// and no byte of it is ignored.
pub proof fn law_decoded_record_is_canonical(key: Seq<u8>, raw: Seq<u8>)
    ensures
        decoded(key, raw) matches Ok(record) ==> raw == record_bytes(key, record) && storable(
            record,
        ),
{
    if decoded(key, raw) is Ok {
        let record = decoded(key, raw)->Ok_0;
        let end = raw.len() - 32;
        let payload = raw.subrange(74, end);
        lemma_span_values();
        lemma_be_value_bytes(raw.subrange(70, 74));
        assert(payload =~= record.state.payload());
        assert(raw.subrange(0, end) =~= raw.subrange(0, 4) + seq![raw[4]] + raw.subrange(5, 37)
            + raw.subrange(37, 69) + seq![raw[69]] + raw.subrange(70, 74) + payload);
        assert(raw =~= raw.subrange(0, end) + raw.subrange(end, end + 32));
    }
}

/// A record copied under a key with another digest is rejected on readback.
pub proof fn law_copied_record_is_rejected(
    key: Seq<u8>,
    other: Seq<u8>,
    record: OperationRecordModel,
)
    requires
        storable(record),
        sha256(key)@ != sha256(other)@,
    ensures
        decoded(other, record_bytes(key, record)) == Err::<
            OperationRecordModel,
            OperationErrorModel,
        >(corrupt("record is bound to a different operation key"@)),
{
    lemma_record_layout(key, record);
}

/// A terminal outcome is immutable: no request writes over it, and the only answers are
/// that record, its refusal, or a digest conflict.
pub proof fn law_terminal_is_immutable(
    record: OperationRecordModel,
    request_digest: Seq<u8>,
    request: LedgerRequest,
)
    requires
        record.state.is_terminal(),
    ensures
        !(ledger_verdict(Some(record), request_digest, request) is Write),
        ledger_verdict(Some(record), request_digest, request) matches LedgerVerdict::Existing(found)
            ==> found == record,
{
}

/// A request with another digest changes nothing and is refused as a conflict.
pub proof fn law_digest_conflict_is_refused(
    record: OperationRecordModel,
    request_digest: Seq<u8>,
    request: LedgerRequest,
)
    requires
        record.request_digest != request_digest,
        desired_state(request).valid(),
    ensures
        ledger_verdict(Some(record), request_digest, request) == LedgerVerdict::Refuse(
            OperationErrorModel::RequestConflict,
        ),
{
}

/// Whatever is written keeps the digest of the operation and moves it forward: from
/// nothing to pending, from pending to a claim or an outcome, from its claim to an
/// outcome.
pub proof fn law_writes_move_forward(
    existing: Option<OperationRecordModel>,
    request_digest: Seq<u8>,
    request: LedgerRequest,
)
    requires
        outcome_is_terminal(request),
    ensures
        ledger_verdict(existing, request_digest, request) matches LedgerVerdict::Write(next) ==> {
            &&& next.request_digest == request_digest
            &&& next.state.valid()
            &&& match existing {
                None => next.state is Pending,
                Some(record) => {
                    &&& record.request_digest == next.request_digest
                    &&& !record.state.is_terminal()
                    &&& (record.state is EffectDispatched ==> !(next.state is Pending)
                        && request is CompleteClaimed)
                },
            }
        },
{
}

/// Repeating a request that was written answers with the record that it wrote.
pub proof fn law_requests_are_idempotent(
    existing: Option<OperationRecordModel>,
    request_digest: Seq<u8>,
    request: LedgerRequest,
)
    requires
        outcome_is_terminal(request),
    ensures
        ledger_verdict(existing, request_digest, request) matches LedgerVerdict::Write(next)
            ==> ledger_verdict(Some(next), request_digest, request) == LedgerVerdict::Existing(
            next,
        ),
{
}

/// An effect is claimed at most once: once a claim is stored, no claim is ever written
/// again, by any number of requests.
pub proof fn law_effect_is_claimed_at_most_once(
    record: OperationRecordModel,
    request_digest: Seq<u8>,
    claim: Seq<u8>,
)
    requires
        !(record.state is Pending),
    ensures
        !(ledger_verdict(Some(record), request_digest, LedgerRequest::Claim(claim)) is Write),
{
}

/// Absence is unknown: completing an operation that was never begun creates nothing.
pub proof fn law_absence_is_unknown(request_digest: Seq<u8>, claim: Seq<u8>, state: StateModel)
    requires
        state.valid(),
    ensures
        ledger_verdict(None, request_digest, LedgerRequest::Complete(state))
            == LedgerVerdict::Unknown,
        ledger_verdict(None, request_digest, LedgerRequest::CompleteClaimed(claim, state))
            == LedgerVerdict::Unknown,
{
}

} // verus!
