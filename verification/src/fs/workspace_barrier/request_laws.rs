//! What a barrier request does with each answer it gets, and what it takes for a receipt to
//! be handed out.

use super::graph::GraphRead;
use super::graph::GraphRow;
use super::graph::HeadGraphWalk;
use super::graph::HeadGraphWalkModel;
use super::graph::WalkPhaseModel;
use super::lookup::LookupAction;
use super::lookup::LookupEvent;
use super::lookup::LookupPhaseModel;
use super::lookup::ReceiptLookup;
use super::rules::ensure_receipt_matches_command;
use super::rules::validate_command;
use super::rules::validate_head_record;
use super::rules::validate_receipt;
use super::run::BarrierCandidate;
use super::run::BarrierRun;
use super::run::MaterializeModel;
use super::run::RunAction;
use super::run::RunEvent;
use super::run::RunPhaseModel;
use super::store::is_within_graph;
use super::store::validate_receipt_in_head_graph;
use super::store::VerifiedBarrierInput;
use super::store::VerifiedBarrierTerminal;
use super::store::WorkspaceBarrierStore;
use super::types::BarrierCommand;
use super::types::BarrierDurabilityReceipt;
use super::types::BarrierError;
use super::types::BarrierGenesis;
use super::types::BarrierMaterializeResult;
use super::types::WorkspaceHeadRecord;
use crate::fs::export_authority::rule_laws::is_identifier;
use crate::fs::export_authority::rule_laws::lemma_identifiers;
use crate::fs::key_codec::KeyCodec;
use crate::fs::workspace_operation::ledger::LedgerStep;
use crate::fs::workspace_operation::ledger::WorkspaceOperationLedger;
use crate::fs::workspace_operation::ledger_laws::same_step;
use crate::fs::workspace_operation::types::EffectDispatchClaim;
use crate::fs::workspace_operation::types::WorkspaceOperationError;
use crate::fs::workspace_operation::types::WorkspaceOperationLookup;
use crate::fs::workspace_operation::types::WorkspaceOperationRecord;
use crate::fs::workspace_operation::types::WorkspaceOperationState;
use crate::fs::workspace_operation::types::WorkspaceTerminalOutcome;
use crate::outside::contents;
use bytes::Bytes;
use vstd::prelude::*;

verus! {

/// A failure of the ledger is told as the barrier failure of its kind.
pub proof fn law_ledger_failures_keep_their_kind(
    error: WorkspaceOperationError,
    told: BarrierError,
)
    requires
        call_ensures(<BarrierError as From<WorkspaceOperationError>>::from, (error,), told),
    ensures
        told is Invalid <==> error is InvalidIdentity,
        told is Conflict <==> error is RequestConflict || error is TerminalImmutable,
        told is Corrupt <==> error is CorruptRecord,
        told is CommitOutcomeUnknown <==> error is CommitOutcomeUnknown,
        told is Storage <==> error is Storage,
{
}

/// A walk that has read nothing takes any valid head for the current one, and then asks for
/// the row of that head's version.
pub proof fn law_walk_begins_at_the_current_head(
    genesis: BarrierGenesis,
    allow_latest_effect_dispatched: bool,
    walk: HeadGraphWalk,
    record: WorkspaceHeadRecord,
    valid: Result<(), BarrierError>,
    result: Result<HeadGraphWalk, BarrierError>,
)
    requires
        call_ensures(HeadGraphWalk::start, (genesis, allow_latest_effect_dispatched), walk),
        call_ensures(validate_head_record, (&record,), valid),
        call_ensures(HeadGraphWalk::advance, (walk, GraphRow::Head(Some(record))), result),
    ensures
        walk@.genesis == genesis@ && walk@.phase is Current && walk@.current is None,
        walk@.allow_latest_effect_dispatched == allow_latest_effect_dispatched,
        valid matches Err(e) ==> (result matches Err(error) && error == e),
        valid is Ok ==> (result matches Ok(next) && next@ == (HeadGraphWalkModel {
            current: Some(record@),
            phase: WalkPhaseModel::Version(record@),
            ..walk@
        })),
{
}

/// A row that is not there, or not of the kind that is waited for, ends a walk: the graph is
/// corrupt. A walk that is closed takes nothing more.
pub proof fn law_walk_ends_at_a_missing_row(
    walk: HeadGraphWalk,
    row: GraphRow,
    result: Result<HeadGraphWalk, BarrierError>,
)
    requires
        call_ensures(HeadGraphWalk::advance, (walk, row), result),
    ensures
        ({
            let head = walk@.phase is Current || walk@.phase is Version || walk@.phase is Previous;
            let missing = match row {
                GraphRow::Head(found) => found is None,
                GraphRow::Receipt(found) => found is None || !(walk@.phase is Receipt),
                GraphRow::Operation(found) => found is Unknown || !(walk@.phase is Operation),
            };
            &&& missing ==> (result matches Err(BarrierError::Corrupt))
            &&& row is Head && !head ==> result is Err
        }),
{
}

/// The operation of a barrier lets a walk go on exactly if it succeeded, or if it is that of
/// the latest barrier, may be awaited and is claimed by the receipt's own claim.
pub proof fn law_walk_passes_a_concluded_operation(
    walk: HeadGraphWalk,
    cursor: WorkspaceHeadRecord,
    receipt: BarrierDurabilityReceipt,
    operation: WorkspaceOperationRecord,
    result: Result<HeadGraphWalk, BarrierError>,
)
    requires
        walk@.phase == WalkPhaseModel::Operation(cursor@, receipt@),
        call_ensures(
            HeadGraphWalk::advance,
            (walk, GraphRow::Operation(WorkspaceOperationLookup::Known(operation))),
            result,
        ),
    ensures
        result is Ok <==> {
            ||| operation.state is Succeeded
            ||| {
                &&& walk@.allow_latest_effect_dispatched
                &&& walk@.current matches Some(latest) && latest.head.workspace_version
                    == cursor.head.workspace_version
                &&& operation.state matches WorkspaceOperationState::EffectDispatched(claim)
                    && contents(claim) == contents(receipt.effect_claim)
            }
        },
        result matches Ok(next) ==> next@ == (HeadGraphWalkModel {
            phase: WalkPhaseModel::Previous(cursor@, receipt@),
            ..walk@
        }),
        result matches Err(e) ==> e == BarrierError::Corrupt,
{
}

/// Each phase of a walk asks for the row that it waits for, under that row's key; a walk is
/// closed exactly if it asks for nothing.
pub proof fn law_walk_asks_for_the_next_row(
    walk: HeadGraphWalk,
    codec: &KeyCodec,
    workspace_id: &str,
    version: u64,
    request_id: &str,
    head_key: Bytes,
    version_key: Bytes,
    receipt_key: Bytes,
    read: GraphRead,
    closed: bool,
)
    requires
        workspace_id@ == walk@.genesis.workspace_id,
        call_ensures(HeadGraphWalk::next_read, (&walk,), read),
        call_ensures(HeadGraphWalk::is_closed, (&walk,), closed),
        call_ensures(KeyCodec::workspace_head_key, (codec, workspace_id), head_key),
        call_ensures(
            KeyCodec::workspace_head_version_key,
            (codec, workspace_id, version),
            version_key,
        ),
        call_ensures(
            KeyCodec::workspace_barrier_record_key,
            (codec, workspace_id, request_id),
            receipt_key,
        ),
    ensures
        closed <==> walk@.phase is Closed,
        closed <==> read is Nothing,
        walk@.phase is Current ==> (read matches GraphRead::Head(key) && contents(key) == contents(
            head_key,
        )),
        walk@.phase matches WalkPhaseModel::Version(cursor) ==> (version
            == cursor.head.workspace_version ==> (read matches GraphRead::Head(key) && contents(key)
            == contents(version_key))),
        walk@.phase matches WalkPhaseModel::Previous(cursor, _) ==> (version + 1
            == cursor.head.workspace_version ==> (read matches GraphRead::Head(key) && contents(key)
            == contents(version_key))),
        walk@.phase matches WalkPhaseModel::Receipt(cursor) ==> (cursor.last_barrier_request_id
            == Some(request_id@) ==> (read matches GraphRead::Receipt(key) && contents(key)
            == contents(receipt_key))),
        walk@.phase matches WalkPhaseModel::Operation(cursor, _) ==> (
        cursor.last_barrier_request_id matches Some(id) ==> (
        cursor.last_barrier_request_digest matches Some(asked) ==> (read matches GraphRead::Operation(
            key,
            digest,
        ) && key.workspace_id@ == workspace_id@ && key.kind == 4 && key.request_id@ == id && digest@
            == asked))),
{
}

/// A receipt stands in the graph below a head exactly if its version is one that the graph has,
/// in its workspace, and the row of that version is the receipt's own head and request.
pub proof fn law_receipt_stands_at_its_version(
    receipt: &BarrierDurabilityReceipt,
    current: &WorkspaceHeadRecord,
    row: &WorkspaceHeadRecord,
    within: bool,
    valid: Result<(), BarrierError>,
    at_row: Result<(), BarrierError>,
    at_none: Result<(), BarrierError>,
)
    requires
        call_ensures(is_within_graph, (receipt, current), within),
        call_ensures(validate_head_record, (row,), valid),
        call_ensures(validate_receipt_in_head_graph, (receipt, current, Some(row)), at_row),
        call_ensures(validate_receipt_in_head_graph, (receipt, current, None), at_none),
    ensures
        within <==> 1 <= receipt.head.workspace_version <= current.head.workspace_version
            && receipt.workspace_id@ == current.head.workspace_id@,
        at_none matches Err(BarrierError::Corrupt),
        !within ==> (at_row matches Err(BarrierError::Corrupt)),
        within && valid is Err ==> at_row == valid,
        within && valid is Ok ==> {
            let own = row.head@ == receipt.head@ && (row.last_barrier_request_id matches Some(id)
                && id@ == receipt.request_id@) && (row.last_barrier_request_digest matches Some(
                digest,
            ) && digest@ == receipt.request_digest@);
            &&& own ==> at_row is Ok
            &&& !own ==> (at_row matches Err(BarrierError::Corrupt))
        },
{
}

/// A lookup begins exactly with a valid command, at the command's own receipt.
pub proof fn law_lookup_begins_with_the_receipt(
    command: BarrierCommand,
    valid: Result<(), BarrierError>,
    lookup: ReceiptLookup,
)
    requires
        call_ensures(validate_command, (&command,), valid),
        call_ensures(ReceiptLookup::start, (command,), lookup),
    ensures
        lookup.command_view() == command@,
        valid is Ok ==> lookup.phase_view() is Receipt,
        valid matches Err(e) ==> lookup.phase_view() == LookupPhaseModel::Done(Err(e)),
{
}

/// A receipt that is found goes on only as the answer to the command; without one the
/// lookup goes on as well. Both ways the genesis comes next.
pub proof fn law_lookup_checks_the_receipt(
    lookup: ReceiptLookup,
    command: &BarrierCommand,
    receipt: BarrierDurabilityReceipt,
    answers: Result<(), BarrierError>,
    found: ReceiptLookup,
    missing: ReceiptLookup,
)
    requires
        lookup.phase_view() is Receipt,
        command@ == lookup.command_view(),
        call_ensures(ensure_receipt_matches_command, (&receipt, command), answers),
        call_ensures(
            ReceiptLookup::advance,
            (lookup, LookupEvent::Row(Ok(GraphRow::Receipt(Some(receipt))))),
            found,
        ),
        call_ensures(
            ReceiptLookup::advance,
            (lookup, LookupEvent::Row(Ok(GraphRow::Receipt(None)))),
            missing,
        ),
    ensures
        missing.phase_view() == LookupPhaseModel::Genesis(None),
        answers is Ok ==> found.phase_view() == LookupPhaseModel::Genesis(Some(receipt@)),
        answers matches Err(e) ==> found.phase_view() == LookupPhaseModel::Done(Err(e)),
{
}

/// The whole graph is read from a genesis that names its workspace, and the latest barrier
/// may still be awaited.
pub proof fn law_lookup_walks_from_the_genesis(
    lookup: ReceiptLookup,
    reply: Result<BarrierGenesis, BarrierError>,
    next: ReceiptLookup,
)
    requires
        call_ensures(ReceiptLookup::advance, (lookup, LookupEvent::Genesis(reply)), next),
    ensures
        lookup.phase_view() matches LookupPhaseModel::Genesis(receipt) ==> {
            &&& reply matches Err(e) ==> next.phase_view() == LookupPhaseModel::Done(Err(e))
            &&& reply matches Ok(genesis) ==> {
                &&& is_identifier(genesis.workspace_id@) ==> next.phase_view()
                    == LookupPhaseModel::Graph(
                    receipt,
                    HeadGraphWalkModel {
                        genesis: genesis@,
                        allow_latest_effect_dispatched: true,
                        current: None,
                        phase: WalkPhaseModel::Current,
                    },
                )
                &&& !is_identifier(genesis.workspace_id@) ==> next.phase_view()
                    == LookupPhaseModel::Done(Err(BarrierError::Corrupt))
            }
        },
        !(lookup.phase_view() is Genesis) ==> next.phase_view() == lookup.phase_view(),
{
    lemma_identifiers();
}

/// Each row of the graph takes the lookup as far as it takes the walk. Once the walk is
/// closed, a receipt in the graph is looked for at its version, and without one the
/// operation is asked for.
pub proof fn law_lookup_goes_as_far_as_the_walk(
    lookup: ReceiptLookup,
    walk: HeadGraphWalk,
    row: GraphRow,
    walked: Result<HeadGraphWalk, BarrierError>,
    next: ReceiptLookup,
)
    requires
        call_ensures(HeadGraphWalk::advance, (walk, row), walked),
        call_ensures(ReceiptLookup::advance, (lookup, LookupEvent::Row(Ok(row))), next),
    ensures
        lookup.phase_view() matches LookupPhaseModel::Graph(receipt, at) ==> (at == walk@ ==> {
            &&& walked matches Err(e) ==> next.phase_view() == LookupPhaseModel::Done(Err(e))
            &&& walked matches Ok(w) ==> {
                &&& !(w@.phase is Closed) ==> next.phase_view() == LookupPhaseModel::Graph(
                    receipt,
                    w@,
                )
                &&& w@.phase is Closed && receipt is None ==> next.phase_view() is Operation
                &&& w@.phase is Closed ==> (w@.current matches Some(current) ==> (
                receipt matches Some(r) ==> {
                    let within = 1 <= r.head.workspace_version <= current.head.workspace_version
                        && r.workspace_id == current.head.workspace_id;
                    &&& within ==> next.phase_view() == LookupPhaseModel::Version(r, current)
                    &&& !within ==> next.phase_view() == LookupPhaseModel::Done(
                        Err(BarrierError::Corrupt),
                    )
                }))
            }
        }),
{
}

/// That there is no receipt is said exactly of an operation that has not succeeded; one
/// that has is corrupt without its receipt.
pub proof fn law_no_receipt_of_an_unfinished_operation(
    lookup: ReceiptLookup,
    operation: WorkspaceOperationLookup,
    next: ReceiptLookup,
)
    requires
        lookup.phase_view() is Operation,
        call_ensures(
            ReceiptLookup::advance,
            (lookup, LookupEvent::Row(Ok(GraphRow::Operation(operation)))),
            next,
        ),
    ensures
        ({
            let succeeded = operation matches WorkspaceOperationLookup::Known(record)
                && record.state is Succeeded;
            &&& succeeded ==> next.phase_view() == LookupPhaseModel::Done(
                Err(BarrierError::Corrupt),
            )
            &&& !succeeded ==> next.phase_view() == LookupPhaseModel::Done(Ok(None))
        }),
{
}

/// A receipt is handed out exactly if it stands at its version.
pub proof fn law_receipt_is_handed_out_at_its_version(
    lookup: ReceiptLookup,
    receipt: &BarrierDurabilityReceipt,
    current: &WorkspaceHeadRecord,
    row: Option<WorkspaceHeadRecord>,
    within: bool,
    stands: Result<(), BarrierError>,
    next: ReceiptLookup,
)
    requires
        lookup.phase_view() == LookupPhaseModel::Version(receipt@, current@),
        call_ensures(is_within_graph, (receipt, current), within),
        within,
        call_ensures(
            validate_receipt_in_head_graph,
            (
                receipt,
                current,
                match row {
                    Some(r) => Some(&r),
                    None => None,
                },
            ),
            stands,
        ),
        call_ensures(
            ReceiptLookup::advance,
            (lookup, LookupEvent::Row(Ok(GraphRow::Head(row)))),
            next,
        ),
    ensures
        stands is Ok ==> next.phase_view() == LookupPhaseModel::Done(Ok(Some(receipt@))),
        stands matches Err(e) ==> next.phase_view() == LookupPhaseModel::Done(Err(e)),
{
}

/// A row that could not be read is the answer of a lookup that waits for one; and once
/// there is an answer it is told, and nothing changes it.
pub proof fn law_lookup_fails_with_its_read(
    lookup: ReceiptLookup,
    error: BarrierError,
    event: LookupEvent,
    next: ReceiptLookup,
    after: ReceiptLookup,
    told: Option<Result<Option<BarrierDurabilityReceipt>, BarrierError>>,
)
    requires
        call_ensures(ReceiptLookup::advance, (lookup, LookupEvent::Row(Err(error))), next),
        call_ensures(ReceiptLookup::advance, (lookup, event), after),
        call_ensures(ReceiptLookup::into_result, (lookup,), told),
    ensures
        lookup.phase_view() is Receipt || lookup.phase_view() is Graph
            || lookup.phase_view() is Operation || lookup.phase_view() is Version
            ==> next.phase_view() == LookupPhaseModel::Done(Err(error)),
        lookup.phase_view() is Genesis ==> next.phase_view() == lookup.phase_view(),
        after.command_view() == lookup.command_view(),
        lookup.phase_view() is Done ==> after.phase_view() == lookup.phase_view(),
        told is Some <==> lookup.phase_view() is Done,
        told matches Some(Err(e)) ==> lookup.phase_view() == LookupPhaseModel::Done(Err(e)),
        (told matches Some(Ok(None))) ==> lookup.phase_view() == LookupPhaseModel::Done(Ok(None)),
        told matches Some(Ok(Some(r))) ==> lookup.phase_view() == LookupPhaseModel::Done(
            Ok(Some(r@)),
        ),
{
}

/// A lookup asks for what it waits for: its own receipt, the genesis, its own operation, and
/// the row of the receipt's version.
pub proof fn law_lookup_asks_for_its_own_rows(
    lookup: ReceiptLookup,
    command: &BarrierCommand,
    codec: &KeyCodec,
    workspace_id: &str,
    request_id: &str,
    receipt_key: Bytes,
    version: u64,
    version_key: Bytes,
    action: LookupAction,
)
    requires
        command@ == lookup.command_view(),
        workspace_id@ == command.operation.workspace_id@,
        request_id@ == command.operation.request_id@,
        call_ensures(ReceiptLookup::action, (&lookup,), action),
        call_ensures(
            KeyCodec::workspace_barrier_record_key,
            (codec, workspace_id, request_id),
            receipt_key,
        ),
        call_ensures(
            KeyCodec::workspace_head_version_key,
            (codec, workspace_id, version),
            version_key,
        ),
    ensures
        lookup.phase_view() is Receipt ==> (action matches LookupAction::Read(
            GraphRead::Receipt(key),
        ) && contents(key) == contents(receipt_key)),
        lookup.phase_view() is Genesis ==> action is ReadGenesis,
        lookup.phase_view() is Operation ==> (action matches LookupAction::Read(
            GraphRead::Operation(key, digest),
        ) && key@ == command.operation@ && digest@ == command.request_digest@),
        lookup.phase_view() matches LookupPhaseModel::Version(receipt, _) ==> (
        receipt.workspace_id == workspace_id@ && receipt.head.workspace_version == version ==> (
        action matches LookupAction::Read(GraphRead::Head(key)) && contents(key) == contents(
            version_key,
        ))),
        lookup.phase_view() is Graph ==> action is Read,
        lookup.phase_view() is Done <==> action is Finish,
{
}

/// A request begins with the look for its receipt. A receipt that is there is the answer,
/// and none lets it begin its operation.
pub proof fn law_request_looks_for_its_receipt_first(
    input: VerifiedBarrierInput,
    run: BarrierRun,
    reply: Result<Option<BarrierDurabilityReceipt>, BarrierError>,
    next: BarrierRun,
)
    requires
        call_ensures(BarrierRun::start, (input,), run),
        call_ensures(BarrierRun::advance, (run, RunEvent::Receipt(reply)), next),
    ensures
        run.command_view() == input@,
        run.phase_view() is LookUp,
        (reply matches Ok(None)) ==> next.phase_view() is Begin,
        reply matches Ok(Some(receipt)) ==> next.phase_view() == RunPhaseModel::Done(
            Ok(MaterializeModel::Materialized(receipt@)),
        ),
        reply matches Err(e) ==> next.phase_view() == RunPhaseModel::Done(Err(e)),
{
}

/// An operation that is pending is claimed, one that was dispatched is read back, and one
/// that has its outcome is the answer.
pub proof fn law_request_goes_by_its_operation(
    run: BarrierRun,
    reply: Result<WorkspaceOperationRecord, BarrierError>,
    next: BarrierRun,
)
    requires
        run.phase_view() is Begin,
        call_ensures(BarrierRun::advance, (run, RunEvent::Begun(reply)), next),
    ensures
        reply matches Err(e) ==> next.phase_view() == RunPhaseModel::Done(Err(e)),
        reply matches Ok(record) ==> {
            &&& record.state is Pending ==> next.phase_view() is Claim
            &&& record.state is EffectDispatched ==> next.phase_view() is ReadBack
            &&& record.state is Succeeded || record.state is Failed || record.state is NotCommitted
                ==> next.phase_view() == RunPhaseModel::Done(
                Ok(MaterializeModel::AlreadyTerminal(record@)),
            )
        },
{
}

/// The call whose claim was installed dispatches the effect. One that found another claim
/// reads back, and one that found the outcome has its answer. A lost answer is looked up, a
/// conflict read back, and any other failure is the answer.
pub proof fn law_request_goes_by_its_claim(
    run: BarrierRun,
    reply: Result<EffectDispatchClaim, WorkspaceOperationError>,
    next: BarrierRun,
)
    requires
        run.phase_view() is Claim,
        call_ensures(BarrierRun::advance, (run, RunEvent::Claimed(reply)), next),
    ensures
        (reply matches Ok(EffectDispatchClaim::Installed(_))) ==> next.phase_view() is Dispatch,
        reply matches Ok(EffectDispatchClaim::Existing(record)) ==> {
            let terminal = record.state is Succeeded || record.state is Failed
                || record.state is NotCommitted;
            &&& terminal ==> next.phase_view() == RunPhaseModel::Done(
                Ok(MaterializeModel::AlreadyTerminal(record@)),
            )
            &&& !terminal ==> next.phase_view() is ReadBack
        },
        reply matches Err(error) ==> {
            &&& error is CommitOutcomeUnknown ==> next.phase_view() is Recover
            &&& error is RequestConflict ==> next.phase_view() is ReadBack
            &&& error is InvalidIdentity ==> next.phase_view() == RunPhaseModel::Done(
                Err(BarrierError::Invalid),
            )
            &&& error is TerminalImmutable ==> next.phase_view() == RunPhaseModel::Done(
                Err(BarrierError::Conflict),
            )
            &&& error is CorruptRecord ==> next.phase_view() == RunPhaseModel::Done(
                Err(BarrierError::Corrupt),
            )
            &&& error is Storage ==> next.phase_view() == RunPhaseModel::Done(
                Err(BarrierError::Storage),
            )
        },
{
}

/// A claim whose answer was lost is the request's own exactly if it is found as it was made;
/// the effect is then dispatched, and otherwise read back.
pub proof fn law_lost_claim_is_recognized(
    run: BarrierRun,
    reply: Result<WorkspaceOperationLookup, WorkspaceOperationError>,
    next: BarrierRun,
)
    requires
        run.phase_view() is Recover,
        call_ensures(BarrierRun::advance, (run, RunEvent::Found(reply)), next),
    ensures
        reply matches Ok(found) ==> {
            let own = found matches WorkspaceOperationLookup::Known(record) && (
            record.state matches WorkspaceOperationState::EffectDispatched(claim) && contents(claim)
                == run.claim_view());
            &&& own ==> next.phase_view() is Dispatch
            &&& !own ==> next.phase_view() is ReadBack
        },
        reply is Err ==> (next.phase_view() matches RunPhaseModel::Done(Err(_))),
{
}

/// The receipt that the writer made is the answer. A lost reply is read back; then a receipt
/// that is there is the answer, and without one the outcome is unknown.
pub proof fn law_request_ends_with_its_receipt(
    run: BarrierRun,
    cut: Result<BarrierDurabilityReceipt, BarrierError>,
    found: Result<Option<BarrierDurabilityReceipt>, BarrierError>,
    after_cut: BarrierRun,
    after_found: BarrierRun,
)
    requires
        call_ensures(BarrierRun::advance, (run, RunEvent::Cut(cut)), after_cut),
        call_ensures(BarrierRun::advance, (run, RunEvent::Receipt(found)), after_found),
    ensures
        run.phase_view() is Dispatch ==> {
            &&& cut matches Ok(receipt) ==> after_cut.phase_view() == RunPhaseModel::Done(
                Ok(MaterializeModel::Materialized(receipt@)),
            )
            &&& (cut matches Err(BarrierError::CommitOutcomeUnknown))
                ==> after_cut.phase_view() is ReadBack
            &&& cut matches Err(e) ==> (!(e is CommitOutcomeUnknown) ==> after_cut.phase_view()
                == RunPhaseModel::Done(Err(e)))
        },
        run.phase_view() is ReadBack ==> {
            &&& found matches Ok(Some(receipt)) ==> after_found.phase_view()
                == RunPhaseModel::Done(Ok(MaterializeModel::Materialized(receipt@)))
            &&& (found matches Ok(None)) ==> after_found.phase_view() == RunPhaseModel::Done(
                Err(BarrierError::CommitOutcomeUnknown),
            )
            &&& found matches Err(e) ==> after_found.phase_view() == RunPhaseModel::Done(Err(e))
        },
{
}

/// A request stays what it is: no event changes its command, claim or identity, and one that
/// it does not wait for leaves it where it is. It asks for what it waits for, the writer for
/// exactly its command under its claim, and has an answer exactly once it is done.
pub proof fn law_request_waits_for_its_own_answer(
    run: BarrierRun,
    event: RunEvent,
    next: BarrierRun,
    action: RunAction,
    told: Option<Result<BarrierMaterializeResult, BarrierError>>,
)
    requires
        call_ensures(BarrierRun::advance, (run, event), next),
        call_ensures(BarrierRun::action, (&run,), action),
        call_ensures(BarrierRun::into_result, (run,), told),
    ensures
        next.command_view() == run.command_view(),
        next.claim_view() == run.claim_view(),
        next.barrier_id() == run.barrier_id(),
        ({
            let awaited = match event {
                RunEvent::Receipt(_) => run.phase_view() is LookUp || run.phase_view() is ReadBack,
                RunEvent::Begun(_) => run.phase_view() is Begin,
                RunEvent::Claimed(_) => run.phase_view() is Claim,
                RunEvent::Found(_) => run.phase_view() is Recover,
                RunEvent::Cut(_) => run.phase_view() is Dispatch,
            };
            !awaited ==> next.phase_view() == run.phase_view()
        }),
        action is LookUpReceipt <==> run.phase_view() is LookUp || run.phase_view() is ReadBack,
        action is Begin <==> run.phase_view() is Begin,
        action is Claim <==> run.phase_view() is Claim,
        action is FindOperation <==> run.phase_view() is Recover,
        action is Dispatch <==> run.phase_view() is Dispatch,
        action is Finish <==> run.phase_view() is Done,
        action matches RunAction::Dispatch(request) ==> request.command@ == run.command_view()
            && contents(request.effect_claim) == run.claim_view() && request.barrier_id@
            == run.barrier_id(),
        told is Some <==> run.phase_view() is Done,
        told matches Some(Ok(result)) ==> run.phase_view() == RunPhaseModel::Done(Ok(result@)),
        told matches Some(Err(e)) ==> run.phase_view() == RunPhaseModel::Done(Err(e)),
{
}

/// A command is sealed exactly if it is valid, and a terminal exactly if its receipt is
/// valid and its bytes are there. Each holds what it was made of.
pub proof fn law_sealed_inputs_are_valid(
    command: BarrierCommand,
    receipt: BarrierDurabilityReceipt,
    bytes: Bytes,
    valid_command: Result<(), BarrierError>,
    valid_receipt: Result<(), BarrierError>,
    input: Result<VerifiedBarrierInput, BarrierError>,
    terminal: Result<VerifiedBarrierTerminal, BarrierError>,
)
    requires
        call_ensures(validate_command, (&command,), valid_command),
        call_ensures(validate_receipt, (&receipt,), valid_receipt),
        call_ensures(VerifiedBarrierInput::for_test, (command,), input),
        call_ensures(VerifiedBarrierTerminal::for_test, (receipt, bytes), terminal),
    ensures
        valid_command matches Err(e) ==> (input matches Err(error) && error == e),
        valid_command is Ok ==> (input matches Ok(sealed) && sealed@ == command@),
        contents(bytes).len() == 0 ==> (terminal matches Err(BarrierError::Invalid)),
        contents(bytes).len() > 0 ==> {
            &&& valid_receipt matches Err(e) ==> (terminal matches Err(error) && error == e)
            &&& valid_receipt is Ok ==> (terminal matches Ok(sealed) && sealed.receipt()
                == receipt@ && sealed.bytes() == contents(bytes))
        },
{
}

/// An outcome is accepted for a command exactly if its receipt answers it; before it is
/// completed, that receipt must be the durable one.
pub proof fn law_outcome_completes_its_durable_receipt(
    store: &WorkspaceBarrierStore,
    verified: &VerifiedBarrierInput,
    terminal: VerifiedBarrierTerminal,
    receipt: &BarrierDurabilityReceipt,
    command: &BarrierCommand,
    answers: Result<(), BarrierError>,
    checked: Result<(), BarrierError>,
)
    requires
        receipt@ == terminal.receipt(),
        command@ == verified@,
        call_ensures(ensure_receipt_matches_command, (receipt, command), answers),
        call_ensures(WorkspaceBarrierStore::check_terminal, (store, verified, &terminal), checked),
    ensures
        checked == answers,
{
}

/// The operation of a barrier begins as the ledger begins it, under the command's own key and
/// digest; a failure of the ledger is told as the barrier's.
pub proof fn law_barrier_begins_in_the_ledger(
    store: &WorkspaceBarrierStore,
    verified: &VerifiedBarrierInput,
    command: &BarrierCommand,
    stored: Option<&[u8]>,
    begun: Result<LedgerStep, WorkspaceOperationError>,
    told: BarrierError,
    result: Result<LedgerStep, BarrierError>,
)
    requires
        command@ == verified@,
        call_ensures(WorkspaceBarrierStore::materialize, (store, verified, stored), result),
        call_ensures(
            WorkspaceOperationLedger::begin,
            (&store.ledger(), &command.operation, command.request_digest, stored),
            begun,
        ),
        begun matches Err(e) ==> call_ensures(
            <BarrierError as From<WorkspaceOperationError>>::from,
            (e,),
            told,
        ),
    ensures
        begun matches Ok(step) ==> (result matches Ok(s) && same_step(step, s)),
        begun is Err ==> (result matches Err(error) && error == told),
{
}

/// A barrier claims its effect as the ledger does, under the command's own key and digest,
/// with the candidate's own claim.
pub proof fn law_barrier_claims_in_the_ledger(
    store: &WorkspaceBarrierStore,
    verified: &VerifiedBarrierInput,
    command: &BarrierCommand,
    candidate: &BarrierCandidate,
    stored: Option<&[u8]>,
    claimed: Result<LedgerStep, WorkspaceOperationError>,
    result: Result<LedgerStep, WorkspaceOperationError>,
)
    requires
        command@ == verified@,
        call_ensures(
            WorkspaceBarrierStore::claim,
            (store, verified, candidate, stored),
            result,
        ),
        call_ensures(
            WorkspaceOperationLedger::claim_effect_dispatch,
            (
                &store.ledger(),
                &command.operation,
                command.request_digest,
                candidate.claim,
                stored,
            ),
            claimed,
        ),
    ensures
        claimed matches Ok(step) ==> (result matches Ok(s) && same_step(step, s)),
        claimed matches Err(e) ==> (result matches Err(error) && error@ == e@),
{
}

/// A barrier is completed exactly by an outcome whose receipt answers it and is the durable
/// one, as the ledger completes the effect under that receipt's claim. Without a durable
/// receipt the outcome is unknown, and another one is a conflict.
pub proof fn law_barrier_completes_in_the_ledger(
    store: &WorkspaceBarrierStore,
    verified: &VerifiedBarrierInput,
    command: &BarrierCommand,
    terminal: VerifiedBarrierTerminal,
    bytes: Bytes,
    durable: Option<BarrierDurabilityReceipt>,
    stored: Option<&[u8]>,
    answers: Result<(), BarrierError>,
    completed: Result<LedgerStep, WorkspaceOperationError>,
    told: BarrierError,
    result: Result<LedgerStep, BarrierError>,
)
    requires
        command@ == verified@,
        contents(bytes) == terminal.bytes(),
        call_ensures(WorkspaceBarrierStore::check_terminal, (store, verified, &terminal), answers),
        call_ensures(
            WorkspaceBarrierStore::complete,
            (store, verified, terminal, durable, stored),
            result,
        ),
        durable matches Some(receipt) ==> call_ensures(
            WorkspaceOperationLedger::complete_claimed_effect,
            (
                &store.ledger(),
                &command.operation,
                command.request_digest,
                &receipt.effect_claim,
                WorkspaceTerminalOutcome::Succeeded(bytes),
                stored,
            ),
            completed,
        ),
        completed matches Err(e) ==> call_ensures(
            <BarrierError as From<WorkspaceOperationError>>::from,
            (e,),
            told,
        ),
    ensures
        answers matches Err(e) ==> (result matches Err(error) && error == e),
        answers is Ok && durable is None ==> (result matches Err(
            BarrierError::CommitOutcomeUnknown,
        )),
        answers is Ok ==> (durable matches Some(receipt) ==> {
            &&& receipt@ != terminal.receipt() ==> (result matches Err(BarrierError::Conflict))
            &&& receipt@ == terminal.receipt() ==> {
                &&& completed matches Ok(step) ==> (result matches Ok(s) && same_step(step, s))
                &&& completed is Err ==> (result matches Err(error) && error == told)
            }
        }),
{
}

} // verus!
