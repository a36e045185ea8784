//! Which row lets a walk go on, and which one ends it.

use super::digests::head_digest;
use super::digests::initial_head;
use super::digests::next_head;
use super::graph::GraphRow;
use super::graph::HeadGraphWalk;
use super::graph::HeadGraphWalkModel;
use super::graph::WalkPhaseModel;
use super::rules::command_from_receipt;
use super::rules::genesis_matches;
use super::rules::validate_command;
use super::rules::validate_head_record;
use super::rules::validate_receipt;
use super::types::BarrierCommand;
use super::types::BarrierDurabilityReceipt;
use super::types::BarrierError;
use super::types::BarrierGenesis;
use super::types::HeadDigest;
use super::types::WorkspaceHeadRecord;
use vstd::prelude::*;

verus! {

/// The row of a head's own version lets a walk go on exactly if it is valid and is that head,
/// and the head is the workspace's first one or was made by a barrier. The walk is closed at
/// the first head, and asks for the receipt of the barrier at any other.
pub proof fn law_walk_passes_the_head_at_its_version(
    walk: HeadGraphWalk,
    genesis: BarrierGenesis,
    first: WorkspaceHeadRecord,
    cursor: WorkspaceHeadRecord,
    row: WorkspaceHeadRecord,
    valid: Result<(), BarrierError>,
    result: Result<HeadGraphWalk, BarrierError>,
)
    requires
        walk@.genesis == genesis@,
        walk@.phase == WalkPhaseModel::Version(cursor@),
        call_ensures(initial_head, (&genesis,), first),
        call_ensures(validate_head_record, (&row,), valid),
        call_ensures(HeadGraphWalk::advance, (walk, GraphRow::Head(Some(row))), result),
    ensures
        valid matches Err(e) ==> (result matches Err(error) && error == e),
        valid is Ok ==> (result is Ok <==> row@ == cursor@ && (if cursor.head.workspace_version
            == 1 {
            cursor@ == first@
        } else {
            cursor.last_barrier_request_id is Some && cursor.last_barrier_request_digest is Some
        })),
        valid is Ok ==> (result matches Err(error) ==> error == BarrierError::Corrupt),
        result matches Ok(next) ==> next@ == (HeadGraphWalkModel {
            phase: if cursor.head.workspace_version == 1 {
                WalkPhaseModel::Closed
            } else {
                WalkPhaseModel::Receipt(cursor@)
            },
            ..walk@
        }),
{
}

/// A receipt lets a walk go on exactly if it is valid and is that of the barrier that made the
/// head: it tells the same head, and the head notes its request.
pub proof fn law_walk_passes_the_receipt_of_the_head(
    walk: HeadGraphWalk,
    cursor: WorkspaceHeadRecord,
    receipt: BarrierDurabilityReceipt,
    valid: Result<(), BarrierError>,
    result: Result<HeadGraphWalk, BarrierError>,
)
    requires
        walk@.phase == WalkPhaseModel::Receipt(cursor@),
        call_ensures(validate_receipt, (&receipt,), valid),
        call_ensures(HeadGraphWalk::advance, (walk, GraphRow::Receipt(Some(receipt))), result),
    ensures
        valid matches Err(e) ==> (result matches Err(error) && error == e),
        valid is Ok ==> (result is Ok <==> {
            &&& receipt.head@ == cursor.head@
            &&& cursor.last_barrier_request_id matches Some(id) && id@ == receipt.request_id@
            &&& cursor.last_barrier_request_digest matches Some(digest) && digest@
                == receipt.request_digest@
        }),
        valid is Ok ==> (result matches Err(error) ==> error == BarrierError::Corrupt),
        result matches Ok(next) ==> next@ == (HeadGraphWalkModel {
            phase: WalkPhaseModel::Operation(cursor@, receipt@),
            ..walk@
        }),
{
}

/// The head before lets a walk go on exactly if it is valid and the receipt leads from it: it
/// is the head that the receipt's command expected, the command is valid and of the genesis,
/// and what the barrier makes of it is the head that the walk came from.
pub proof fn law_walk_passes_the_head_that_was_expected(
    walk: HeadGraphWalk,
    genesis: BarrierGenesis,
    cursor: WorkspaceHeadRecord,
    receipt: BarrierDurabilityReceipt,
    previous: WorkspaceHeadRecord,
    valid: Result<(), BarrierError>,
    made_valid: Result<(), BarrierError>,
    digest: HeadDigest,
    command: BarrierCommand,
    valid_command: Result<(), BarrierError>,
    own: Result<(), BarrierError>,
    made: Result<WorkspaceHeadRecord, BarrierError>,
    result: Result<HeadGraphWalk, BarrierError>,
)
    requires
        walk@.genesis == genesis@,
        walk@.phase == WalkPhaseModel::Previous(cursor@, receipt@),
        call_ensures(validate_head_record, (&previous,), valid),
        call_ensures(validate_receipt, (&receipt,), made_valid),
        call_ensures(head_digest, (&previous.head,), digest),
        call_ensures(command_from_receipt, (&receipt,), command),
        call_ensures(validate_command, (&command,), valid_command),
        call_ensures(genesis_matches, (&genesis, &command), own),
        call_ensures(
            next_head,
            (
                &previous,
                &command,
                receipt.included_write_sequence,
                receipt.zerofs_writer_epoch,
                receipt.zerofs_manifest_id,
                receipt.zerofs_durable_sequence,
            ),
            made,
        ),
        made_valid is Ok,
        receipt.head@ == cursor.head@,
        cursor.last_barrier_request_id matches Some(id) && id@ == receipt.request_id@,
        cursor.last_barrier_request_digest matches Some(noted) && noted@ == receipt.request_digest@,
        call_ensures(HeadGraphWalk::advance, (walk, GraphRow::Head(Some(previous))), result),
    ensures
        valid matches Err(e) ==> (result matches Err(error) && error == e),
        valid is Ok ==> (result is Ok <==> {
            &&& digest.0@ == receipt.expected_head_digest.0@
            &&& valid_command is Ok
            &&& own is Ok
            &&& made matches Ok(next) && next@ == cursor@
        }),
        valid is Ok ==> (result matches Err(error) ==> error == BarrierError::Corrupt),
        result matches Ok(next) ==> next@ == (HeadGraphWalkModel {
            phase: WalkPhaseModel::Version(previous@),
            ..walk@
        }),
{
}

} // verus!
