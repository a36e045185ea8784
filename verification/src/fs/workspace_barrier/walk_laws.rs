//! What barriers make, the walk over a workspace's heads accepts.

use super::digests::first_head;
use super::digests::head_digest;
use super::digests::head_sha256;
use super::digests::next_head;
use super::digests::next_head_result;
use super::digests::BarrierCut;
use super::graph::walk_start;
use super::graph::walk_step;
use super::graph::GraphRow;
use super::graph::GraphRowModel;
use super::graph::HeadGraphWalk;
use super::graph::HeadGraphWalkModel;
use super::graph::WalkPhaseModel;
use super::laws::law_next_head_extends;
use super::laws::walk_run;
use super::rules::ensure_receipt_matches_command;
use super::rules::genesis_matches;
use super::rules::head_fault;
use super::rules::of_genesis;
use super::rules::receipt_fault;
use super::rules::valid_command;
use super::rules::validate_command;
use super::rules::validate_head_record;
use super::rules::validate_receipt;
use super::types::BarrierCommand;
use super::types::BarrierCommandModel;
use super::types::BarrierDurabilityReceipt;
use super::types::BarrierDurabilityReceiptModel;
use super::types::BarrierError;
use super::types::BarrierGenesis;
use super::types::BarrierGenesisModel;
use super::types::HeadDigest;
use super::types::WorkspaceHeadRecord;
use super::types::WorkspaceHeadRecordModel;
use crate::fs::workspace_operation::types::OperationRecordModel;
use crate::fs::workspace_operation::types::WorkspaceOperationLookup;
use crate::fs::workspace_operation::types::WorkspaceOperationRecord;
use vstd::prelude::*;

verus! {

/// What a barrier makes, the walk accepts. Where the head `next` follows `previous` by a
/// valid command of the genesis, which expected `previous`, and the valid receipt of that
/// command reports that head and its cut, a walk that is at `next` goes on to `previous`:
/// over the row of `next`, the receipt, the operation, which succeeded, and the row of
/// `previous`.
pub proof fn law_walk_follows_every_barrier(
    genesis: BarrierGenesis,
    previous: WorkspaceHeadRecord,
    command: BarrierCommand,
    receipt: BarrierDurabilityReceipt,
    operation: WorkspaceOperationRecord,
    next: WorkspaceHeadRecord,
    digest: HeadDigest,
    walk: HeadGraphWalk,
    steps: (
        Result<HeadGraphWalk, BarrierError>,
        Result<HeadGraphWalk, BarrierError>,
        Result<HeadGraphWalk, BarrierError>,
        Result<HeadGraphWalk, BarrierError>,
    ),
)
    requires
        call_ensures(validate_command, (&command,), Ok(())),
        call_ensures(genesis_matches, (&genesis, &command), Ok(())),
        call_ensures(head_digest, (&previous.head,), digest),
        command.expected_head_digest@ == digest@,
        call_ensures(validate_head_record, (&previous,), Ok(())),
        call_ensures(validate_head_record, (&next,), Ok(())),
        call_ensures(
            next_head,
            (
                &previous,
                &command,
                receipt.included_write_sequence,
                receipt.zerofs_writer_epoch,
                receipt.zerofs_manifest_id,
                receipt.zerofs_durable_sequence,
            ),
            Ok(next),
        ),
        call_ensures(validate_receipt, (&receipt,), Ok(())),
        call_ensures(ensure_receipt_matches_command, (&receipt, &command), Ok(())),
        receipt.head@ == next.head@,
        operation.state is Succeeded,
        walk@.genesis == genesis@,
        walk@.phase == WalkPhaseModel::Version(next@),
        call_ensures(HeadGraphWalk::advance, (walk, GraphRow::Head(Some(next))), steps.0),
        steps.0 matches Ok(w) ==> call_ensures(
            HeadGraphWalk::advance,
            (w, GraphRow::Receipt(Some(receipt))),
            steps.1,
        ),
        steps.1 matches Ok(w) ==> call_ensures(
            HeadGraphWalk::advance,
            (w, GraphRow::Operation(WorkspaceOperationLookup::Known(operation))),
            steps.2,
        ),
        steps.2 matches Ok(w) ==> call_ensures(
            HeadGraphWalk::advance,
            (w, GraphRow::Head(Some(previous))),
            steps.3,
        ),
    ensures
        steps.0 is Ok && steps.1 is Ok && steps.2 is Ok,
        steps.3 matches Ok(end) && end@ == (HeadGraphWalkModel {
            phase: WalkPhaseModel::Version(previous@),
            ..walk@
        }),
{
    let barrier = Barrier {
        previous: previous@,
        command: command@,
        cut: BarrierCut {
            included_write_sequence: receipt.included_write_sequence,
            writer_epoch: receipt.zerofs_writer_epoch,
            manifest_id: receipt.zerofs_manifest_id,
            durable_sequence: receipt.zerofs_durable_sequence,
        },
        receipt: receipt@,
        operation: operation@,
        next: next@,
    };
    lemma_receipt_is_the_command(receipt@, command@);
    lemma_barrier_steps(genesis@, barrier, walk@);
}

proof fn lemma_receipt_is_the_command(
    receipt: BarrierDurabilityReceiptModel,
    command: BarrierCommandModel,
)
    requires
        valid_command(command),
        super::rules::answers(receipt, command),
    ensures
        super::rules::answered(receipt) == command,
{
}

/// A barrier that was carried through, and what is stored of it.
pub struct Barrier {
    /// The head that it started from.
    pub previous: WorkspaceHeadRecordModel,
    pub command: BarrierCommandModel,
    pub cut: BarrierCut,
    pub receipt: BarrierDurabilityReceiptModel,
    pub operation: OperationRecordModel,
    /// The head that it made.
    pub next: WorkspaceHeadRecordModel,
}

/// A barrier of the genesis was carried through: its command is valid and expected the
/// head that it started from, its cut gives the head that it made, its receipt is valid and
/// reports command, cut and head, and its operation succeeded.
pub open spec fn carried_through(genesis: BarrierGenesisModel, barrier: Barrier) -> bool {
    let Barrier { previous, command, cut, receipt, operation, next } = barrier;
    &&& valid_command(command)
    &&& of_genesis(genesis, command)
    &&& command.expected_head_digest == head_sha256(previous.head)
    &&& head_fault(previous) is None
    &&& head_fault(next) is None
    &&& next_head_result(previous, command, cut) == Ok::<WorkspaceHeadRecordModel, BarrierError>(
        next,
    )
    &&& receipt_fault(receipt) is None
    &&& receipt.workspace_id == command.operation.workspace_id
    &&& receipt.request_id == command.operation.request_id
    &&& receipt.request_digest == command.request_digest
    &&& receipt.token == command.token
    &&& receipt.expected_head_digest == command.expected_head_digest
    &&& receipt.storage_shard_id == command.storage_shard_id
    &&& receipt.storage_routing_revision == command.storage_routing_revision
    &&& receipt.head == next.head
    &&& receipt.included_write_sequence == cut.included_write_sequence
    &&& receipt.zerofs_writer_epoch == cut.writer_epoch
    &&& receipt.zerofs_manifest_id == cut.manifest_id
    &&& receipt.zerofs_durable_sequence == cut.durable_sequence
    &&& operation.state is Succeeded
}

/// The head that a run of barriers ends at. It starts at the first head.
pub open spec fn top(genesis: BarrierGenesisModel, barriers: Seq<Barrier>) -> WorkspaceHeadRecordModel {
    if barriers.len() == 0 {
        first_head(genesis)
    } else {
        barriers.last().next
    }
}

/// Every barrier of a run was carried through, and started from the head that the one
/// before it made; the first started from the first head.
pub open spec fn is_run(genesis: BarrierGenesisModel, barriers: Seq<Barrier>) -> bool
    decreases barriers.len(),
{
    barriers.len() > 0 ==> {
        &&& is_run(genesis, barriers.drop_last())
        &&& carried_through(genesis, barriers.last())
        &&& barriers.last().previous == top(genesis, barriers.drop_last())
    }
}

/// The rows of a run, from its last head down: of each head its own, and of each barrier
/// its receipt, its operation and the head that it started from.
pub open spec fn rows_of(genesis: BarrierGenesisModel, barriers: Seq<Barrier>) -> Seq<GraphRowModel>
    decreases barriers.len(),
{
    if barriers.len() == 0 {
        seq![GraphRowModel::Head(Some(first_head(genesis)))]
    } else {
        let barrier = barriers.last();
        seq![
            GraphRowModel::Head(Some(barrier.next)),
            GraphRowModel::Receipt(Some(barrier.receipt)),
            GraphRowModel::Operation(Some(barrier.operation)),
            GraphRowModel::Head(Some(barrier.previous)),
        ] + rows_of(genesis, barriers.drop_last())
    }
}

proof fn lemma_barrier_steps(
    genesis: BarrierGenesisModel,
    barrier: Barrier,
    walk: HeadGraphWalkModel,
)
    requires
        carried_through(genesis, barrier),
        walk.genesis == genesis,
        walk.phase == WalkPhaseModel::Version(barrier.next),
    ensures
        ({
            let at = |phase: WalkPhaseModel| HeadGraphWalkModel { phase, ..walk };
            let receipt = at(WalkPhaseModel::Receipt(barrier.next));
            let operation = at(WalkPhaseModel::Operation(barrier.next, barrier.receipt));
            let previous = at(WalkPhaseModel::Previous(barrier.next, barrier.receipt));
            &&& walk_step(walk, GraphRowModel::Head(Some(barrier.next))) == Ok::<
                HeadGraphWalkModel,
                BarrierError,
            >(receipt)
            &&& walk_step(receipt, GraphRowModel::Receipt(Some(barrier.receipt))) == Ok::<
                HeadGraphWalkModel,
                BarrierError,
            >(operation)
            &&& walk_step(operation, GraphRowModel::Operation(Some(barrier.operation))) == Ok::<
                HeadGraphWalkModel,
                BarrierError,
            >(previous)
            &&& walk_step(previous, GraphRowModel::Head(Some(barrier.previous))) == Ok::<
                HeadGraphWalkModel,
                BarrierError,
            >(at(WalkPhaseModel::Version(barrier.previous)))
        }),
{
    let Barrier { previous, command, cut, receipt, operation, next } = barrier;
    law_next_head_extends(previous, command, cut, next);
    lemma_receipt_is_the_command(receipt, command);
    assert(super::graph::cut_of(receipt) == cut);
}

/// One step of a walk.
#[verifier::opaque]
spec fn step(walk: HeadGraphWalkModel, row: GraphRowModel) -> Result<
    HeadGraphWalkModel,
    BarrierError,
> {
    walk_step(walk, row)
}

/// The steps of a walk over `rows`, first to last.
spec fn steps(walk: HeadGraphWalkModel, rows: Seq<GraphRowModel>) -> Result<
    HeadGraphWalkModel,
    BarrierError,
>
    decreases rows.len(),
{
    if rows.len() == 0 {
        Ok(walk)
    } else {
        match steps(walk, rows.drop_last()) {
            Ok(next) => step(next, rows.last()),
            Err(error) => Err(error),
        }
    }
}

proof fn lemma_steps_are_the_run(walk: HeadGraphWalkModel, rows: Seq<GraphRowModel>)
    ensures
        steps(walk, rows) == walk_run(walk, rows),
    decreases rows.len(),
{
    reveal(step);
    if rows.len() > 0 {
        lemma_steps_are_the_run(walk, rows.drop_last());
    }
}

/// Steps over two row sequences, one after the other.
proof fn lemma_steps_joined(
    walk: HeadGraphWalkModel,
    a: Seq<GraphRowModel>,
    b: Seq<GraphRowModel>,
)
    ensures
        steps(walk, a + b) == (match steps(walk, a) {
            Ok(next) => steps(next, b),
            Err(error) => Err(error),
        }),
    decreases b.len(),
{
    if b.len() == 0 {
        assert(a + b =~= a);
    } else {
        lemma_steps_joined(walk, a, b.drop_last());
        assert((a + b).drop_last() =~= a + b.drop_last());
    }
}

/// One step more.
proof fn lemma_steps_pushed(
    walk: HeadGraphWalkModel,
    rows: Seq<GraphRowModel>,
    row: GraphRowModel,
    at: HeadGraphWalkModel,
)
    requires
        steps(walk, rows) == Ok::<HeadGraphWalkModel, BarrierError>(at),
    ensures
        steps(walk, rows.push(row)) == step(at, row),
{
    assert(rows.push(row).drop_last() =~= rows);
}

/// Four steps.
proof fn lemma_four_steps(
    walks: Seq<HeadGraphWalkModel>,
    rows: Seq<GraphRowModel>,
)
    requires
        walks.len() == 5,
        rows.len() == 4,
        forall|i: int|
            0 <= i < 4 ==> #[trigger] step(walks[i], rows[i]) == Ok::<
                HeadGraphWalkModel,
                BarrierError,
            >(walks[i + 1]),
    ensures
        steps(walks[0], rows) == Ok::<HeadGraphWalkModel, BarrierError>(walks[4]),
{
    let none = Seq::<GraphRowModel>::empty();
    assert(step(walks[0], rows[0]) is Ok && step(walks[1], rows[1]) is Ok);
    assert(step(walks[2], rows[2]) is Ok && step(walks[3], rows[3]) is Ok);
    lemma_steps_pushed(walks[0], none, rows[0], walks[0]);
    lemma_steps_pushed(walks[0], none.push(rows[0]), rows[1], walks[1]);
    lemma_steps_pushed(walks[0], none.push(rows[0]).push(rows[1]), rows[2], walks[2]);
    lemma_steps_pushed(
        walks[0],
        none.push(rows[0]).push(rows[1]).push(rows[2]),
        rows[3],
        walks[3],
    );
    assert(rows =~= none.push(rows[0]).push(rows[1]).push(rows[2]).push(rows[3]));
}

/// The rows of one barrier.
spec fn own_rows(barrier: Barrier) -> Seq<GraphRowModel> {
    seq![
        GraphRowModel::Head(Some(barrier.next)),
        GraphRowModel::Receipt(Some(barrier.receipt)),
        GraphRowModel::Operation(Some(barrier.operation)),
        GraphRowModel::Head(Some(barrier.previous)),
    ]
}

/// Where a walk stands before and after each row of a barrier.
spec fn own_walks(barrier: Barrier, walk: HeadGraphWalkModel) -> Seq<HeadGraphWalkModel> {
    seq![
        walk,
        HeadGraphWalkModel { phase: WalkPhaseModel::Receipt(barrier.next), ..walk },
        HeadGraphWalkModel {
            phase: WalkPhaseModel::Operation(barrier.next, barrier.receipt),
            ..walk
        },
        HeadGraphWalkModel {
            phase: WalkPhaseModel::Previous(barrier.next, barrier.receipt),
            ..walk
        },
        HeadGraphWalkModel { phase: WalkPhaseModel::Version(barrier.previous), ..walk },
    ]
}

proof fn lemma_own_steps(
    genesis: BarrierGenesisModel,
    barrier: Barrier,
    walk: HeadGraphWalkModel,
    i: int,
)
    requires
        carried_through(genesis, barrier),
        walk.genesis == genesis,
        walk.phase == WalkPhaseModel::Version(barrier.next),
        0 <= i < 4,
    ensures
        step(own_walks(barrier, walk)[i], own_rows(barrier)[i]) == Ok::<
            HeadGraphWalkModel,
            BarrierError,
        >(own_walks(barrier, walk)[i + 1]),
{
    reveal(step);
    lemma_barrier_steps(genesis, barrier, walk);
}

proof fn lemma_barrier_passes(
    genesis: BarrierGenesisModel,
    barrier: Barrier,
    walk: HeadGraphWalkModel,
)
    requires
        carried_through(genesis, barrier),
        walk.genesis == genesis,
        walk.phase == WalkPhaseModel::Version(barrier.next),
    ensures
        steps(walk, own_rows(barrier)) == Ok::<HeadGraphWalkModel, BarrierError>(
            HeadGraphWalkModel { phase: WalkPhaseModel::Version(barrier.previous), ..walk },
        ),
{
    let walks = own_walks(barrier, walk);
    assert forall|i: int| 0 <= i < 4 implies #[trigger] step(walks[i], own_rows(barrier)[i]) == Ok::<
        HeadGraphWalkModel,
        BarrierError,
    >(walks[i + 1]) by {
        lemma_own_steps(genesis, barrier, walk, i);
    }
    lemma_four_steps(walks, own_rows(barrier));
}

proof fn lemma_first_head_closes(genesis: BarrierGenesisModel, walk: HeadGraphWalkModel)
    requires
        head_fault(first_head(genesis)) is None,
        walk.genesis == genesis,
        walk.phase == WalkPhaseModel::Version(first_head(genesis)),
    ensures
        step(walk, GraphRowModel::Head(Some(first_head(genesis)))) == Ok::<
            HeadGraphWalkModel,
            BarrierError,
        >(HeadGraphWalkModel { phase: WalkPhaseModel::Closed, ..walk }),
{
    reveal(step);
}

/// A walk at the last head of a run closes over the run's rows.
proof fn lemma_rows_close(
    genesis: BarrierGenesisModel,
    barriers: Seq<Barrier>,
    walk: HeadGraphWalkModel,
)
    requires
        is_run(genesis, barriers),
        head_fault(first_head(genesis)) is None,
        walk.genesis == genesis,
        walk.phase == WalkPhaseModel::Version(top(genesis, barriers)),
    ensures
        steps(walk, rows_of(genesis, barriers)) == Ok::<HeadGraphWalkModel, BarrierError>(
            HeadGraphWalkModel { phase: WalkPhaseModel::Closed, ..walk },
        ),
    decreases barriers.len(),
{
    if barriers.len() == 0 {
        let none = Seq::<GraphRowModel>::empty();
        let row = GraphRowModel::Head(Some(first_head(genesis)));
        lemma_steps_pushed(walk, none, row, walk);
        assert(rows_of(genesis, barriers) =~= none.push(row));
        lemma_first_head_closes(genesis, walk);
    } else {
        let barrier = barriers.last();
        let below = barriers.drop_last();
        lemma_barrier_passes(genesis, barrier, walk);
        lemma_steps_joined(walk, own_rows(barrier), rows_of(genesis, below));
        lemma_rows_close(
            genesis,
            below,
            HeadGraphWalkModel { phase: WalkPhaseModel::Version(barrier.previous), ..walk },
        );
        assert(rows_of(genesis, barriers) == own_rows(barrier) + rows_of(genesis, below));
    }
}

/// The rows of any run of barriers from the first head close the walk, at the head that
/// the run ends at: no history that barriers made is refused.
pub proof fn law_every_run_of_barriers_closes(
    genesis: BarrierGenesisModel,
    barriers: Seq<Barrier>,
    allow_latest_effect_dispatched: bool,
)
    requires
        is_run(genesis, barriers),
        head_fault(first_head(genesis)) is None,
    ensures
        walk_run(
            walk_start(genesis, allow_latest_effect_dispatched),
            seq![GraphRowModel::Head(Some(top(genesis, barriers)))] + rows_of(genesis, barriers),
        ) == Ok::<HeadGraphWalkModel, BarrierError>(
            HeadGraphWalkModel {
                genesis,
                allow_latest_effect_dispatched,
                current: Some(top(genesis, barriers)),
                phase: WalkPhaseModel::Closed,
            },
        ),
{
    let start = walk_start(genesis, allow_latest_effect_dispatched);
    let record = top(genesis, barriers);
    let none = Seq::<GraphRowModel>::empty();
    let row = GraphRowModel::Head(Some(record));
    let at = HeadGraphWalkModel {
        current: Some(record),
        phase: WalkPhaseModel::Version(record),
        ..start
    };
    assert(head_fault(record) is None);
    lemma_steps_pushed(start, none, row, start);
    assert(seq![row] =~= none.push(row));
    assert(step(start, row) == Ok::<HeadGraphWalkModel, BarrierError>(at)) by {
        reveal(step);
    }
    lemma_steps_joined(start, seq![row], rows_of(genesis, barriers));
    lemma_rows_close(genesis, barriers, at);
    lemma_steps_are_the_run(start, seq![row] + rows_of(genesis, barriers));
}

} // verus!
