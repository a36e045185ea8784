//! The walk over a workspace's heads, from the current one down to the first.
//!
//! Every head but the first was made by a barrier, whose receipt, operation and head
//! before it must all be there and fit together. The walk says what to read next and
//! judges what was read; where anything is missing or does not fit, the graph is corrupt.

use super::digests::first_head;
use super::digests::head_digest;
use super::digests::head_sha256;
use super::digests::initial_head;
use super::digests::next_head;
use super::digests::next_head_result;
use super::digests::BarrierCut;
use super::rules::answered;
use super::rules::command_from_receipt;
use super::rules::genesis_matches;
use super::rules::head_fault;
use super::rules::of_genesis;
use super::rules::receipt_fault;
use super::rules::valid_command;
use super::rules::valid_receipt;
use super::rules::validate_command;
use super::rules::validate_head_record;
use super::rules::validate_receipt;
use super::types::BarrierDurabilityReceipt;
use super::types::BarrierDurabilityReceiptModel;
use super::types::BarrierError;
use super::types::BarrierGenesis;
use super::types::BarrierGenesisModel;
use super::types::WorkspaceHeadRecord;
use super::types::WorkspaceHeadRecordModel;
use super::types::CREATE_BARRIER_KIND;
use crate::fs::export_authority::rules::valid_id;
use crate::fs::key_codec::workspace_barrier_record_key_bytes;
use crate::fs::key_codec::workspace_head_key_bytes;
use crate::fs::key_codec::workspace_head_version_key_bytes;
use crate::fs::key_codec::KeyCodec;
use crate::fs::workspace_operation::types::CanonicalRequestDigest;
use crate::fs::workspace_operation::types::OperationRecordModel;
use crate::fs::workspace_operation::types::StateModel;
use crate::fs::workspace_operation::types::WorkspaceOperationKey;
use crate::fs::workspace_operation::types::WorkspaceOperationKeyModel;
use crate::fs::workspace_operation::types::WorkspaceOperationLookup;
use crate::fs::workspace_operation::types::WorkspaceOperationState;
use crate::outside::bytes_slice;
use crate::outside::contents;
use crate::wire::same_bytes;
use crate::wire::same_str;
use bytes::Bytes;
use vstd::prelude::*;

verus! {

/// How far a walk has come. Each phase names what is read next; it holds the head that
/// the walk is at, and the receipt that made it once that is read.
pub enum WalkPhase {
    /// The current head.
    Current,
    /// The row of the head's own version.
    Version(WorkspaceHeadRecord),
    /// The receipt of the barrier that made the head.
    Receipt(WorkspaceHeadRecord),
    /// The operation of that barrier.
    Operation(WorkspaceHeadRecord, BarrierDurabilityReceipt),
    /// The row of the version before.
    Previous(WorkspaceHeadRecord, BarrierDurabilityReceipt),
    /// Nothing: the first head was reached.
    Closed,
}

/// The value of `WalkPhase`.
pub enum WalkPhaseModel {
    Current,
    Version(WorkspaceHeadRecordModel),
    Receipt(WorkspaceHeadRecordModel),
    Operation(WorkspaceHeadRecordModel, BarrierDurabilityReceiptModel),
    Previous(WorkspaceHeadRecordModel, BarrierDurabilityReceiptModel),
    Closed,
}

impl View for WalkPhase {
    type V = WalkPhaseModel;

    open spec fn view(&self) -> WalkPhaseModel {
        match *self {
            WalkPhase::Current => WalkPhaseModel::Current,
            WalkPhase::Version(cursor) => WalkPhaseModel::Version(cursor@),
            WalkPhase::Receipt(cursor) => WalkPhaseModel::Receipt(cursor@),
            WalkPhase::Operation(cursor, receipt) => WalkPhaseModel::Operation(cursor@, receipt@),
            WalkPhase::Previous(cursor, receipt) => WalkPhaseModel::Previous(cursor@, receipt@),
            WalkPhase::Closed => WalkPhaseModel::Closed,
        }
    }
}

/// A walk over the heads of one workspace.
pub struct HeadGraphWalk {
    genesis: BarrierGenesis,
    /// The barrier that made the current head may still await its outcome.
    allow_latest_effect_dispatched: bool,
    /// The current head, once it is read.
    current: Option<WorkspaceHeadRecord>,
    phase: WalkPhase,
}

/// The value of `HeadGraphWalk`.
pub struct HeadGraphWalkModel {
    pub genesis: BarrierGenesisModel,
    pub allow_latest_effect_dispatched: bool,
    pub current: Option<WorkspaceHeadRecordModel>,
    pub phase: WalkPhaseModel,
}

impl View for HeadGraphWalk {
    type V = HeadGraphWalkModel;

    closed spec fn view(&self) -> HeadGraphWalkModel {
        HeadGraphWalkModel {
            genesis: self.genesis@,
            allow_latest_effect_dispatched: self.allow_latest_effect_dispatched,
            current: match self.current {
                Some(record) => Some(record@),
                None => None,
            },
            phase: self.phase@,
        }
    }
}

/// What was read. `None` is a row that is not there.
pub enum GraphRow {
    Head(Option<WorkspaceHeadRecord>),
    Receipt(Option<BarrierDurabilityReceipt>),
    Operation(WorkspaceOperationLookup),
}

/// The value of `GraphRow`.
pub enum GraphRowModel {
    Head(Option<WorkspaceHeadRecordModel>),
    Receipt(Option<BarrierDurabilityReceiptModel>),
    Operation(Option<OperationRecordModel>),
}

impl View for GraphRow {
    type V = GraphRowModel;

    open spec fn view(&self) -> GraphRowModel {
        match *self {
            GraphRow::Head(Some(record)) => GraphRowModel::Head(Some(record@)),
            GraphRow::Head(None) => GraphRowModel::Head(None),
            GraphRow::Receipt(Some(receipt)) => GraphRowModel::Receipt(Some(receipt@)),
            GraphRow::Receipt(None) => GraphRowModel::Receipt(None),
            GraphRow::Operation(WorkspaceOperationLookup::Known(record)) => GraphRowModel::Operation(
                Some(record@),
            ),
            GraphRow::Operation(WorkspaceOperationLookup::Unknown) => GraphRowModel::Operation(None),
        }
    }
}

/// What to read next.
pub enum GraphRead {
    /// The head stored under the key.
    Head(Bytes),
    /// The receipt stored under the key.
    Receipt(Bytes),
    /// The operation, whose request must have the digest.
    Operation(WorkspaceOperationKey, CanonicalRequestDigest),
    /// Nothing.
    Nothing,
}

/// `read` is the row that a walk asks for next.
pub open spec fn next_row(walk: HeadGraphWalkModel, read: GraphRead) -> bool {
    let workspace_id = walk.genesis.workspace_id;
    match walk.phase {
        WalkPhaseModel::Current => read matches GraphRead::Head(key) && contents(key)
            == workspace_head_key_bytes(workspace_id),
        WalkPhaseModel::Version(cursor) => read matches GraphRead::Head(key)
            && contents(key) == workspace_head_version_key_bytes(
            workspace_id,
            cursor.head.workspace_version,
        ),
        WalkPhaseModel::Receipt(cursor) => read matches GraphRead::Receipt(key)
            && contents(key) == workspace_barrier_record_key_bytes(
            workspace_id,
            cursor.last_barrier_request_id->0,
        ),
        WalkPhaseModel::Operation(cursor, _) => read matches GraphRead::Operation(
            operation,
            digest,
        ) && operation@ == (WorkspaceOperationKeyModel {
            workspace_id,
            kind: CREATE_BARRIER_KIND,
            request_id: cursor.last_barrier_request_id->0,
        }) && digest@ == cursor.last_barrier_request_digest->0,
        WalkPhaseModel::Previous(cursor, _) => read matches GraphRead::Head(key)
            && contents(key) == workspace_head_version_key_bytes(
            workspace_id,
            (cursor.head.workspace_version - 1) as u64,
        ),
        WalkPhaseModel::Closed => read is Nothing,
    }
}

/// A head that was made by a barrier.
pub open spec fn made_by_barrier(cursor: WorkspaceHeadRecordModel) -> bool {
    cursor.last_barrier_request_id is Some && cursor.last_barrier_request_digest is Some
}

/// The walk is at a valid head, and at a receipt that made it.
pub open spec fn well_formed(walk: HeadGraphWalkModel) -> bool {
    &&& valid_id(walk.genesis.workspace_id)
    &&& walk.phase is Current <==> walk.current is None
    &&& match walk.phase {
        WalkPhaseModel::Current | WalkPhaseModel::Closed => true,
        WalkPhaseModel::Version(cursor) => head_fault(cursor) is None,
        WalkPhaseModel::Receipt(cursor) => head_fault(cursor) is None && made_by_barrier(cursor)
            && cursor.head.workspace_version >= 2,
        WalkPhaseModel::Operation(cursor, receipt)
        | WalkPhaseModel::Previous(cursor, receipt) => head_fault(cursor) is None
            && made_by_barrier(cursor) && cursor.head.workspace_version >= 2 && made(
            receipt,
            cursor,
        ),
    }
}

/// `receipt` is the valid receipt of the barrier that made `cursor`.
pub open spec fn made(
    receipt: BarrierDurabilityReceiptModel,
    cursor: WorkspaceHeadRecordModel,
) -> bool {
    &&& valid_receipt(receipt)
    &&& receipt.head == cursor.head
    &&& cursor.last_barrier_request_id == Some(receipt.request_id)
    &&& cursor.last_barrier_request_digest == Some(receipt.request_digest)
}

/// The cut that a receipt reports.
pub open spec fn cut_of(receipt: BarrierDurabilityReceiptModel) -> BarrierCut {
    BarrierCut {
        included_write_sequence: receipt.included_write_sequence,
        writer_epoch: receipt.zerofs_writer_epoch,
        manifest_id: receipt.zerofs_manifest_id,
        durable_sequence: receipt.zerofs_durable_sequence,
    }
}

/// `receipt` leads from `previous` to `cursor`: it expected the one, and its command and
/// cut give the other.
pub open spec fn leads(
    genesis: BarrierGenesisModel,
    previous: WorkspaceHeadRecordModel,
    receipt: BarrierDurabilityReceiptModel,
    cursor: WorkspaceHeadRecordModel,
) -> bool {
    &&& made(receipt, cursor)
    &&& head_sha256(previous.head) == receipt.expected_head_digest
    &&& valid_command(answered(receipt))
    &&& of_genesis(genesis, answered(receipt))
    &&& next_head_result(previous, answered(receipt), cut_of(receipt)) == Ok::<
        WorkspaceHeadRecordModel,
        BarrierError,
    >(cursor)
}

/// The operation of a barrier has the outcome that its receipt needs. The latest barrier
/// may still await it.
pub open spec fn settled(
    walk: HeadGraphWalkModel,
    cursor: WorkspaceHeadRecordModel,
    receipt: BarrierDurabilityReceiptModel,
    operation: Option<OperationRecordModel>,
) -> bool {
    match operation {
        Some(record) => match record.state {
            StateModel::Succeeded(_) => true,
            StateModel::EffectDispatched(claim) => walk.allow_latest_effect_dispatched
                && walk.current is Some && cursor.head.workspace_version
                == walk.current->0.head.workspace_version && claim == receipt.effect_claim,
            _ => false,
        },
        None => false,
    }
}

/// The walk at another phase.
pub open spec fn at(walk: HeadGraphWalkModel, phase: WalkPhaseModel) -> HeadGraphWalkModel {
    HeadGraphWalkModel { phase, ..walk }
}

/// The walk after the row of the head's own version.
pub open spec fn after_version(
    walk: HeadGraphWalkModel,
    cursor: WorkspaceHeadRecordModel,
    row: WorkspaceHeadRecordModel,
) -> Result<HeadGraphWalkModel, BarrierError> {
    if row != cursor {
        Err(BarrierError::Corrupt)
    } else if cursor.head.workspace_version == 1 {
        if cursor == first_head(walk.genesis) {
            Ok(at(walk, WalkPhaseModel::Closed))
        } else {
            Err(BarrierError::Corrupt)
        }
    } else if made_by_barrier(cursor) {
        Ok(at(walk, WalkPhaseModel::Receipt(cursor)))
    } else {
        Err(BarrierError::Corrupt)
    }
}

/// The walk after a head.
pub open spec fn after_head(
    walk: HeadGraphWalkModel,
    row: Option<WorkspaceHeadRecordModel>,
) -> Result<HeadGraphWalkModel, BarrierError> {
    match row {
        None => Err(BarrierError::Corrupt),
        Some(record) => match head_fault(record) {
            Some(fault) => Err(fault),
            None => match walk.phase {
                WalkPhaseModel::Current => Ok(
                    HeadGraphWalkModel {
                        current: Some(record),
                        phase: WalkPhaseModel::Version(record),
                        ..walk
                    },
                ),
                WalkPhaseModel::Version(cursor) => after_version(walk, cursor, record),
                WalkPhaseModel::Previous(cursor, receipt) => if leads(
                    walk.genesis,
                    record,
                    receipt,
                    cursor,
                ) {
                    Ok(at(walk, WalkPhaseModel::Version(record)))
                } else {
                    Err(BarrierError::Corrupt)
                },
                _ => Err(BarrierError::Corrupt),
            },
        },
    }
}

/// The walk after one more row.
pub open spec fn walk_step(walk: HeadGraphWalkModel, row: GraphRowModel) -> Result<
    HeadGraphWalkModel,
    BarrierError,
> {
    match (walk.phase, row) {
        (_, GraphRowModel::Head(record)) => after_head(walk, record),
        (WalkPhaseModel::Receipt(cursor), GraphRowModel::Receipt(Some(receipt))) => {
            if receipt_fault(receipt) is Some {
                Err(receipt_fault(receipt)->0)
            } else if made(receipt, cursor) {
                Ok(at(walk, WalkPhaseModel::Operation(cursor, receipt)))
            } else {
                Err(BarrierError::Corrupt)
            }
        },
        (WalkPhaseModel::Operation(cursor, receipt), GraphRowModel::Operation(operation)) => {
            if settled(walk, cursor, receipt, operation) {
                Ok(at(walk, WalkPhaseModel::Previous(cursor, receipt)))
            } else {
                Err(BarrierError::Corrupt)
            }
        },
        _ => Err(BarrierError::Corrupt),
    }
}

/// `result` has the value that `expected` has.
pub open spec fn is_walk_result(
    result: Result<HeadGraphWalk, BarrierError>,
    expected: Result<HeadGraphWalkModel, BarrierError>,
) -> bool {
    match expected {
        Ok(walk) => result matches Ok(w) && w@ == walk,
        Err(error) => result matches Err(e) && e == error,
    }
}

/// The walk before anything is read.
pub open spec fn walk_start(genesis: BarrierGenesisModel, allow_latest_effect_dispatched: bool) -> HeadGraphWalkModel {
    HeadGraphWalkModel {
        genesis,
        allow_latest_effect_dispatched,
        current: None,
        phase: WalkPhaseModel::Current,
    }
}

impl HeadGraphWalk {
    #[verifier::type_invariant]
    spec fn inv(self) -> bool {
        well_formed(self@)
    }

    /// A walk that has read nothing.
    pub fn start(genesis: BarrierGenesis, allow_latest_effect_dispatched: bool) -> (walk: Self)
        requires
            valid_id(genesis@.workspace_id),
        ensures
            walk@ == walk_start(genesis@, allow_latest_effect_dispatched),
    {
        HeadGraphWalk {
            genesis,
            allow_latest_effect_dispatched,
            current: None,
            phase: WalkPhase::Current,
        }
    }

    /// What to read next.
    pub fn next_read(&self) -> (read: GraphRead)
        ensures
            next_row(self@, read),
    {
        proof {
            use_type_invariant(self);
        }
        let codec = KeyCodec::new();
        let workspace_id: &str = &self.genesis.workspace_id;
        match &self.phase {
            WalkPhase::Current => GraphRead::Head(codec.workspace_head_key(workspace_id)),
            WalkPhase::Version(cursor) => GraphRead::Head(
                codec.workspace_head_version_key(workspace_id, cursor.head.workspace_version),
            ),
            WalkPhase::Receipt(cursor) => match &cursor.last_barrier_request_id {
                Some(request_id) => GraphRead::Receipt(
                    codec.workspace_barrier_record_key(workspace_id, request_id),
                ),
                None => vstd::pervasive::unreached(),
            },
            WalkPhase::Operation(_, receipt) => GraphRead::Operation(
                WorkspaceOperationKey::new(workspace_id, CREATE_BARRIER_KIND, &receipt.request_id),
                CanonicalRequestDigest::new(receipt.request_digest),
            ),
            WalkPhase::Previous(cursor, _) => GraphRead::Head(
                codec.workspace_head_version_key(workspace_id, cursor.head.workspace_version - 1),
            ),
            WalkPhase::Closed => GraphRead::Nothing,
        }
    }

    /// Judges what was read, and goes on.
    pub fn advance(self, row: GraphRow) -> (result: Result<HeadGraphWalk, BarrierError>)
        ensures
            is_walk_result(result, walk_step(self@, row@)),
    {
        match row {
            GraphRow::Head(record) => self.advance_head(record),
            GraphRow::Receipt(receipt) => self.advance_receipt(receipt),
            GraphRow::Operation(lookup) => self.advance_operation(lookup),
        }
    }

    fn advance_head(self, row: Option<WorkspaceHeadRecord>) -> (result: Result<
        HeadGraphWalk,
        BarrierError,
    >)
        ensures
            is_walk_result(result, walk_step(self@, GraphRow::Head(row)@)),
    {
        proof {
            use_type_invariant(&self);
        }
        let record = match row {
            Some(record) => record,
            None => {
                return Err(BarrierError::Corrupt);
            },
        };
        validate_head_record(&record)?;
        let HeadGraphWalk { genesis, allow_latest_effect_dispatched, current, phase } = self;
        match phase {
            WalkPhase::Current => Ok(
                HeadGraphWalk {
                    genesis,
                    allow_latest_effect_dispatched,
                    current: Some(record.clone()),
                    phase: WalkPhase::Version(record),
                },
            ),
            WalkPhase::Version(cursor) => {
                let phase = version_phase(&genesis, cursor, &record)?;
                Ok(HeadGraphWalk { genesis, allow_latest_effect_dispatched, current, phase })
            },
            WalkPhase::Previous(cursor, receipt) => {
                check_lead(&genesis, &record, &receipt, &cursor)?;
                Ok(
                    HeadGraphWalk {
                        genesis,
                        allow_latest_effect_dispatched,
                        current,
                        phase: WalkPhase::Version(record),
                    },
                )
            },
            _ => Err(BarrierError::Corrupt),
        }
    }

    fn advance_receipt(self, row: Option<BarrierDurabilityReceipt>) -> (result: Result<
        HeadGraphWalk,
        BarrierError,
    >)
        ensures
            is_walk_result(result, walk_step(self@, GraphRow::Receipt(row)@)),
    {
        proof {
            use_type_invariant(&self);
        }
        let HeadGraphWalk { genesis, allow_latest_effect_dispatched, current, phase } = self;
        match (phase, row) {
            (WalkPhase::Receipt(cursor), Some(receipt)) => {
                validate_receipt(&receipt)?;
                check_made(&receipt, &cursor)?;
                Ok(
                    HeadGraphWalk {
                        genesis,
                        allow_latest_effect_dispatched,
                        current,
                        phase: WalkPhase::Operation(cursor, receipt),
                    },
                )
            },
            _ => Err(BarrierError::Corrupt),
        }
    }

    fn advance_operation(self, lookup: WorkspaceOperationLookup) -> (result: Result<
        HeadGraphWalk,
        BarrierError,
    >)
        ensures
            is_walk_result(result, walk_step(self@, GraphRow::Operation(lookup)@)),
    {
        proof {
            use_type_invariant(&self);
        }
        let HeadGraphWalk { genesis, allow_latest_effect_dispatched, current, phase } = self;
        match phase {
            WalkPhase::Operation(cursor, receipt) => {
                let is_latest = match &current {
                    Some(latest) => cursor.head.workspace_version == latest.head.workspace_version,
                    None => false,
                };
                if !is_settled(&lookup, &receipt, is_latest && allow_latest_effect_dispatched) {
                    return Err(BarrierError::Corrupt);
                }
                Ok(
                    HeadGraphWalk {
                        genesis,
                        allow_latest_effect_dispatched,
                        current,
                        phase: WalkPhase::Previous(cursor, receipt),
                    },
                )
            },
            _ => Err(BarrierError::Corrupt),
        }
    }

    /// Whether the first head was reached.
    pub fn is_closed(&self) -> (closed: bool)
        ensures
            closed == (self@.phase is Closed),
            closed ==> self@.current is Some,
    {
        proof {
            use_type_invariant(self);
        }
        matches!(self.phase, WalkPhase::Closed)
    }

    /// The current head, if it was read.
    pub fn into_current(self) -> (current: Option<WorkspaceHeadRecord>)
        ensures
            match self@.current {
                Some(record) => current matches Some(r) && r@ == record,
                None => current is None,
            },
            self@.phase is Closed ==> current is Some,
    {
        proof {
            use_type_invariant(&self);
        }
        self.current
    }
}

fn version_phase(
    genesis: &BarrierGenesis,
    cursor: WorkspaceHeadRecord,
    row: &WorkspaceHeadRecord,
) -> (result: Result<WalkPhase, BarrierError>)
    ensures
        forall|walk: HeadGraphWalkModel|
            walk.genesis == genesis@ ==> match #[trigger] after_version(walk, cursor@, row@) {
                Ok(next) => result matches Ok(phase) && next == at(walk, phase@),
                Err(error) => result matches Err(e) && e == error,
            },
{
    if !row.same(&cursor) {
        return Err(BarrierError::Corrupt);
    }
    if cursor.head.workspace_version == 1 {
        if !cursor.same(&initial_head(genesis)) {
            return Err(BarrierError::Corrupt);
        }
        return Ok(WalkPhase::Closed);
    }
    if cursor.last_barrier_request_id.is_none() || cursor.last_barrier_request_digest.is_none() {
        return Err(BarrierError::Corrupt);
    }
    Ok(WalkPhase::Receipt(cursor))
}

fn check_made(receipt: &BarrierDurabilityReceipt, cursor: &WorkspaceHeadRecord) -> (result: Result<
    (),
    BarrierError,
>)
    requires
        valid_receipt(receipt@),
    ensures
        result == (if made(receipt@, cursor@) {
            Ok::<(), BarrierError>(())
        } else {
            Err(BarrierError::Corrupt)
        }),
{
    match (&cursor.last_barrier_request_id, &cursor.last_barrier_request_digest) {
        (Some(request_id), Some(request_digest)) => {
            if !receipt.head.same(&cursor.head) || !same_str(&receipt.request_id, request_id)
                || !same_bytes(&receipt.request_digest, request_digest) {
                return Err(BarrierError::Corrupt);
            }
            Ok(())
        },
        _ => Err(BarrierError::Corrupt),
    }
}

fn is_settled(
    lookup: &WorkspaceOperationLookup,
    receipt: &BarrierDurabilityReceipt,
    may_await: bool,
) -> (settled: bool)
    ensures
        settled == (match GraphRow::Operation(*lookup)@ {
            GraphRowModel::Operation(Some(record)) => match record.state {
                StateModel::Succeeded(_) => true,
                StateModel::EffectDispatched(claim) => may_await && claim == receipt@.effect_claim,
                _ => false,
            },
            _ => false,
        }),
{
    match lookup {
        WorkspaceOperationLookup::Known(record) => match &record.state {
            WorkspaceOperationState::Succeeded(_) => true,
            WorkspaceOperationState::EffectDispatched(claim) => may_await && same_bytes(
                bytes_slice(claim),
                bytes_slice(&receipt.effect_claim),
            ),
            _ => false,
        },
        WorkspaceOperationLookup::Unknown => false,
    }
}

fn check_lead(
    genesis: &BarrierGenesis,
    previous: &WorkspaceHeadRecord,
    receipt: &BarrierDurabilityReceipt,
    cursor: &WorkspaceHeadRecord,
) -> (result: Result<(), BarrierError>)
    requires
        made(receipt@, cursor@),
    ensures
        result == (if leads(genesis@, previous@, receipt@, cursor@) {
            Ok::<(), BarrierError>(())
        } else {
            Err(BarrierError::Corrupt)
        }),
{
    if !head_digest(&previous.head).same(&receipt.expected_head_digest) {
        return Err(BarrierError::Corrupt);
    }
    let command = command_from_receipt(receipt);
    if validate_command(&command).is_err() {
        return Err(BarrierError::Corrupt);
    }
    if genesis_matches(genesis, &command).is_err() {
        return Err(BarrierError::Corrupt);
    }
    let recomputed = next_head(
        previous,
        &command,
        receipt.included_write_sequence,
        receipt.zerofs_writer_epoch,
        receipt.zerofs_manifest_id,
        receipt.zerofs_durable_sequence,
    )?;
    if !recomputed.same(cursor) {
        return Err(BarrierError::Corrupt);
    }
    Ok(())
}

} // verus!
