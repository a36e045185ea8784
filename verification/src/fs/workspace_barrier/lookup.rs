//! The look for the receipt of a barrier.
//!
//! A receipt is handed out, or said to be absent, only once the whole graph of heads was
//! read and found closed. A receipt must then stand at its own version; and an operation
//! that succeeded must have its receipt.

use super::graph::next_row;
use super::graph::walk_start;
use super::graph::walk_step;
use super::graph::GraphRead;
use super::graph::GraphRow;
use super::graph::GraphRowModel;
use super::graph::HeadGraphWalk;
use super::graph::HeadGraphWalkModel;
use super::laws::walk_run;
use super::rules::answer_fault;
use super::rules::answers;
use super::rules::ensure_receipt_matches_command;
use super::rules::head_fault;
use super::rules::valid_command;
use super::rules::validate_command;
use super::rules::validate_id;
use super::store::is_within_graph;
use super::store::lies_in_graph;
use super::store::validate_receipt_in_head_graph;
use super::store::within_graph;
use super::types::BarrierCommand;
use super::types::BarrierCommandModel;
use super::types::BarrierDurabilityReceipt;
use super::types::BarrierDurabilityReceiptModel;
use super::types::BarrierError;
use super::types::BarrierGenesis;
use super::types::BarrierGenesisModel;
use super::types::WorkspaceHeadRecord;
use super::types::WorkspaceHeadRecordModel;
use crate::fs::export_authority::rules::valid_id;
use crate::fs::key_codec::workspace_barrier_record_key_bytes;
use crate::fs::key_codec::workspace_head_version_key_bytes;
use crate::fs::key_codec::KeyCodec;
use crate::fs::workspace_operation::types::OperationRecordModel;
use crate::fs::workspace_operation::types::WorkspaceOperationLookup;
use crate::fs::workspace_operation::types::WorkspaceOperationState;
use crate::outside::contents;
use vstd::prelude::*;

verus! {

/// What a lookup is waiting for.
pub enum LookupPhase {
    /// The receipt under the command's key, if there is one.
    Receipt,
    /// The genesis of the workspace.
    Genesis(Option<BarrierDurabilityReceipt>),
    /// The next row of the graph.
    Graph(Option<BarrierDurabilityReceipt>, HeadGraphWalk),
    /// The operation of a command without a receipt.
    Operation,
    /// The row of a receipt's version, in the graph of the current head.
    Version(BarrierDurabilityReceipt, WorkspaceHeadRecord),
    /// Nothing.
    Done(Result<Option<BarrierDurabilityReceipt>, BarrierError>),
}

/// The value of `LookupPhase`.
pub enum LookupPhaseModel {
    Receipt,
    Genesis(Option<BarrierDurabilityReceiptModel>),
    Graph(Option<BarrierDurabilityReceiptModel>, HeadGraphWalkModel),
    Operation,
    Version(BarrierDurabilityReceiptModel, WorkspaceHeadRecordModel),
    Done(Result<Option<BarrierDurabilityReceiptModel>, BarrierError>),
}

/// An optional receipt as a value.
pub open spec fn receipt_value(receipt: Option<BarrierDurabilityReceipt>) -> Option<
    BarrierDurabilityReceiptModel,
> {
    match receipt {
        Some(receipt) => Some(receipt@),
        None => None,
    }
}

impl View for LookupPhase {
    type V = LookupPhaseModel;

    open spec fn view(&self) -> LookupPhaseModel {
        match *self {
            LookupPhase::Receipt => LookupPhaseModel::Receipt,
            LookupPhase::Genesis(receipt) => LookupPhaseModel::Genesis(receipt_value(receipt)),
            LookupPhase::Graph(receipt, walk) => LookupPhaseModel::Graph(
                receipt_value(receipt),
                walk@,
            ),
            LookupPhase::Operation => LookupPhaseModel::Operation,
            LookupPhase::Version(receipt, current) => LookupPhaseModel::Version(
                receipt@,
                current@,
            ),
            LookupPhase::Done(Ok(receipt)) => LookupPhaseModel::Done(Ok(receipt_value(receipt))),
            LookupPhase::Done(Err(error)) => LookupPhaseModel::Done(Err(error)),
        }
    }
}

/// What a lookup is told.
pub enum LookupEvent {
    /// The row that was asked for, or why it could not be read.
    Row(Result<GraphRow, BarrierError>),
    /// The durable genesis of the workspace.
    Genesis(Result<BarrierGenesis, BarrierError>),
}

/// The value of `LookupEvent`.
pub enum LookupEventModel {
    Row(Result<GraphRowModel, BarrierError>),
    Genesis(Result<BarrierGenesisModel, BarrierError>),
}

impl View for LookupEvent {
    type V = LookupEventModel;

    open spec fn view(&self) -> LookupEventModel {
        match *self {
            LookupEvent::Row(Ok(row)) => LookupEventModel::Row(Ok(row@)),
            LookupEvent::Row(Err(error)) => LookupEventModel::Row(Err(error)),
            LookupEvent::Genesis(Ok(genesis)) => LookupEventModel::Genesis(Ok(genesis@)),
            LookupEvent::Genesis(Err(error)) => LookupEventModel::Genesis(Err(error)),
        }
    }
}

/// The phase that an error ends in.
pub open spec fn failed(error: BarrierError) -> LookupPhaseModel {
    LookupPhaseModel::Done(Err(error))
}

/// The phase before anything is read.
pub open spec fn lookup_start(command: BarrierCommandModel) -> LookupPhaseModel {
    if valid_command(command) {
        LookupPhaseModel::Receipt
    } else {
        failed(BarrierError::Invalid)
    }
}

/// The phase after the row under the command's key.
pub open spec fn after_receipt(
    command: BarrierCommandModel,
    found: Option<BarrierDurabilityReceiptModel>,
) -> LookupPhaseModel {
    match found {
        None => LookupPhaseModel::Genesis(None),
        Some(receipt) => match answer_fault(receipt, command) {
            None => LookupPhaseModel::Genesis(found),
            Some(fault) => failed(fault),
        },
    }
}

/// The phase once the graph below `current` is closed.
pub open spec fn after_graph(
    receipt: Option<BarrierDurabilityReceiptModel>,
    current: WorkspaceHeadRecordModel,
) -> LookupPhaseModel {
    match receipt {
        None => LookupPhaseModel::Operation,
        Some(receipt) => if within_graph(receipt, current) {
            LookupPhaseModel::Version(receipt, current)
        } else {
            failed(BarrierError::Corrupt)
        },
    }
}

/// The phase after one more row of the graph.
pub open spec fn after_row(
    receipt: Option<BarrierDurabilityReceiptModel>,
    walk: HeadGraphWalkModel,
    row: GraphRowModel,
) -> LookupPhaseModel {
    match walk_step(walk, row) {
        Err(error) => failed(error),
        Ok(next) => if next.phase is Closed {
            after_graph(receipt, next.current->0)
        } else {
            LookupPhaseModel::Graph(receipt, next)
        },
    }
}

/// The answer without a receipt: an operation that succeeded must have one.
pub open spec fn after_operation(operation: Option<OperationRecordModel>) -> LookupPhaseModel {
    if operation matches Some(record) && record.state is Succeeded {
        failed(BarrierError::Corrupt)
    } else {
        LookupPhaseModel::Done(Ok(None))
    }
}

/// The answer with a receipt: it stands at its own version.
pub open spec fn after_version(
    receipt: BarrierDurabilityReceiptModel,
    version: Option<WorkspaceHeadRecordModel>,
) -> LookupPhaseModel {
    match version {
        None => failed(BarrierError::Corrupt),
        Some(row) => if head_fault(row) is Some {
            failed(head_fault(row)->0)
        } else if lies_in_graph(receipt, row) {
            LookupPhaseModel::Done(Ok(Some(receipt)))
        } else {
            failed(BarrierError::Corrupt)
        },
    }
}

/// The phase waits for a row.
pub open spec fn awaits_row(phase: LookupPhaseModel) -> bool {
    phase is Receipt || phase is Graph || phase is Operation || phase is Version
}

/// The phase after an event. An event that the phase does not wait for changes nothing,
/// but for a row that does not belong in the graph.
pub open spec fn lookup_step(
    command: BarrierCommandModel,
    phase: LookupPhaseModel,
    event: LookupEventModel,
) -> LookupPhaseModel {
    match event {
        LookupEventModel::Row(Err(error)) => if awaits_row(phase) {
            failed(error)
        } else {
            phase
        },
        LookupEventModel::Row(Ok(row)) => match (phase, row) {
            (LookupPhaseModel::Receipt, GraphRowModel::Receipt(found)) => after_receipt(
                command,
                found,
            ),
            (LookupPhaseModel::Graph(receipt, walk), row) => after_row(receipt, walk, row),
            (
                LookupPhaseModel::Operation,
                GraphRowModel::Operation(operation),
            ) => after_operation(operation),
            (
                LookupPhaseModel::Version(receipt, _),
                GraphRowModel::Head(version),
            ) => after_version(receipt, version),
            _ => phase,
        },
        LookupEventModel::Genesis(reply) => match phase {
            LookupPhaseModel::Genesis(receipt) => match reply {
                Err(error) => failed(error),
                Ok(genesis) => if valid_id(genesis.workspace_id) {
                    LookupPhaseModel::Graph(receipt, walk_start(genesis, true))
                } else {
                    failed(BarrierError::Corrupt)
                },
            },
            _ => phase,
        },
    }
}

/// What to do next.
pub enum LookupAction {
    /// Read a durable row.
    Read(GraphRead),
    /// Read the durable genesis of the workspace.
    ReadGenesis,
    /// Nothing: the answer is there.
    Finish,
}

/// The look for one receipt.
pub struct ReceiptLookup {
    command: BarrierCommand,
    phase: LookupPhase,
}

/// A receipt that was found answers the command.
pub open spec fn answers_if_found(
    receipt: Option<BarrierDurabilityReceiptModel>,
    command: BarrierCommandModel,
) -> bool {
    receipt matches Some(receipt) ==> answer_fault(receipt, command) is None
}

impl ReceiptLookup {
    #[verifier::type_invariant]
    spec fn inv(self) -> bool {
        &&& !(self.phase is Done) ==> valid_command(self.command@)
        &&& match self.phase {
            LookupPhase::Genesis(receipt) => answers_if_found(
                receipt_value(receipt),
                self.command@,
            ),
            LookupPhase::Graph(receipt, walk) => answers_if_found(
                receipt_value(receipt),
                self.command@,
            ) && !(walk@.phase is Closed),
            LookupPhase::Version(receipt, current) => answer_fault(
                receipt@,
                self.command@,
            ) is None && within_graph(receipt@, current@),
            _ => true,
        }
    }

    pub closed spec fn command_view(self) -> BarrierCommandModel {
        self.command@
    }

    pub closed spec fn phase_view(self) -> LookupPhaseModel {
        self.phase@
    }

    /// A lookup that has read nothing.
    pub fn start(command: BarrierCommand) -> (lookup: Self)
        ensures
            lookup.command_view() == command@,
            lookup.phase_view() == lookup_start(command@),
    {
        let phase = match validate_command(&command) {
            Ok(()) => LookupPhase::Receipt,
            Err(error) => LookupPhase::Done(Err(error)),
        };
        ReceiptLookup { command, phase }
    }

    pub fn command(&self) -> (command: &BarrierCommand)
        ensures
            command@ == self.command_view(),
    {
        &self.command
    }

    /// What to do next.
    pub fn action(&self) -> (action: LookupAction)
        ensures
            match self.phase_view() {
                LookupPhaseModel::Receipt => action matches LookupAction::Read(
                    GraphRead::Receipt(key),
                ) && contents(key) == workspace_barrier_record_key_bytes(
                    self.command_view().operation.workspace_id,
                    self.command_view().operation.request_id,
                ),
                LookupPhaseModel::Genesis(_) => action is ReadGenesis,
                LookupPhaseModel::Graph(_, walk) => action matches LookupAction::Read(read)
                    && next_row(walk, read),
                LookupPhaseModel::Operation => action matches LookupAction::Read(
                    GraphRead::Operation(operation, digest),
                ) && operation@ == self.command_view().operation && digest@
                    == self.command_view().request_digest,
                LookupPhaseModel::Version(receipt, _) => action matches LookupAction::Read(
                    GraphRead::Head(key),
                ) && contents(key) == workspace_head_version_key_bytes(
                    receipt.workspace_id,
                    receipt.head.workspace_version,
                ),
                LookupPhaseModel::Done(_) => action is Finish,
            },
    {
        proof {
            use_type_invariant(self);
        }
        match &self.phase {
            LookupPhase::Receipt => LookupAction::Read(
                GraphRead::Receipt(
                    KeyCodec::new().workspace_barrier_record_key(
                        &self.command.operation.workspace_id,
                        &self.command.operation.request_id,
                    ),
                ),
            ),
            LookupPhase::Genesis(_) => LookupAction::ReadGenesis,
            LookupPhase::Graph(_, walk) => LookupAction::Read(walk.next_read()),
            LookupPhase::Operation => LookupAction::Read(
                GraphRead::Operation(self.command.operation.clone(), self.command.request_digest),
            ),
            LookupPhase::Version(receipt, _) => LookupAction::Read(
                GraphRead::Head(
                    KeyCodec::new().workspace_head_version_key(
                        &receipt.workspace_id,
                        receipt.head.workspace_version,
                    ),
                ),
            ),
            LookupPhase::Done(_) => LookupAction::Finish,
        }
    }

    /// Takes in what was read.
    pub fn advance(self, event: LookupEvent) -> (next: Self)
        ensures
            next.command_view() == self.command_view(),
            next.phase_view() == lookup_step(self.command_view(), self.phase_view(), event@),
    {
        proof {
            use_type_invariant(&self);
        }
        let ReceiptLookup { command, phase } = self;
        match event {
            LookupEvent::Row(Err(error)) => match phase {
                LookupPhase::Receipt
                | LookupPhase::Graph(_, _)
                | LookupPhase::Operation
                | LookupPhase::Version(_, _) => ReceiptLookup {
                    command,
                    phase: LookupPhase::Done(Err(error)),
                },
                other => ReceiptLookup { command, phase: other },
            },
            LookupEvent::Row(Ok(row)) => match (phase, row) {
                (LookupPhase::Receipt, GraphRow::Receipt(found)) => {
                    let phase = on_receipt(&command, found);
                    ReceiptLookup { command, phase }
                },
                (LookupPhase::Graph(receipt, walk), row) => {
                    let phase = on_row(&command, receipt, walk, row);
                    ReceiptLookup { command, phase }
                },
                (LookupPhase::Operation, GraphRow::Operation(operation)) => ReceiptLookup {
                    command,
                    phase: on_operation(&operation),
                },
                (LookupPhase::Version(receipt, current), GraphRow::Head(version)) => {
                    let result = match validate_receipt_in_head_graph(
                        &receipt,
                        &current,
                        version.as_ref(),
                    ) {
                        Ok(()) => Ok(Some(receipt)),
                        Err(error) => Err(error),
                    };
                    ReceiptLookup { command, phase: LookupPhase::Done(result) }
                },
                (other, _) => ReceiptLookup { command, phase: other },
            },
            LookupEvent::Genesis(reply) => match phase {
                LookupPhase::Genesis(receipt) => {
                    let phase = on_genesis(&command, receipt, reply);
                    ReceiptLookup { command, phase }
                },
                other => ReceiptLookup { command, phase: other },
            },
        }
    }

    /// The answer, once it is there: the receipt, or that there is none.
    pub fn into_result(self) -> (result: Option<
        Result<Option<BarrierDurabilityReceipt>, BarrierError>,
    >)
        ensures
            match self.phase_view() {
                LookupPhaseModel::Done(Ok(receipt)) => result matches Some(Ok(r)) && receipt_value(
                    r,
                ) == receipt,
                LookupPhaseModel::Done(Err(error)) => result matches Some(Err(e)) && e == error,
                _ => result is None,
            },
    {
        match self.phase {
            LookupPhase::Done(result) => Some(result),
            _ => None,
        }
    }
}

fn on_receipt(command: &BarrierCommand, found: Option<BarrierDurabilityReceipt>) -> (phase:
    LookupPhase)
    ensures
        phase@ == after_receipt(command@, receipt_value(found)),
        phase matches LookupPhase::Genesis(receipt) ==> answers_if_found(
            receipt_value(receipt),
            command@,
        ),
        phase is Genesis || phase is Done,
{
    match found {
        None => LookupPhase::Genesis(None),
        Some(receipt) => match ensure_receipt_matches_command(&receipt, command) {
            Ok(()) => LookupPhase::Genesis(Some(receipt)),
            Err(error) => LookupPhase::Done(Err(error)),
        },
    }
}

fn on_genesis(
    command: &BarrierCommand,
    receipt: Option<BarrierDurabilityReceipt>,
    reply: Result<BarrierGenesis, BarrierError>,
) -> (phase: LookupPhase)
    ensures
        phase@ == lookup_step(
            command@,
            LookupPhaseModel::Genesis(receipt_value(receipt)),
            LookupEvent::Genesis(reply)@,
        ),
        phase matches LookupPhase::Graph(r, walk) ==> r == receipt && !(walk@.phase is Closed),
        phase is Graph || phase is Done,
{
    match reply {
        Err(error) => LookupPhase::Done(Err(error)),
        Ok(genesis) => match validate_id(&genesis.workspace_id) {
            Ok(()) => LookupPhase::Graph(receipt, HeadGraphWalk::start(genesis, true)),
            Err(_) => LookupPhase::Done(Err(BarrierError::Corrupt)),
        },
    }
}

fn on_row(
    command: &BarrierCommand,
    receipt: Option<BarrierDurabilityReceipt>,
    walk: HeadGraphWalk,
    row: GraphRow,
) -> (phase: LookupPhase)
    requires
        valid_command(command@),
        answers_if_found(receipt_value(receipt), command@),
    ensures
        phase@ == after_row(receipt_value(receipt), walk@, row@),
        match phase {
            LookupPhase::Graph(r, next) => r == receipt && !(next@.phase is Closed),
            LookupPhase::Version(r, current) => receipt == Some(r) && within_graph(r@, current@),
            LookupPhase::Operation | LookupPhase::Done(_) => true,
            _ => false,
        },
{
    let next = match walk.advance(row) {
        Ok(next) => next,
        Err(error) => {
            return LookupPhase::Done(Err(error));
        },
    };
    if !next.is_closed() {
        return LookupPhase::Graph(receipt, next);
    }
    match (receipt, next.into_current()) {
        (Some(receipt), Some(current)) => if is_within_graph(&receipt, &current) {
            LookupPhase::Version(receipt, current)
        } else {
            LookupPhase::Done(Err(BarrierError::Corrupt))
        },
        (None, _) => LookupPhase::Operation,
        (Some(_), None) => vstd::pervasive::unreached(),
    }
}

fn on_operation(operation: &WorkspaceOperationLookup) -> (phase: LookupPhase)
    ensures
        GraphRow::Operation(*operation)@ matches GraphRowModel::Operation(record) && phase@
            == after_operation(record),
        phase is Done,
{
    match operation {
        WorkspaceOperationLookup::Known(record) => match &record.state {
            WorkspaceOperationState::Succeeded(_) => LookupPhase::Done(
                Err(BarrierError::Corrupt),
            ),
            _ => LookupPhase::Done(Ok(None)),
        },
        WorkspaceOperationLookup::Unknown => LookupPhase::Done(Ok(None)),
    }
}

/// The phase of a lookup after a run of events.
pub open spec fn lookup_after(
    command: BarrierCommandModel,
    events: Seq<LookupEventModel>,
) -> LookupPhaseModel
    decreases events.len(),
{
    if events.len() == 0 {
        lookup_start(command)
    } else {
        lookup_step(command, lookup_after(command, events.drop_last()), events.last())
    }
}

/// The rows among events, in order.
pub open spec fn rows_of(events: Seq<LookupEventModel>) -> Seq<GraphRowModel>
    decreases events.len(),
{
    if events.len() == 0 {
        Seq::empty()
    } else {
        match events.last() {
            LookupEventModel::Row(Ok(row)) => rows_of(events.drop_last()).push(row),
            _ => rows_of(events.drop_last()),
        }
    }
}

/// Event `a` is a genesis, and the rows behind it up to `b` take a walk from there to
/// `walk`.
pub open spec fn walked_in(
    events: Seq<LookupEventModel>,
    a: int,
    b: int,
    walk: HeadGraphWalkModel,
) -> bool {
    &&& 0 <= a < b <= events.len()
    &&& events[a] matches LookupEventModel::Genesis(Ok(genesis)) && walk_run(
        walk_start(genesis, true),
        rows_of(events.subrange(a + 1, b)),
    ) == Ok::<HeadGraphWalkModel, BarrierError>(walk)
}

/// A whole graph of heads with `current` at its top was read, and is closed.
pub open spec fn was_closed(
    events: Seq<LookupEventModel>,
    current: WorkspaceHeadRecordModel,
) -> bool {
    exists|a: int, b: int, walk: HeadGraphWalkModel| #[trigger]
        walked_in(events, a, b, walk) && walk.phase is Closed && walk.current == Some(current)
}

/// Event `i` is the row of the version at which a receipt stands.
pub open spec fn stands_at(
    events: Seq<LookupEventModel>,
    i: int,
    receipt: BarrierDurabilityReceiptModel,
) -> bool {
    &&& 0 <= i < events.len()
    &&& events[i] matches LookupEventModel::Row(Ok(GraphRowModel::Head(Some(row))))
        && lies_in_graph(receipt, row)
}

/// Event `i` is an operation that has not succeeded.
pub open spec fn unfinished_at(events: Seq<LookupEventModel>, i: int) -> bool {
    &&& 0 <= i < events.len()
    &&& events[i] matches LookupEventModel::Row(Ok(GraphRowModel::Operation(operation))) && !(
    operation matches Some(record) && record.state is Succeeded)
}

/// What an answer rests on.
pub open spec fn founded(
    command: BarrierCommandModel,
    events: Seq<LookupEventModel>,
    answer: Option<BarrierDurabilityReceiptModel>,
) -> bool {
    match answer {
        Some(receipt) => {
            &&& answer_fault(receipt, command) is None
            &&& exists|current: WorkspaceHeadRecordModel| #[trigger]
                was_closed(events, current) && within_graph(receipt, current)
            &&& exists|i: int| #[trigger] stands_at(events, i, receipt)
        },
        None => {
            &&& exists|current: WorkspaceHeadRecordModel| #[trigger] was_closed(events, current)
            &&& exists|i: int| #[trigger] unfinished_at(events, i)
        },
    }
}

/// What a lookup has established.
spec fn lookup_established(
    command: BarrierCommandModel,
    events: Seq<LookupEventModel>,
    phase: LookupPhaseModel,
) -> bool {
    match phase {
        LookupPhaseModel::Receipt => true,
        LookupPhaseModel::Genesis(receipt) => answers_if_found(receipt, command),
        LookupPhaseModel::Graph(receipt, walk) => answers_if_found(receipt, command) && (exists|
            a: int,
        | #[trigger]
            walked_in(events, a, events.len() as int, walk)) && (walk.phase is Current
            <==> walk.current is None),
        LookupPhaseModel::Operation => exists|current: WorkspaceHeadRecordModel| #[trigger]
            was_closed(events, current),
        LookupPhaseModel::Version(receipt, current) => answer_fault(receipt, command) is None
            && within_graph(receipt, current) && was_closed(events, current),
        LookupPhaseModel::Done(Ok(answer)) => founded(command, events, answer),
        LookupPhaseModel::Done(Err(_)) => true,
    }
}

/// What was read stays read.
proof fn lemma_closed_longer(
    events: Seq<LookupEventModel>,
    event: LookupEventModel,
    current: WorkspaceHeadRecordModel,
)
    requires
        was_closed(events, current),
    ensures
        was_closed(events.push(event), current),
{
    let (a, b, walk) = choose|a: int, b: int, walk: HeadGraphWalkModel| #[trigger]
        walked_in(events, a, b, walk) && walk.phase is Closed && walk.current == Some(current);
    assert(events.push(event).subrange(a + 1, b) =~= events.subrange(a + 1, b));
    assert(walked_in(events.push(event), a, b, walk));
}

proof fn lemma_founded_longer(
    command: BarrierCommandModel,
    events: Seq<LookupEventModel>,
    event: LookupEventModel,
    answer: Option<BarrierDurabilityReceiptModel>,
)
    requires
        founded(command, events, answer),
    ensures
        founded(command, events.push(event), answer),
{
    match answer {
        Some(receipt) => {
            let current = choose|current: WorkspaceHeadRecordModel| #[trigger]
                was_closed(events, current) && within_graph(receipt, current);
            lemma_closed_longer(events, event, current);
            let i = choose|i: int| #[trigger] stands_at(events, i, receipt);
            assert(stands_at(events.push(event), i, receipt));
        },
        None => {
            let current = choose|current: WorkspaceHeadRecordModel| #[trigger]
                was_closed(events, current);
            lemma_closed_longer(events, event, current);
            let i = choose|i: int| #[trigger] unfinished_at(events, i);
            assert(unfinished_at(events.push(event), i));
        },
    }
}

/// A walk goes on with a row, or stays where it is with anything else.
proof fn lemma_walk_longer(
    events: Seq<LookupEventModel>,
    event: LookupEventModel,
    a: int,
    walk: HeadGraphWalkModel,
)
    requires
        walked_in(events, a, events.len() as int, walk),
    ensures
        match event {
            LookupEventModel::Row(Ok(row)) => walk_step(walk, row) matches Ok(next) ==> walked_in(
                events.push(event),
                a,
                events.len() as int + 1,
                next,
            ),
            _ => walked_in(events.push(event), a, events.len() as int + 1, walk),
        },
{
    let longer = events.push(event);
    let read = longer.subrange(a + 1, events.len() as int + 1);
    assert(read.drop_last() =~= events.subrange(a + 1, events.len() as int));
    assert(read.last() == event);
    if let LookupEventModel::Row(Ok(row)) = event {
        assert(rows_of(read).drop_last() =~= rows_of(read.drop_last()));
    }
}

proof fn lemma_graph_establishes(
    command: BarrierCommandModel,
    events: Seq<LookupEventModel>,
    receipt: Option<BarrierDurabilityReceiptModel>,
    walk: HeadGraphWalkModel,
    event: LookupEventModel,
)
    requires
        lookup_established(command, events, LookupPhaseModel::Graph(receipt, walk)),
    ensures
        lookup_established(
            command,
            events.push(event),
            lookup_step(command, LookupPhaseModel::Graph(receipt, walk), event),
        ),
{
    let a = choose|a: int| #[trigger] walked_in(events, a, events.len() as int, walk);
    lemma_walk_longer(events, event, a, walk);
    if let LookupEventModel::Row(Ok(row)) = event {
        if let Ok(next) = walk_step(walk, row) {
            assert(walked_in(events.push(event), a, events.len() as int + 1, next));
            if next.phase is Closed {
                assert(was_closed(events.push(event), next.current->0));
            }
        }
    } else {
        assert(walked_in(events.push(event), a, events.push(event).len() as int, walk));
    }
}

proof fn lemma_step_establishes(
    command: BarrierCommandModel,
    events: Seq<LookupEventModel>,
    phase: LookupPhaseModel,
    event: LookupEventModel,
)
    requires
        lookup_established(command, events, phase),
    ensures
        lookup_established(command, events.push(event), lookup_step(command, phase, event)),
{
    let longer = events.push(event);
    let last = events.len() as int;
    match phase {
        LookupPhaseModel::Genesis(receipt) => {
            if let LookupEventModel::Genesis(Ok(genesis)) = event {
                assert(longer.subrange(last + 1, last + 1) =~= Seq::empty());
                assert(walked_in(longer, last, last + 1, walk_start(genesis, true)));
            }
        },
        LookupPhaseModel::Graph(receipt, walk) => {
            lemma_graph_establishes(command, events, receipt, walk, event);
        },
        LookupPhaseModel::Operation => {
            let current = choose|current: WorkspaceHeadRecordModel| #[trigger]
                was_closed(events, current);
            lemma_closed_longer(events, event, current);
            if lookup_step(command, phase, event) == LookupPhaseModel::Done(Ok(None)) {
                assert(unfinished_at(longer, last));
            }
        },
        LookupPhaseModel::Version(receipt, current) => {
            lemma_closed_longer(events, event, current);
            if lookup_step(command, phase, event) == LookupPhaseModel::Done(Ok(Some(receipt))) {
                assert(stands_at(longer, last, receipt));
            }
        },
        LookupPhaseModel::Done(Ok(answer)) => {
            lemma_founded_longer(command, events, event, answer);
        },
        _ => {},
    }
}

proof fn lemma_lookup_establishes(command: BarrierCommandModel, events: Seq<LookupEventModel>)
    ensures
        lookup_established(command, events, lookup_after(command, events)),
    decreases events.len(),
{
    if events.len() > 0 {
        let before = events.drop_last();
        lemma_lookup_establishes(command, before);
        lemma_step_establishes(command, before, lookup_after(command, before), events.last());
        assert(before.push(events.last()) =~= events);
    }
}

/// A receipt is handed out only if it answers the command and stands at its version in a
/// graph of heads that was read whole and found closed. That there is none is said only
/// of a closed graph, and of an operation that has not succeeded.
pub proof fn law_answer_follows_closed_graph(
    command: BarrierCommandModel,
    events: Seq<LookupEventModel>,
    answer: Option<BarrierDurabilityReceiptModel>,
)
    requires
        lookup_after(command, events) == LookupPhaseModel::Done(Ok(answer)),
    ensures
        founded(command, events, answer),
        answer matches Some(receipt) ==> answers(receipt, command),
{
    lemma_lookup_establishes(command, events);
}

/// An answer stands: no event changes it.
pub proof fn law_lookup_answer_is_final(
    command: BarrierCommandModel,
    phase: LookupPhaseModel,
    event: LookupEventModel,
)
    requires
        phase is Done,
    ensures
        lookup_step(command, phase, event) == phase,
{
}

} // verus!
