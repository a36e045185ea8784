//! One genesis request, from its operation to its answer.
//!
//! A genesis begins its operation in the ledger, puts the root object and reads it back,
//! and only then has the record committed.

use super::codec::content_object_key;
use super::codec::object_key;
use super::store::check_object_readback;
use super::store::plan_record;
use super::store::planned_record;
use super::store::readback_result;
use super::store::VerifiedGenesisInput;
use super::store::WorkspaceGenesisRequest;
use super::types::GenesisCommandModel;
use super::types::GenesisDurabilityReceipt;
use super::types::GenesisDurabilityReceiptModel;
use super::types::GenesisError;
use super::types::GenesisMaterializeModel;
use super::types::GenesisMaterializeResult;
use crate::fs::workspace_operation::types::OperationRecordModel;
use crate::fs::workspace_operation::types::WorkspaceOperationRecord;
use crate::outside::bytes_slice;
use crate::outside::contents;
use crate::outside::sha256;
use bytes::Bytes;
use vstd::prelude::*;

verus! {

/// What a request is waiting for.
pub enum GenesisPhase {
    /// The operation's record, once its intent is durable.
    Begin,
    /// The root object as it is read back.
    PutObject,
    /// The writer's answer.
    Commit,
    /// Nothing.
    Done(Result<GenesisMaterializeResult, GenesisError>),
}

/// The value of `GenesisPhase`.
pub enum GenesisPhaseModel {
    Begin,
    PutObject,
    Commit,
    Done(Result<GenesisMaterializeModel, GenesisError>),
}

impl View for GenesisPhase {
    type V = GenesisPhaseModel;

    open spec fn view(&self) -> GenesisPhaseModel {
        match *self {
            GenesisPhase::Begin => GenesisPhaseModel::Begin,
            GenesisPhase::PutObject => GenesisPhaseModel::PutObject,
            GenesisPhase::Commit => GenesisPhaseModel::Commit,
            GenesisPhase::Done(Ok(result)) => GenesisPhaseModel::Done(Ok(result@)),
            GenesisPhase::Done(Err(error)) => GenesisPhaseModel::Done(Err(error)),
        }
    }
}

/// What a request is told.
pub enum GenesisEvent {
    /// The operation's record.
    Begun(Result<WorkspaceOperationRecord, GenesisError>),
    /// The root object as it was read back. `None` is a read that failed.
    ReadBack(Option<Bytes>),
    /// The writer's answer.
    Committed(Result<GenesisDurabilityReceipt, GenesisError>),
}

/// The value of `GenesisEvent`.
pub enum GenesisEventModel {
    Begun(Result<OperationRecordModel, GenesisError>),
    ReadBack(Option<Seq<u8>>),
    Committed(Result<GenesisDurabilityReceiptModel, GenesisError>),
}

impl View for GenesisEvent {
    type V = GenesisEventModel;

    open spec fn view(&self) -> GenesisEventModel {
        match *self {
            GenesisEvent::Begun(Ok(record)) => GenesisEventModel::Begun(Ok(record@)),
            GenesisEvent::Begun(Err(error)) => GenesisEventModel::Begun(Err(error)),
            GenesisEvent::ReadBack(Some(read)) => GenesisEventModel::ReadBack(
                Some(contents(read)),
            ),
            GenesisEvent::ReadBack(None) => GenesisEventModel::ReadBack(None),
            GenesisEvent::Committed(Ok(receipt)) => GenesisEventModel::Committed(Ok(receipt@)),
            GenesisEvent::Committed(Err(error)) => GenesisEventModel::Committed(Err(error)),
        }
    }
}

/// The phase after an event. An event that the phase does not wait for changes nothing.
pub open spec fn genesis_step(
    command: GenesisCommandModel,
    phase: GenesisPhaseModel,
    event: GenesisEventModel,
) -> GenesisPhaseModel {
    match (phase, event) {
        (GenesisPhaseModel::Begin, GenesisEventModel::Begun(reply)) => match reply {
            Ok(record) => if record.state.is_terminal() {
                GenesisPhaseModel::Done(Ok(GenesisMaterializeModel::AlreadyTerminal(record)))
            } else {
                GenesisPhaseModel::PutObject
            },
            Err(error) => GenesisPhaseModel::Done(Err(error)),
        },
        (GenesisPhaseModel::PutObject, GenesisEventModel::ReadBack(read)) => {
            match readback_result(command.root_digest, command.root_bytes, read) {
                Ok(_) => GenesisPhaseModel::Commit,
                Err(error) => GenesisPhaseModel::Done(Err(error)),
            }
        },
        (GenesisPhaseModel::Commit, GenesisEventModel::Committed(reply)) => match reply {
            Ok(receipt) => GenesisPhaseModel::Done(
                Ok(GenesisMaterializeModel::Materialized(receipt)),
            ),
            Err(error) => GenesisPhaseModel::Done(Err(error)),
        },
        _ => phase,
    }
}

/// What to do next.
pub enum GenesisAction {
    /// Begin the operation in the ledger.
    Begin,
    /// Put the root bytes under the key unless it exists, and read the object back,
    /// whatever the put replied.
    PutObject { object_key: String },
    /// Have the writer commit the record.
    Commit(WorkspaceGenesisRequest),
    /// Nothing: the answer is there.
    Finish,
}

/// One genesis request.
pub struct GenesisRun {
    input: VerifiedGenesisInput,
    phase: GenesisPhase,
}

impl GenesisRun {
    /// The command of the request.
    pub closed spec fn command_view(self) -> GenesisCommandModel {
        self.input@
    }

    pub closed spec fn phase_view(self) -> GenesisPhaseModel {
        self.phase@
    }

    /// A request that has done nothing.
    pub fn start(input: VerifiedGenesisInput) -> (run: Self)
        ensures
            run.command_view() == input@,
            run.phase_view() == GenesisPhaseModel::Begin,
    {
        GenesisRun { input, phase: GenesisPhase::Begin }
    }

    pub fn input(&self) -> (input: &VerifiedGenesisInput)
        ensures
            input@ == self.command_view(),
    {
        &self.input
    }

    /// What to do next.
    pub fn action(&self) -> (action: GenesisAction)
        ensures
            match self.phase_view() {
                GenesisPhaseModel::Begin => action is Begin,
                GenesisPhaseModel::PutObject => action matches GenesisAction::PutObject {
                    object_key: key,
                } && key@ == object_key(self.command_view().root_digest),
                GenesisPhaseModel::Commit => action matches GenesisAction::Commit(request)
                    && request.record@ == planned_record(self.command_view()),
                GenesisPhaseModel::Done(_) => action is Finish,
            },
    {
        match &self.phase {
            GenesisPhase::Begin => GenesisAction::Begin,
            GenesisPhase::PutObject => GenesisAction::PutObject {
                object_key: content_object_key(self.input.command().root_digest),
            },
            GenesisPhase::Commit => GenesisAction::Commit(plan_record(self.input.command())),
            GenesisPhase::Done(_) => GenesisAction::Finish,
        }
    }

    /// Takes in what was found.
    pub fn advance(self, event: GenesisEvent) -> (next: Self)
        ensures
            next.command_view() == self.command_view(),
            next.phase_view() == genesis_step(self.command_view(), self.phase_view(), event@),
    {
        let phase = match (self.phase, event) {
            (GenesisPhase::Begin, GenesisEvent::Begun(reply)) => match reply {
                Ok(record) => if record.state.is_terminal() {
                    GenesisPhase::Done(Ok(GenesisMaterializeResult::AlreadyTerminal(record)))
                } else {
                    GenesisPhase::PutObject
                },
                Err(error) => GenesisPhase::Done(Err(error)),
            },
            (GenesisPhase::PutObject, GenesisEvent::ReadBack(read)) => {
                let command = self.input.command();
                let found: Option<&[u8]> = match &read {
                    Some(read) => Some(bytes_slice(read)),
                    None => None,
                };
                match check_object_readback(
                    command.root_digest.as_bytes(),
                    bytes_slice(&command.root_bytes),
                    found,
                ) {
                    Ok(()) => GenesisPhase::Commit,
                    Err(error) => GenesisPhase::Done(Err(error)),
                }
            },
            (GenesisPhase::Commit, GenesisEvent::Committed(reply)) => match reply {
                Ok(receipt) => GenesisPhase::Done(
                    Ok(GenesisMaterializeResult::Materialized(receipt)),
                ),
                Err(error) => GenesisPhase::Done(Err(error)),
            },
            (phase, _) => phase,
        };
        GenesisRun { input: self.input, phase }
    }

    /// The answer, once it is there.
    pub fn into_result(self) -> (result: Option<Result<GenesisMaterializeResult, GenesisError>>)
        ensures
            match self.phase_view() {
                GenesisPhaseModel::Done(Ok(expected)) => result matches Some(Ok(r)) && r@
                    == expected,
                GenesisPhaseModel::Done(Err(error)) => result matches Some(Err(e)) && e == error,
                _ => result is None,
            },
    {
        match self.phase {
            GenesisPhase::Done(result) => Some(result),
            _ => None,
        }
    }
}

/// How many more answers a request can need.
pub open spec fn genesis_rank(phase: GenesisPhaseModel) -> nat {
    match phase {
        GenesisPhaseModel::Begin => 3,
        GenesisPhaseModel::PutObject => 2,
        GenesisPhaseModel::Commit => 1,
        GenesisPhaseModel::Done(_) => 0,
    }
}

/// A request never goes back: each event leaves it where it is or takes it closer to its
/// answer. So the record is committed at most once, and the request ends.
pub proof fn law_genesis_only_moves_forward(
    command: GenesisCommandModel,
    phase: GenesisPhaseModel,
    event: GenesisEventModel,
)
    ensures
        genesis_step(command, phase, event) == phase || genesis_rank(
            genesis_step(command, phase, event),
        ) < genesis_rank(phase),
{
}

/// The record is committed only once exactly the root object was read back. An object
/// whose readback failed, or another object under its key, leaves no record.
pub proof fn law_commit_follows_exact_readback(
    command: GenesisCommandModel,
    phase: GenesisPhaseModel,
    event: GenesisEventModel,
)
    requires
        genesis_step(command, phase, event) is Commit,
        !(phase is Commit),
    ensures
        phase is PutObject,
        event == GenesisEventModel::ReadBack(Some(command.root_bytes)),
        sha256(command.root_bytes)@ == command.root_digest,
{
}

/// A request whose operation has its outcome is answered with it, and nothing is put or
/// committed.
pub proof fn law_terminal_genesis_is_replayed(
    command: GenesisCommandModel,
    record: OperationRecordModel,
)
    requires
        record.state.is_terminal(),
    ensures
        genesis_step(command, GenesisPhaseModel::Begin, GenesisEventModel::Begun(Ok(record)))
            == GenesisPhaseModel::Done(Ok(GenesisMaterializeModel::AlreadyTerminal(record))),
{
}

} // verus!
