//! One barrier request, from its first read to its answer.
//!
//! A barrier first looks for its receipt. It then begins its operation in the ledger and
//! claims its effect; the call whose claim was installed, and no other, asks the writer
//! for the cut. Every other call, and every call whose reply was lost, reads back.

use super::digests::claim_bytes;
use super::digests::claims;
use super::digests::effect_claim;
use super::digests::new_canonical_v4;
use super::store::VerifiedBarrierInput;
use super::types::barrier_error;
use super::types::BarrierCommandModel;
use super::types::BarrierDurabilityReceipt;
use super::types::BarrierDurabilityReceiptModel;
use super::types::BarrierError;
use super::types::BarrierMaterializeResult;
use super::types::WorkspaceBarrierRequest;
use crate::fs::workspace_operation::types::EffectDispatchClaim;
use crate::fs::workspace_operation::types::OperationErrorModel;
use crate::fs::workspace_operation::types::OperationRecordModel;
use crate::fs::workspace_operation::types::StateModel;
use crate::fs::workspace_operation::types::WorkspaceOperationError;
use crate::fs::workspace_operation::types::WorkspaceOperationLookup;
use crate::fs::workspace_operation::types::WorkspaceOperationRecord;
use crate::fs::workspace_operation::types::WorkspaceOperationState;
use crate::outside::bytes_clone;
use crate::outside::bytes_slice;
use crate::outside::contents;
use crate::wire::same_bytes;
use bytes::Bytes;
use vstd::prelude::*;

verus! {

/// A claim for one attempt at a barrier.
pub struct BarrierCandidate {
    pub barrier_id: String,
    pub claim: Bytes,
}

/// What a request is waiting for.
pub enum RunPhase {
    /// The receipt, if the barrier was made before.
    LookUp,
    /// The operation's record, once its intent is durable.
    Begin,
    /// The answer to the claim.
    Claim,
    /// The operation as it is durable: the answer to the claim was lost.
    Recover,
    /// The writer's answer.
    Dispatch,
    /// The receipt of an effect that another call owns, or whose answer was lost.
    ReadBack,
    /// Nothing.
    Done(Result<BarrierMaterializeResult, BarrierError>),
}

/// The value of a `BarrierMaterializeResult`.
pub enum MaterializeModel {
    Materialized(BarrierDurabilityReceiptModel),
    AlreadyTerminal(OperationRecordModel),
}

impl View for BarrierMaterializeResult {
    type V = MaterializeModel;

    open spec fn view(&self) -> MaterializeModel {
        match *self {
            BarrierMaterializeResult::Materialized(receipt) => MaterializeModel::Materialized(
                receipt@,
            ),
            BarrierMaterializeResult::AlreadyTerminal(record) => MaterializeModel::AlreadyTerminal(
                record@,
            ),
        }
    }
}

/// The value of `RunPhase`.
pub enum RunPhaseModel {
    LookUp,
    Begin,
    Claim,
    Recover,
    Dispatch,
    ReadBack,
    Done(Result<MaterializeModel, BarrierError>),
}

impl View for RunPhase {
    type V = RunPhaseModel;

    open spec fn view(&self) -> RunPhaseModel {
        match *self {
            RunPhase::LookUp => RunPhaseModel::LookUp,
            RunPhase::Begin => RunPhaseModel::Begin,
            RunPhase::Claim => RunPhaseModel::Claim,
            RunPhase::Recover => RunPhaseModel::Recover,
            RunPhase::Dispatch => RunPhaseModel::Dispatch,
            RunPhase::ReadBack => RunPhaseModel::ReadBack,
            RunPhase::Done(Ok(result)) => RunPhaseModel::Done(Ok(result@)),
            RunPhase::Done(Err(error)) => RunPhaseModel::Done(Err(error)),
        }
    }
}

/// What a request is told.
pub enum RunEvent {
    /// The receipt that is durable, if there is one.
    Receipt(Result<Option<BarrierDurabilityReceipt>, BarrierError>),
    /// The operation's record.
    Begun(Result<WorkspaceOperationRecord, BarrierError>),
    /// The ledger's answer to the claim.
    Claimed(Result<EffectDispatchClaim, WorkspaceOperationError>),
    /// The operation as it is durable.
    Found(Result<WorkspaceOperationLookup, WorkspaceOperationError>),
    /// The writer's answer.
    Cut(Result<BarrierDurabilityReceipt, BarrierError>),
}

/// The value of `RunEvent`.
pub enum RunEventModel {
    Receipt(Result<Option<BarrierDurabilityReceiptModel>, BarrierError>),
    Begun(Result<OperationRecordModel, BarrierError>),
    Installed(OperationRecordModel),
    Existing(OperationRecordModel),
    ClaimRefused(OperationErrorModel),
    Found(Result<Option<OperationRecordModel>, OperationErrorModel>),
    Cut(Result<BarrierDurabilityReceiptModel, BarrierError>),
}

impl View for RunEvent {
    type V = RunEventModel;

    open spec fn view(&self) -> RunEventModel {
        match *self {
            RunEvent::Receipt(Ok(Some(receipt))) => RunEventModel::Receipt(Ok(Some(receipt@))),
            RunEvent::Receipt(Ok(None)) => RunEventModel::Receipt(Ok(None)),
            RunEvent::Receipt(Err(error)) => RunEventModel::Receipt(Err(error)),
            RunEvent::Begun(Ok(record)) => RunEventModel::Begun(Ok(record@)),
            RunEvent::Begun(Err(error)) => RunEventModel::Begun(Err(error)),
            RunEvent::Claimed(Ok(EffectDispatchClaim::Installed(record))) => {
                RunEventModel::Installed(record@)
            },
            RunEvent::Claimed(Ok(EffectDispatchClaim::Existing(record))) => RunEventModel::Existing(
                record@,
            ),
            RunEvent::Claimed(Err(error)) => RunEventModel::ClaimRefused(error@),
            RunEvent::Found(Ok(WorkspaceOperationLookup::Known(record))) => RunEventModel::Found(
                Ok(Some(record@)),
            ),
            RunEvent::Found(Ok(WorkspaceOperationLookup::Unknown)) => RunEventModel::Found(
                Ok(None),
            ),
            RunEvent::Found(Err(error)) => RunEventModel::Found(Err(error@)),
            RunEvent::Cut(Ok(receipt)) => RunEventModel::Cut(Ok(receipt@)),
            RunEvent::Cut(Err(error)) => RunEventModel::Cut(Err(error)),
        }
    }
}

/// The answer that a receipt gives.
pub open spec fn materialized(receipt: BarrierDurabilityReceiptModel) -> RunPhaseModel {
    RunPhaseModel::Done(Ok(MaterializeModel::Materialized(receipt)))
}

/// The answer that an operation with its outcome gives.
pub open spec fn already_terminal(record: OperationRecordModel) -> RunPhaseModel {
    RunPhaseModel::Done(Ok(MaterializeModel::AlreadyTerminal(record)))
}

/// The answer of a refusal.
pub open spec fn refused(error: BarrierError) -> RunPhaseModel {
    RunPhaseModel::Done(Err(error))
}

/// The phase after an event. `claim` is the request's own claim. An event that the phase
/// does not wait for changes nothing.
pub open spec fn run_step(phase: RunPhaseModel, claim: Seq<u8>, event: RunEventModel) -> RunPhaseModel {
    match (phase, event) {
        (RunPhaseModel::LookUp, RunEventModel::Receipt(reply)) => match reply {
            Ok(Some(receipt)) => materialized(receipt),
            Ok(None) => RunPhaseModel::Begin,
            Err(error) => refused(error),
        },
        (RunPhaseModel::Begin, RunEventModel::Begun(reply)) => match reply {
            Ok(record) => match record.state {
                StateModel::Pending => RunPhaseModel::Claim,
                StateModel::EffectDispatched(_) => RunPhaseModel::ReadBack,
                _ => already_terminal(record),
            },
            Err(error) => refused(error),
        },
        (RunPhaseModel::Claim, RunEventModel::Installed(_)) => RunPhaseModel::Dispatch,
        (RunPhaseModel::Claim, RunEventModel::Existing(record)) => if record.state.is_terminal() {
            already_terminal(record)
        } else {
            RunPhaseModel::ReadBack
        },
        (RunPhaseModel::Claim, RunEventModel::ClaimRefused(error)) => match error {
            OperationErrorModel::CommitOutcomeUnknown => RunPhaseModel::Recover,
            OperationErrorModel::RequestConflict => RunPhaseModel::ReadBack,
            _ => refused(barrier_error(error)),
        },
        (RunPhaseModel::Recover, RunEventModel::Found(reply)) => match reply {
            Ok(Some(record)) => if record.state == StateModel::EffectDispatched(claim) {
                RunPhaseModel::Dispatch
            } else {
                RunPhaseModel::ReadBack
            },
            Ok(None) => RunPhaseModel::ReadBack,
            Err(error) => refused(barrier_error(error)),
        },
        (RunPhaseModel::Dispatch, RunEventModel::Cut(reply)) => match reply {
            Ok(receipt) => materialized(receipt),
            Err(BarrierError::CommitOutcomeUnknown) => RunPhaseModel::ReadBack,
            Err(error) => refused(error),
        },
        (RunPhaseModel::ReadBack, RunEventModel::Receipt(reply)) => match reply {
            Ok(Some(receipt)) => materialized(receipt),
            Ok(None) => refused(BarrierError::CommitOutcomeUnknown),
            Err(error) => refused(error),
        },
        _ => phase,
    }
}

/// What to do next.
pub enum RunAction {
    /// Look for the barrier's receipt.
    LookUpReceipt,
    /// Begin the operation in the ledger.
    Begin,
    /// Claim the effect in the ledger.
    Claim,
    /// Look the operation up.
    FindOperation,
    /// Ask the writer for the cut.
    Dispatch(WorkspaceBarrierRequest),
    /// Nothing: the answer is there.
    Finish,
}

/// One barrier request.
pub struct BarrierRun {
    input: VerifiedBarrierInput,
    candidate: BarrierCandidate,
    phase: RunPhase,
}

impl BarrierRun {
    #[verifier::type_invariant]
    spec fn inv(self) -> bool {
        claims(contents(self.candidate.claim), self.input@, self.candidate.barrier_id@)
    }

    /// The command of the request.
    pub closed spec fn command_view(self) -> BarrierCommandModel {
        self.input@
    }

    /// The identity of the barrier that the request would make.
    pub closed spec fn barrier_id(self) -> Seq<char> {
        self.candidate.barrier_id@
    }

    /// The claim of the request.
    pub closed spec fn claim_view(self) -> Seq<u8> {
        contents(self.candidate.claim)
    }

    pub closed spec fn phase_view(self) -> RunPhaseModel {
        self.phase@
    }

    /// A request that has read nothing, with fresh identities for the barrier and for
    /// whoever installs its claim.
    pub fn start(input: VerifiedBarrierInput) -> (run: Self)
        ensures
            run.command_view() == input@,
            run.phase_view() == RunPhaseModel::LookUp,
            claims(run.claim_view(), input@, run.barrier_id()),
    {
        let barrier_id = new_canonical_v4();
        let installer_id = new_canonical_v4();
        let claim = effect_claim(input.command(), &barrier_id, &installer_id);
        assert(contents(claim) == claim_bytes(input@, barrier_id@, installer_id@));
        BarrierRun {
            input,
            candidate: BarrierCandidate { barrier_id, claim },
            phase: RunPhase::LookUp,
        }
    }

    pub fn input(&self) -> (input: &VerifiedBarrierInput)
        ensures
            input@ == self.command_view(),
    {
        &self.input
    }

    pub fn candidate(&self) -> (candidate: &BarrierCandidate)
        ensures
            contents(candidate.claim) == self.claim_view(),
            candidate.barrier_id@ == self.barrier_id(),
            claims(self.claim_view(), self.command_view(), self.barrier_id()),
    {
        proof {
            use_type_invariant(self);
        }
        &self.candidate
    }

    /// What to do next. The writer is asked for exactly the command, under the claim.
    pub fn action(&self) -> (action: RunAction)
        ensures
            match self.phase_view() {
                RunPhaseModel::LookUp => action is LookUpReceipt,
                RunPhaseModel::Begin => action is Begin,
                RunPhaseModel::Claim => action is Claim,
                RunPhaseModel::Recover => action is FindOperation,
                RunPhaseModel::Dispatch => action matches RunAction::Dispatch(request)
                    && request.command@ == self.command_view() && contents(request.effect_claim)
                    == self.claim_view() && request.barrier_id@ == self.barrier_id(),
                RunPhaseModel::ReadBack => action is LookUpReceipt,
                RunPhaseModel::Done(_) => action is Finish,
            },
    {
        match &self.phase {
            RunPhase::LookUp => RunAction::LookUpReceipt,
            RunPhase::Begin => RunAction::Begin,
            RunPhase::Claim => RunAction::Claim,
            RunPhase::Recover => RunAction::FindOperation,
            RunPhase::Dispatch => RunAction::Dispatch(
                WorkspaceBarrierRequest {
                    command: self.input.command().clone(),
                    effect_claim: bytes_clone(&self.candidate.claim),
                    barrier_id: self.candidate.barrier_id.clone(),
                },
            ),
            RunPhase::ReadBack => RunAction::LookUpReceipt,
            RunPhase::Done(_) => RunAction::Finish,
        }
    }

    /// Takes in what was found.
    pub fn advance(self, event: RunEvent) -> (next: Self)
        ensures
            next.command_view() == self.command_view(),
            next.claim_view() == self.claim_view(),
            next.barrier_id() == self.barrier_id(),
            next.phase_view() == run_step(self.phase_view(), self.claim_view(), event@),
    {
        proof {
            use_type_invariant(&self);
        }
        let phase = next_phase(self.phase, &self.candidate.claim, event);
        BarrierRun { input: self.input, candidate: self.candidate, phase }
    }

    /// The answer, once it is there.
    pub fn into_result(self) -> (result: Option<Result<BarrierMaterializeResult, BarrierError>>)
        ensures
            match self.phase_view() {
                RunPhaseModel::Done(Ok(expected)) => result matches Some(Ok(r)) && r@ == expected,
                RunPhaseModel::Done(Err(error)) => result matches Some(Err(e)) && e == error,
                _ => result is None,
            },
    {
        match self.phase {
            RunPhase::Done(result) => Some(result),
            _ => None,
        }
    }
}

fn found_receipt(receipt: BarrierDurabilityReceipt) -> (phase: RunPhase)
    ensures
        phase@ == materialized(receipt@),
{
    RunPhase::Done(Ok(BarrierMaterializeResult::Materialized(Box::new(receipt))))
}

fn after_begin(record: WorkspaceOperationRecord) -> (phase: RunPhase)
    ensures
        phase@ == run_step(RunPhaseModel::Begin, Seq::empty(), RunEventModel::Begun(Ok(record@))),
{
    match &record.state {
        WorkspaceOperationState::Pending => RunPhase::Claim,
        WorkspaceOperationState::EffectDispatched(_) => RunPhase::ReadBack,
        _ => RunPhase::Done(Ok(BarrierMaterializeResult::AlreadyTerminal(record))),
    }
}

fn after_existing(record: WorkspaceOperationRecord) -> (phase: RunPhase)
    ensures
        phase@ == run_step(RunPhaseModel::Claim, Seq::empty(), RunEventModel::Existing(record@)),
{
    if record.state.is_terminal() {
        RunPhase::Done(Ok(BarrierMaterializeResult::AlreadyTerminal(record)))
    } else {
        RunPhase::ReadBack
    }
}

fn after_refused_claim(error: WorkspaceOperationError) -> (phase: RunPhase)
    ensures
        phase@ == run_step(RunPhaseModel::Claim, Seq::empty(), RunEventModel::ClaimRefused(error@)),
{
    match error {
        WorkspaceOperationError::CommitOutcomeUnknown => RunPhase::Recover,
        WorkspaceOperationError::RequestConflict => RunPhase::ReadBack,
        other => RunPhase::Done(Err(BarrierError::from(other))),
    }
}

fn after_lost_claim(claim: &Bytes, lookup: WorkspaceOperationLookup) -> (phase: RunPhase)
    ensures
        phase@ == run_step(
            RunPhaseModel::Recover,
            contents(*claim),
            RunEvent::Found(Ok(lookup))@,
        ),
{
    match lookup {
        WorkspaceOperationLookup::Known(record) => match record.state {
            WorkspaceOperationState::EffectDispatched(existing) => if same_bytes(
                bytes_slice(&existing),
                bytes_slice(claim),
            ) {
                RunPhase::Dispatch
            } else {
                RunPhase::ReadBack
            },
            _ => RunPhase::ReadBack,
        },
        WorkspaceOperationLookup::Unknown => RunPhase::ReadBack,
    }
}

fn next_phase(phase: RunPhase, claim: &Bytes, event: RunEvent) -> (next: RunPhase)
    ensures
        next@ == run_step(phase@, contents(*claim), event@),
{
    match (phase, event) {
        (RunPhase::LookUp, RunEvent::Receipt(reply)) => match reply {
            Ok(Some(receipt)) => found_receipt(receipt),
            Ok(None) => RunPhase::Begin,
            Err(error) => RunPhase::Done(Err(error)),
        },
        (RunPhase::Begin, RunEvent::Begun(reply)) => match reply {
            Ok(record) => after_begin(record),
            Err(error) => RunPhase::Done(Err(error)),
        },
        (RunPhase::Claim, RunEvent::Claimed(reply)) => match reply {
            Ok(EffectDispatchClaim::Installed(_)) => RunPhase::Dispatch,
            Ok(EffectDispatchClaim::Existing(record)) => after_existing(record),
            Err(error) => after_refused_claim(error),
        },
        (RunPhase::Recover, RunEvent::Found(reply)) => match reply {
            Ok(lookup) => after_lost_claim(claim, lookup),
            Err(error) => RunPhase::Done(Err(BarrierError::from(error))),
        },
        (RunPhase::Dispatch, RunEvent::Cut(reply)) => match reply {
            Ok(receipt) => found_receipt(receipt),
            Err(BarrierError::CommitOutcomeUnknown) => RunPhase::ReadBack,
            Err(error) => RunPhase::Done(Err(error)),
        },
        (RunPhase::ReadBack, RunEvent::Receipt(reply)) => match reply {
            Ok(Some(receipt)) => found_receipt(receipt),
            Ok(None) => RunPhase::Done(Err(BarrierError::CommitOutcomeUnknown)),
            Err(error) => RunPhase::Done(Err(error)),
        },
        (phase, _) => phase,
    }
}

/// How many more answers a request can need.
pub open spec fn run_rank(phase: RunPhaseModel) -> nat {
    match phase {
        RunPhaseModel::LookUp => 6,
        RunPhaseModel::Begin => 5,
        RunPhaseModel::Claim => 4,
        RunPhaseModel::Recover => 3,
        RunPhaseModel::Dispatch => 2,
        RunPhaseModel::ReadBack => 1,
        RunPhaseModel::Done(_) => 0,
    }
}

/// The phase after a sequence of events.
pub open spec fn run_after(
    phase: RunPhaseModel,
    claim: Seq<u8>,
    events: Seq<RunEventModel>,
) -> RunPhaseModel
    decreases events.len(),
{
    if events.len() == 0 {
        phase
    } else {
        run_step(run_after(phase, claim, events.drop_last()), claim, events.last())
    }
}

/// A request never goes back: each event leaves it where it is or takes it closer to its
/// answer. So it asks the writer at most once, and it ends.
pub proof fn law_request_only_moves_forward(
    phase: RunPhaseModel,
    claim: Seq<u8>,
    event: RunEventModel,
)
    ensures
        run_step(phase, claim, event) == phase || run_rank(run_step(phase, claim, event))
            < run_rank(phase),
{
}

/// The writer is asked only by the owner of the effect: right after the ledger installed
/// the request's own claim, or found it installed when the answer was lost.
pub proof fn law_only_the_claimant_dispatches(
    phase: RunPhaseModel,
    claim: Seq<u8>,
    event: RunEventModel,
)
    requires
        run_step(phase, claim, event) is Dispatch,
        !(phase is Dispatch),
    ensures
        ({
            ||| phase is Claim && event is Installed
            ||| phase is Recover && (event matches RunEventModel::Found(Ok(Some(record)))
                && record.state == StateModel::EffectDispatched(claim))
        }),
{
}

/// A request that ends with a receipt was given that receipt, by the writer or by what
/// is durable.
pub proof fn law_answer_is_a_given_receipt(
    phase: RunPhaseModel,
    claim: Seq<u8>,
    event: RunEventModel,
    receipt: BarrierDurabilityReceiptModel,
)
    requires
        run_step(phase, claim, event) == materialized(receipt),
        !(phase is Done),
    ensures
        event == RunEventModel::Receipt(Ok(Some(receipt))) || event == RunEventModel::Cut(
            Ok(receipt),
        ),
{
}

/// Once a request has its answer, nothing changes it.
pub proof fn law_answer_is_final(
    result: Result<MaterializeModel, BarrierError>,
    claim: Seq<u8>,
    events: Seq<RunEventModel>,
)
    ensures
        run_after(RunPhaseModel::Done(result), claim, events) == RunPhaseModel::Done(result),
    decreases events.len(),
{
    if events.len() > 0 {
        law_answer_is_final(result, claim, events.drop_last());
    }
}

/// A request that finds the effect claimed by another call never asks the writer,
/// whatever it is told.
pub proof fn law_replay_never_dispatches(claim: Seq<u8>, events: Seq<RunEventModel>)
    ensures
        !(run_after(RunPhaseModel::ReadBack, claim, events) is Dispatch),
        run_rank(run_after(RunPhaseModel::ReadBack, claim, events)) <= 1,
    decreases events.len(),
{
    if events.len() > 0 {
        law_replay_never_dispatches(claim, events.drop_last());
    }
}

} // verus!
