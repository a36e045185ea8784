//! Operation identities, states and errors.

use crate::fs::errors::error_message;
use crate::fs::errors::FsError;
use crate::outside::bytes_clone;
use crate::outside::bytes_slice;
use crate::outside::contents;
use crate::wire::same_bytes;
use bytes::Bytes;
use vstd::prelude::*;
use vstd::string::StringExecFns;

verus! {

/// Exact canonical SHA-256 digest of a request.
#[derive(Debug, Clone, Copy, PartialEq, Eq)]
pub struct CanonicalRequestDigest([u8; 32]);

impl View for CanonicalRequestDigest {
    type V = Seq<u8>;

    closed spec fn view(&self) -> Seq<u8> {
        self.0@
    }
}

impl CanonicalRequestDigest {
    pub fn new(bytes: [u8; 32]) -> (digest: Self)
        ensures
            digest@ == bytes@,
    {
        CanonicalRequestDigest(bytes)
    }

    pub fn as_bytes(&self) -> (bytes: &[u8; 32])
        ensures
            bytes@ == self@,
    {
        &self.0
    }

    /// Whether two digests are equal.
    pub fn same(&self, other: &Self) -> (same: bool)
        ensures
            same == (self@ == other@),
    {
        same_bytes(&self.0, &other.0)
    }
}

/// Durable scope of one operation. `kind` is a positive number that the protocol
/// assigns.
#[derive(Debug, PartialEq, Eq)]
pub struct WorkspaceOperationKey {
    pub workspace_id: String,
    pub kind: i32,
    pub request_id: String,
}

/// The value of `WorkspaceOperationKey`.
pub struct WorkspaceOperationKeyModel {
    pub workspace_id: Seq<char>,
    pub kind: i32,
    pub request_id: Seq<char>,
}

impl View for WorkspaceOperationKey {
    type V = WorkspaceOperationKeyModel;

    open spec fn view(&self) -> WorkspaceOperationKeyModel {
        WorkspaceOperationKeyModel {
            workspace_id: self.workspace_id@,
            kind: self.kind,
            request_id: self.request_id@,
        }
    }
}

impl Clone for WorkspaceOperationKey {
    fn clone(&self) -> (copy: Self)
        ensures
            copy@ == self@,
    {
        WorkspaceOperationKey {
            workspace_id: self.workspace_id.clone(),
            kind: self.kind,
            request_id: self.request_id.clone(),
        }
    }
}

impl WorkspaceOperationKey {
    pub fn new(workspace_id: &str, kind: i32, request_id: &str) -> (key: Self)
        ensures
            key@ == (WorkspaceOperationKeyModel {
                workspace_id: workspace_id@,
                kind,
                request_id: request_id@,
            }),
    {
        WorkspaceOperationKey {
            workspace_id: workspace_id.to_owned(),
            kind,
            request_id: request_id.to_owned(),
        }
    }
}

/// Exact terminal bytes. The success payload is the response or receipt; negative
/// payloads are the complete signed-negative receipt.
#[derive(Debug, PartialEq, Eq)]
pub enum WorkspaceTerminalOutcome {
    Succeeded(Bytes),
    Failed(Bytes),
    NotCommitted(Bytes),
}

/// How far an operation has come.
#[derive(Debug, PartialEq, Eq)]
pub enum WorkspaceOperationState {
    Pending,
    /// One immutable, domain-specific effect-dispatch claim. The exact bytes identify
    /// the only mutation attempt authorized for this operation.
    EffectDispatched(Bytes),
    Succeeded(Bytes),
    Failed(Bytes),
    NotCommitted(Bytes),
}

/// The value of `WorkspaceOperationState`.
pub enum StateModel {
    Pending,
    EffectDispatched(Seq<u8>),
    Succeeded(Seq<u8>),
    Failed(Seq<u8>),
    NotCommitted(Seq<u8>),
}

impl StateModel {
    /// The operation has its outcome.
    pub open spec fn is_terminal(self) -> bool {
        !(self is Pending || self is EffectDispatched)
    }

    /// The bytes that the state carries.
    pub open spec fn payload(self) -> Seq<u8> {
        match self {
            StateModel::Pending => Seq::empty(),
            StateModel::EffectDispatched(bytes) => bytes,
            StateModel::Succeeded(bytes) => bytes,
            StateModel::Failed(bytes) => bytes,
            StateModel::NotCommitted(bytes) => bytes,
        }
    }

    /// Every state but `Pending` carries bytes.
    pub open spec fn valid(self) -> bool {
        self is Pending || self.payload().len() > 0
    }
}

impl View for WorkspaceOperationState {
    type V = StateModel;

    open spec fn view(&self) -> StateModel {
        match *self {
            WorkspaceOperationState::Pending => StateModel::Pending,
            WorkspaceOperationState::EffectDispatched(bytes) => StateModel::EffectDispatched(
                contents(bytes),
            ),
            WorkspaceOperationState::Succeeded(bytes) => StateModel::Succeeded(contents(bytes)),
            WorkspaceOperationState::Failed(bytes) => StateModel::Failed(contents(bytes)),
            WorkspaceOperationState::NotCommitted(bytes) => StateModel::NotCommitted(
                contents(bytes),
            ),
        }
    }
}

impl View for WorkspaceTerminalOutcome {
    type V = StateModel;

    open spec fn view(&self) -> StateModel {
        match *self {
            WorkspaceTerminalOutcome::Succeeded(bytes) => StateModel::Succeeded(contents(bytes)),
            WorkspaceTerminalOutcome::Failed(bytes) => StateModel::Failed(contents(bytes)),
            WorkspaceTerminalOutcome::NotCommitted(bytes) => StateModel::NotCommitted(
                contents(bytes),
            ),
        }
    }
}

impl Clone for WorkspaceTerminalOutcome {
    fn clone(&self) -> (copy: Self)
        ensures
            copy@ == self@,
    {
        match self {
            WorkspaceTerminalOutcome::Succeeded(bytes) => WorkspaceTerminalOutcome::Succeeded(
                bytes_clone(bytes),
            ),
            WorkspaceTerminalOutcome::Failed(bytes) => WorkspaceTerminalOutcome::Failed(
                bytes_clone(bytes),
            ),
            WorkspaceTerminalOutcome::NotCommitted(bytes) => WorkspaceTerminalOutcome::NotCommitted(
                bytes_clone(bytes),
            ),
        }
    }
}

impl Clone for WorkspaceOperationState {
    fn clone(&self) -> (copy: Self)
        ensures
            copy@ == self@,
    {
        match self {
            WorkspaceOperationState::Pending => WorkspaceOperationState::Pending,
            WorkspaceOperationState::EffectDispatched(
                bytes,
            ) => WorkspaceOperationState::EffectDispatched(bytes_clone(bytes)),
            WorkspaceOperationState::Succeeded(bytes) => WorkspaceOperationState::Succeeded(
                bytes_clone(bytes),
            ),
            WorkspaceOperationState::Failed(bytes) => WorkspaceOperationState::Failed(
                bytes_clone(bytes),
            ),
            WorkspaceOperationState::NotCommitted(bytes) => WorkspaceOperationState::NotCommitted(
                bytes_clone(bytes),
            ),
        }
    }
}

impl WorkspaceOperationState {
    /// Whether the operation has its outcome.
    pub fn is_terminal(&self) -> (terminal: bool)
        ensures
            terminal == self@.is_terminal(),
    {
        !matches!(
            self,
            WorkspaceOperationState::Pending | WorkspaceOperationState::EffectDispatched(_)
        )
    }

    /// Whether two states are equal.
    pub fn same(&self, other: &Self) -> (same: bool)
        ensures
            same == (self@ == other@),
    {
        match (self, other) {
            (WorkspaceOperationState::Pending, WorkspaceOperationState::Pending) => true,
            (
                WorkspaceOperationState::EffectDispatched(a),
                WorkspaceOperationState::EffectDispatched(b),
            ) => same_bytes(bytes_slice(a), bytes_slice(b)),
            (
                WorkspaceOperationState::Succeeded(a),
                WorkspaceOperationState::Succeeded(b),
            ) => same_bytes(bytes_slice(a), bytes_slice(b)),
            (WorkspaceOperationState::Failed(a), WorkspaceOperationState::Failed(b)) => same_bytes(
                bytes_slice(a),
                bytes_slice(b),
            ),
            (
                WorkspaceOperationState::NotCommitted(a),
                WorkspaceOperationState::NotCommitted(b),
            ) => same_bytes(bytes_slice(a), bytes_slice(b)),
            _ => false,
        }
    }
}

/// The terminal state of an outcome.
pub open spec fn outcome_state(outcome: WorkspaceTerminalOutcome) -> WorkspaceOperationState {
    match outcome {
        WorkspaceTerminalOutcome::Succeeded(bytes) => WorkspaceOperationState::Succeeded(bytes),
        WorkspaceTerminalOutcome::Failed(bytes) => WorkspaceOperationState::Failed(bytes),
        WorkspaceTerminalOutcome::NotCommitted(bytes) => WorkspaceOperationState::NotCommitted(
            bytes,
        ),
    }
}

impl From<WorkspaceTerminalOutcome> for WorkspaceOperationState {
    fn from(outcome: WorkspaceTerminalOutcome) -> (state: Self) {
        match outcome {
            WorkspaceTerminalOutcome::Succeeded(bytes) => WorkspaceOperationState::Succeeded(bytes),
            WorkspaceTerminalOutcome::Failed(bytes) => WorkspaceOperationState::Failed(bytes),
            WorkspaceTerminalOutcome::NotCommitted(bytes) => WorkspaceOperationState::NotCommitted(
                bytes,
            ),
        }
    }
}

impl vstd::std_specs::convert::FromSpecImpl<WorkspaceTerminalOutcome> for WorkspaceOperationState {
    open spec fn obeys_from_spec() -> bool {
        true
    }

    open spec fn from_spec(outcome: WorkspaceTerminalOutcome) -> WorkspaceOperationState {
        outcome_state(outcome)
    }
}

/// What is stored of an operation.
#[derive(Debug, PartialEq, Eq)]
pub struct WorkspaceOperationRecord {
    pub request_digest: CanonicalRequestDigest,
    pub state: WorkspaceOperationState,
}

/// The value of `WorkspaceOperationRecord`.
pub struct OperationRecordModel {
    pub request_digest: Seq<u8>,
    pub state: StateModel,
}

impl View for WorkspaceOperationRecord {
    type V = OperationRecordModel;

    open spec fn view(&self) -> OperationRecordModel {
        OperationRecordModel { request_digest: self.request_digest@, state: self.state@ }
    }
}

impl Clone for WorkspaceOperationRecord {
    fn clone(&self) -> (copy: Self)
        ensures
            copy@ == self@,
    {
        WorkspaceOperationRecord { request_digest: self.request_digest, state: self.state.clone() }
    }
}

impl WorkspaceOperationRecord {
    /// Whether two records are equal.
    pub fn same(&self, other: &Self) -> (same: bool)
        ensures
            same == (self@ == other@),
    {
        self.request_digest.same(&other.request_digest) && self.state.same(&other.state)
    }
}

/// What is known of an operation.
#[derive(Debug, PartialEq, Eq)]
pub enum WorkspaceOperationLookup {
    /// No conclusive positive intent or terminal proof is durable.
    Unknown,
    Known(WorkspaceOperationRecord),
}

/// What the ledger answered to the claim of an effect.
#[derive(Debug, PartialEq, Eq)]
pub enum EffectDispatchClaim {
    /// This call's claim was installed; it may dispatch the effect.
    Installed(WorkspaceOperationRecord),
    /// The operation had moved on before.
    Existing(WorkspaceOperationRecord),
}

/// Why a ledger request was refused.
#[derive(Debug, PartialEq, Eq)]
pub enum WorkspaceOperationError {
    /// The identity is invalid, for the reason given.
    InvalidIdentity(&'static str),
    /// The request digest conflicts with the durable digest.
    RequestConflict,
    /// The terminal outcome is immutable.
    TerminalImmutable,
    /// The record is corrupt, for the reason given.
    CorruptRecord(&'static str),
    /// The commit outcome is unknown; read the ledger.
    CommitOutcomeUnknown,
    /// Storage failed.
    Storage(FsError),
}

/// The value of `WorkspaceOperationError`.
pub enum OperationErrorModel {
    InvalidIdentity(Seq<char>),
    RequestConflict,
    TerminalImmutable,
    CorruptRecord(Seq<char>),
    CommitOutcomeUnknown,
    Storage(FsError),
}

impl View for WorkspaceOperationError {
    type V = OperationErrorModel;

    open spec fn view(&self) -> OperationErrorModel {
        match *self {
            WorkspaceOperationError::InvalidIdentity(reason) => OperationErrorModel::InvalidIdentity(
                reason@,
            ),
            WorkspaceOperationError::RequestConflict => OperationErrorModel::RequestConflict,
            WorkspaceOperationError::TerminalImmutable => OperationErrorModel::TerminalImmutable,
            WorkspaceOperationError::CorruptRecord(reason) => OperationErrorModel::CorruptRecord(
                reason@,
            ),
            WorkspaceOperationError::CommitOutcomeUnknown => OperationErrorModel::CommitOutcomeUnknown,
            WorkspaceOperationError::Storage(error) => OperationErrorModel::Storage(error),
        }
    }
}

/// What is reported of a refusal in words.
pub open spec fn operation_message(error: OperationErrorModel) -> Seq<char> {
    match error {
        OperationErrorModel::InvalidIdentity(reason) => "workspace operation identity is invalid: "@
            + reason,
        OperationErrorModel::RequestConflict => "workspace operation request digest conflicts with the durable digest"@,
        OperationErrorModel::TerminalImmutable => "workspace operation terminal outcome is immutable"@,
        OperationErrorModel::CorruptRecord(reason) => "workspace operation record is corrupt: "@
            + reason,
        OperationErrorModel::CommitOutcomeUnknown => "workspace operation commit outcome is unknown; read the ledger"@,
        OperationErrorModel::Storage(error) => "workspace operation storage failed: "@
            + error_message(error),
    }
}

fn two_parts(first: &str, second: &str) -> (text: String)
    ensures
        text@ == first@ + second@,
{
    let mut text = first.to_owned();
    text.append(second);
    text
}

impl WorkspaceOperationError {
    /// The error in words.
    pub fn message(&self) -> (text: String)
        ensures
            text@ == operation_message(self@),
    {
        match self {
            WorkspaceOperationError::InvalidIdentity(reason) => two_parts(
                "workspace operation identity is invalid: ",
                reason,
            ),
            WorkspaceOperationError::RequestConflict => {
                "workspace operation request digest conflicts with the durable digest".to_owned()
            },
            WorkspaceOperationError::TerminalImmutable => {
                "workspace operation terminal outcome is immutable".to_owned()
            },
            WorkspaceOperationError::CorruptRecord(reason) => two_parts(
                "workspace operation record is corrupt: ",
                reason,
            ),
            WorkspaceOperationError::CommitOutcomeUnknown => {
                "workspace operation commit outcome is unknown; read the ledger".to_owned()
            },
            WorkspaceOperationError::Storage(error) => two_parts(
                "workspace operation storage failed: ",
                error.message(),
            ),
        }
    }
}

/// The ledger's error for a storage failure.
pub open spec fn storage_error(error: FsError) -> WorkspaceOperationError {
    if error == FsError::CommitOutcomeUnknown {
        WorkspaceOperationError::CommitOutcomeUnknown
    } else {
        WorkspaceOperationError::Storage(error)
    }
}

impl From<FsError> for WorkspaceOperationError {
    fn from(error: FsError) -> (result: Self) {
        match error {
            FsError::CommitOutcomeUnknown => WorkspaceOperationError::CommitOutcomeUnknown,
            other => WorkspaceOperationError::Storage(other),
        }
    }
}

impl vstd::std_specs::convert::FromSpecImpl<FsError> for WorkspaceOperationError {
    open spec fn obeys_from_spec() -> bool {
        true
    }

    open spec fn from_spec(error: FsError) -> WorkspaceOperationError {
        storage_error(error)
    }
}

} // verus!
