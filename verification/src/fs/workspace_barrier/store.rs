//! What barriers read and write, decided row by row.

use super::digests::effect_claim;
use super::rules::answer_fault;
use super::rules::ensure_receipt_matches_command;
use super::rules::head_fault;
use super::rules::outcome;
use super::rules::receipt_fault;
use super::rules::valid_command;
use super::rules::validate_command;
use super::rules::validate_head_record;
use super::rules::validate_receipt;
use super::run::BarrierCandidate;
use super::types::barrier_error;
use super::types::BarrierCommand;
use super::types::BarrierCommandModel;
use super::types::BarrierDurabilityReceipt;
use super::types::BarrierDurabilityReceiptModel;
use super::types::BarrierError;
use super::types::WorkspaceHeadRecord;
use super::types::WorkspaceHeadRecordModel;
use crate::fs::workspace_operation::ledger::is_step;
use crate::fs::workspace_operation::ledger::stored_verdict;
use crate::fs::workspace_operation::ledger::stored_view;
use crate::fs::workspace_operation::ledger::LedgerRequest;
use crate::fs::workspace_operation::ledger::LedgerStep;
use crate::fs::workspace_operation::ledger::LedgerVerdict;
use crate::fs::workspace_operation::ledger::WorkspaceOperationLedger;
use crate::fs::workspace_operation::types::StateModel;
use crate::fs::workspace_operation::types::WorkspaceOperationError;
use crate::fs::workspace_operation::types::WorkspaceOperationKeyModel;
use crate::fs::workspace_operation::types::WorkspaceTerminalOutcome;
use crate::outside::bytes_clone;
use crate::outside::bytes_slice;
use crate::outside::contents;
use crate::wire::same_bytes;
use crate::wire::same_str;
use bytes::Bytes;
use vstd::prelude::*;

verus! {

/// A command that has been verified: it is valid.
#[derive(Debug)]
pub struct VerifiedBarrierInput {
    command: BarrierCommand,
}

impl View for VerifiedBarrierInput {
    type V = BarrierCommandModel;

    closed spec fn view(&self) -> BarrierCommandModel {
        self.command@
    }
}

impl Clone for VerifiedBarrierInput {
    fn clone(&self) -> (copy: Self)
        ensures
            copy@ == self@,
    {
        proof {
            use_type_invariant(self);
        }
        VerifiedBarrierInput { command: self.command.clone() }
    }
}

impl VerifiedBarrierInput {
    #[verifier::type_invariant]
    spec fn inv(self) -> bool {
        valid_command(self.command@)
    }

    /// Seals a valid command, for tests and deterministic simulation.
    pub fn for_test(command: BarrierCommand) -> (result: Result<Self, BarrierError>)
        ensures
            if valid_command(command@) {
                result matches Ok(input) && input@ == command@
            } else {
                result matches Err(e) && e == BarrierError::Invalid
            },
    {
        validate_command(&command)?;
        Ok(VerifiedBarrierInput { command })
    }

    pub fn command(&self) -> (command: &BarrierCommand)
        ensures
            command@ == self@,
            valid_command(self@),
    {
        proof {
            use_type_invariant(self);
        }
        &self.command
    }
}

/// A valid receipt with the exact signed bytes of its outcome.
pub struct VerifiedBarrierTerminal {
    receipt: BarrierDurabilityReceipt,
    bytes: Bytes,
}

impl VerifiedBarrierTerminal {
    #[verifier::type_invariant]
    spec fn inv(self) -> bool {
        receipt_fault(self.receipt@) is None && contents(self.bytes).len() > 0
    }

    /// The receipt that the bytes sign.
    pub closed spec fn receipt(self) -> BarrierDurabilityReceiptModel {
        self.receipt@
    }

    /// The signed bytes.
    pub closed spec fn bytes(self) -> Seq<u8> {
        contents(self.bytes)
    }

    /// Seals a receipt and its terminal bytes, for tests and deterministic simulation.
    pub fn for_test(receipt: BarrierDurabilityReceipt, bytes: Bytes) -> (result: Result<
        Self,
        BarrierError,
    >)
        ensures
            if contents(bytes).len() == 0 {
                result matches Err(e) && e == BarrierError::Invalid
            } else {
                match receipt_fault(receipt@) {
                    Some(fault) => result matches Err(e) && e == fault,
                    None => result matches Ok(terminal) && terminal.receipt() == receipt@
                        && terminal.bytes() == contents(bytes),
                }
            },
    {
        if bytes_slice(&bytes).len() == 0 {
            return Err(BarrierError::Invalid);
        }
        validate_receipt(&receipt)?;
        Ok(VerifiedBarrierTerminal { receipt, bytes })
    }
}

/// `result` is the step that the ledger's verdict asks for, or its error as a barrier
/// reports it.
pub open spec fn is_barrier_step(
    result: Result<LedgerStep, BarrierError>,
    key: WorkspaceOperationKeyModel,
    verdict: LedgerVerdict,
) -> bool {
    match verdict {
        LedgerVerdict::Refuse(fault) => result matches Err(e) && e == barrier_error(fault),
        _ => match result {
            Ok(step) => is_step(Ok::<LedgerStep, WorkspaceOperationError>(step), key, verdict),
            Err(e) => verdict matches LedgerVerdict::Write(record) && record.state.payload().len()
                > u32::MAX && e == BarrierError::Corrupt,
        },
    }
}

fn ledger_result(result: Result<LedgerStep, WorkspaceOperationError>) -> (mapped: Result<
    LedgerStep,
    BarrierError,
>)
    ensures
        match result {
            Ok(step) => mapped == Ok::<LedgerStep, BarrierError>(step),
            Err(e) => mapped == Err::<LedgerStep, BarrierError>(barrier_error(e@)),
        },
{
    match result {
        Ok(step) => Ok(step),
        Err(e) => Err(BarrierError::from(e)),
    }
}

/// The barrier decisions of one filesystem, over its operation ledger.
pub struct WorkspaceBarrierStore {
    operations: WorkspaceOperationLedger,
}

impl WorkspaceBarrierStore {
    pub fn new(operations: WorkspaceOperationLedger) -> (store: Self)
        ensures
            store.ledger() == operations,
    {
        WorkspaceBarrierStore { operations }
    }

    pub closed spec fn ledger(self) -> WorkspaceOperationLedger {
        self.operations
    }

    /// Begins the operation of a barrier that has no receipt, given what the ledger
    /// stores of it.
    pub fn materialize(&self, verified: &VerifiedBarrierInput, stored: Option<&[u8]>) -> (result:
        Result<LedgerStep, BarrierError>)
        ensures
            is_barrier_step(
                result,
                verified@.operation,
                stored_verdict(
                    verified@.operation,
                    stored_view(stored),
                    verified@.request_digest,
                    LedgerRequest::Begin,
                ),
            ),
    {
        let command = verified.command();
        validate_command(command)?;
        ledger_result(self.operations.begin(&command.operation, command.request_digest, stored))
    }

    /// Claims the effect, given what the ledger stores of the operation.
    pub fn claim(
        &self,
        verified: &VerifiedBarrierInput,
        candidate: &BarrierCandidate,
        stored: Option<&[u8]>,
    ) -> (result: Result<LedgerStep, WorkspaceOperationError>)
        ensures
            is_step(
                result,
                verified@.operation,
                stored_verdict(
                    verified@.operation,
                    stored_view(stored),
                    verified@.request_digest,
                    LedgerRequest::Claim(contents(candidate.claim)),
                ),
            ),
    {
        let command = verified.command();
        self.operations.claim_effect_dispatch(
            &command.operation,
            command.request_digest,
            bytes_clone(&candidate.claim),
            stored,
        )
    }

    /// Whether a signed outcome answers the command, asked before anything is read.
    pub fn check_terminal(
        &self,
        verified: &VerifiedBarrierInput,
        terminal: &VerifiedBarrierTerminal,
    ) -> (result: Result<(), BarrierError>)
        ensures
            result == outcome(answer_fault(terminal.receipt(), verified@)),
    {
        ensure_receipt_matches_command(&terminal.receipt, verified.command())
    }

    /// Completes a claimed barrier with its signed outcome, given the receipt that is
    /// durable and what the ledger stores.
    pub fn complete(
        &self,
        verified: &VerifiedBarrierInput,
        terminal: VerifiedBarrierTerminal,
        durable: Option<BarrierDurabilityReceipt>,
        stored: Option<&[u8]>,
    ) -> (result: Result<LedgerStep, BarrierError>)
        ensures
            match answer_fault(terminal.receipt(), verified@) {
                Some(fault) => result matches Err(e) && e == fault,
                None => match durable {
                    None => result matches Err(e) && e == BarrierError::CommitOutcomeUnknown,
                    Some(receipt) => if receipt@ != terminal.receipt() {
                        result matches Err(e) && e == BarrierError::Conflict
                    } else {
                        is_barrier_step(
                            result,
                            verified@.operation,
                            stored_verdict(
                                verified@.operation,
                                stored_view(stored),
                                verified@.request_digest,
                                LedgerRequest::CompleteClaimed(
                                    receipt@.effect_claim,
                                    StateModel::Succeeded(terminal.bytes()),
                                ),
                            ),
                        )
                    },
                },
            },
    {
        let command = verified.command();
        ensure_receipt_matches_command(&terminal.receipt, command)?;
        let durable = match durable {
            Some(receipt) => receipt,
            None => {
                return Err(BarrierError::CommitOutcomeUnknown);
            },
        };
        if !durable.same(&terminal.receipt) {
            return Err(BarrierError::Conflict);
        }
        ledger_result(
            self.operations.complete_claimed_effect(
                &command.operation,
                command.request_digest,
                &durable.effect_claim,
                WorkspaceTerminalOutcome::Succeeded(terminal.bytes),
                stored,
            ),
        )
    }
}

/// A receipt lies in the graph below `current`, at the row of its own version.
pub open spec fn lies_in_graph(
    receipt: BarrierDurabilityReceiptModel,
    version: WorkspaceHeadRecordModel,
) -> bool {
    &&& version.head == receipt.head
    &&& version.last_barrier_request_id == Some(receipt.request_id)
    &&& version.last_barrier_request_digest == Some(receipt.request_digest)
}

/// The version of a receipt's head is one that the graph below `current` has.
pub open spec fn within_graph(
    receipt: BarrierDurabilityReceiptModel,
    current: WorkspaceHeadRecordModel,
) -> bool {
    &&& receipt.head.workspace_version != 0
    &&& receipt.head.workspace_version <= current.head.workspace_version
    &&& receipt.workspace_id == current.head.workspace_id
}

/// Whether the graph below `current` has the version of a receipt's head.
pub fn is_within_graph(receipt: &BarrierDurabilityReceipt, current: &WorkspaceHeadRecord) -> (within:
    bool)
    ensures
        within == within_graph(receipt@, current@),
{
    receipt.head.workspace_version != 0 && receipt.head.workspace_version
        <= current.head.workspace_version && same_str(
        &receipt.workspace_id,
        &current.head.workspace_id,
    )
}

/// Accepts a receipt whose head stands at its version, given the row read there.
pub fn validate_receipt_in_head_graph(
    receipt: &BarrierDurabilityReceipt,
    current: &WorkspaceHeadRecord,
    version: Option<&WorkspaceHeadRecord>,
) -> (result: Result<(), BarrierError>)
    ensures
        result == (match version {
            _ if !within_graph(receipt@, current@) => Err::<(), BarrierError>(
                BarrierError::Corrupt,
            ),
            None => Err(BarrierError::Corrupt),
            Some(row) => if head_fault(row@) is Some {
                Err(head_fault(row@)->0)
            } else if lies_in_graph(receipt@, row@) {
                Ok(())
            } else {
                Err(BarrierError::Corrupt)
            },
        }),
{
    if !is_within_graph(receipt, current) {
        return Err(BarrierError::Corrupt);
    }
    let row = match version {
        Some(row) => row,
        None => {
            return Err(BarrierError::Corrupt);
        },
    };
    validate_head_record(row)?;
    match (&row.last_barrier_request_id, &row.last_barrier_request_digest) {
        (Some(request_id), Some(request_digest)) => {
            if !row.head.same(&receipt.head) || !same_str(request_id, &receipt.request_id)
                || !same_bytes(request_digest, &receipt.request_digest) {
                return Err(BarrierError::Corrupt);
            }
            Ok(())
        },
        _ => Err(BarrierError::Corrupt),
    }
}

} // verus!
