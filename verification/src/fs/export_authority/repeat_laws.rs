//! What a second mutation of an operation that was committed comes to.

use super::admission::durable_result;
use super::laws::law_command_preimage_is_unambiguous;
use super::mutation::command_preimage;
use super::mutation::complete_token;
use super::mutation::data_checksum_domain;
use super::mutation::domain_digest;
use super::mutation::expectation_of;
use super::mutation::fulfils;
use super::mutation::is_conflict;
use super::mutation::request_identity;
use super::mutation::valid_expectation;
use super::rules::fenced;
use super::rules::mutation_result;
use super::rules::session_token;
use super::rules::valid_record;
use super::run::acknowledged;
use super::run::mutation_step;
use super::run::refused;
use super::run::MutationEventModel;
use super::run::MutationPhaseModel;
use super::run::MutationTask;
use super::types::ExportAuthorityError;
use super::types::ExportAuthorityRecordModel;
use super::types::ExportMutationCommandModel;
use super::types::ExportMutationOutcomeModel;
use super::types::ExportReverseBindingModel;
use super::types::MutationFenceTokenModel;
use crate::fs::envelope::no_collision;
use crate::wire::lemma_fixed_split;
use crate::wire::lemma_long_field_split;
use crate::wire::long_field;
use vstd::prelude::*;

verus! {

/// The phase of a mutation after a run of events.
pub open spec fn mutation_after(
    task: MutationTask,
    phase: MutationPhaseModel,
    events: Seq<MutationEventModel>,
) -> MutationPhaseModel
    decreases events.len(),
{
    if events.len() == 0 {
        phase
    } else {
        mutation_step(task, mutation_after(task, phase, events.drop_last()), events.last())
    }
}

/// The mutation that a command is built into and then run as, in the process
/// `server_boot_id`.
pub open spec fn task_of(
    token: MutationFenceTokenModel,
    operation_id: Seq<u8>,
    command: ExportMutationCommandModel,
    server_boot_id: Seq<char>,
    extent_size: u64,
) -> MutationTask {
    MutationTask {
        token,
        command,
        expected: expectation_of(
            token,
            request_identity(token, operation_id, command),
            command.kind(),
        ),
        server_boot_id,
        extent_size,
    }
}

/// What a store without faults answers in a phase, when `stored` is the outcome under
/// the mutation's key. `durable` says that it was durable before.
pub open spec fn store_answer(
    phase: MutationPhaseModel,
    stored: ExportMutationOutcomeModel,
    durable: bool,
) -> MutationEventModel {
    match phase {
        MutationPhaseModel::ReadDurable(_) if !durable => MutationEventModel::Outcome(Ok(None)),
        MutationPhaseModel::Flush(_) => MutationEventModel::Flushed(Ok(())),
        MutationPhaseModel::Fence(_, _) => MutationEventModel::Fenced(Ok(())),
        _ => MutationEventModel::Outcome(Ok(Some(stored))),
    }
}

/// The phase after so many answers of such a store.
pub open spec fn answered_by_store(
    task: MutationTask,
    phase: MutationPhaseModel,
    stored: ExportMutationOutcomeModel,
    durable: bool,
    answers: nat,
) -> MutationPhaseModel
    decreases answers,
{
    if answers == 0 {
        phase
    } else {
        answered_by_store(
            task,
            mutation_step(task, phase, store_answer(phase, stored, durable)),
            stored,
            durable,
            (answers - 1) as nat,
        )
    }
}

/// What the checksum of data is computed over.
pub open spec fn checksum_preimage(data: Seq<u8>) -> Seq<u8> {
    data_checksum_domain() + long_field(data)
}

/// What the digest of a request is computed over.
pub open spec fn request_preimage(
    token: MutationFenceTokenModel,
    operation_id: Seq<u8>,
    command: ExportMutationCommandModel,
) -> Seq<u8> {
    command_preimage(
        token,
        operation_id,
        command,
        domain_digest(data_checksum_domain(), command.data()),
    )
}

/// Whatever happens, only the outcome that a mutation expects is acknowledged.
proof fn lemma_acknowledged(
    task: MutationTask,
    events: Seq<MutationEventModel>,
    outcome: ExportMutationOutcomeModel,
)
    requires
        mutation_after(task, MutationPhaseModel::ReadCurrent, events) == acknowledged(outcome),
    ensures
        valid_expectation(task.expected),
        fulfils(outcome, task.expected),
    decreases events.len(),
{
    if events.len() > 0 {
        let before = mutation_after(task, MutationPhaseModel::ReadCurrent, events.drop_last());
        if before == acknowledged(outcome) {
            lemma_acknowledged(task, events.drop_last(), outcome);
        }
    }
}

/// A mutation past its admission, or on its way to it.
spec fn may_commit(phase: MutationPhaseModel) -> bool {
    phase is ReadCurrent || phase is Admit || phase is ReadFile || phase is Readmit || phase is Open
        || phase is Commit
}

proof fn lemma_never_commits(
    task: MutationTask,
    phase: MutationPhaseModel,
    events: Seq<MutationEventModel>,
)
    requires
        !may_commit(phase),
    ensures
        !may_commit(mutation_after(task, phase, events)),
    decreases events.len(),
{
    if events.len() > 0 {
        lemma_never_commits(task, phase, events.drop_last());
    }
}

/// A mutation is applied once: after it was acknowledged with an outcome, the same
/// command presented again with the same token and operation is acknowledged with the
/// same outcome, sequence number included, and nothing that happens then commits it
/// again.
pub proof fn law_repeated_mutation_is_replayed(
    token: MutationFenceTokenModel,
    operation_id: Seq<u8>,
    command: ExportMutationCommandModel,
    first_boot: Seq<char>,
    second_boot: Seq<char>,
    extent_size: u64,
    first_events: Seq<MutationEventModel>,
    outcome: ExportMutationOutcomeModel,
    durable: bool,
    later_events: Seq<MutationEventModel>,
)
    requires
        mutation_after(
            task_of(token, operation_id, command, first_boot, extent_size),
            MutationPhaseModel::ReadCurrent,
            first_events,
        ) == acknowledged(outcome),
    ensures
        ({
            let second = task_of(token, operation_id, command, second_boot, extent_size);
            let found = mutation_step(
                second,
                MutationPhaseModel::ReadCurrent,
                MutationEventModel::Outcome(Ok(Some(outcome))),
            );
            &&& answered_by_store(
                second,
                MutationPhaseModel::ReadCurrent,
                outcome,
                durable,
                4,
            ) == acknowledged(outcome)
            &&& !(mutation_after(second, found, later_events) is Commit)
        }),
{
    let first = task_of(token, operation_id, command, first_boot, extent_size);
    let second = task_of(token, operation_id, command, second_boot, extent_size);
    lemma_acknowledged(first, first_events, outcome);
    reveal_with_fuel(answered_by_store, 5);
    let found = mutation_step(
        second,
        MutationPhaseModel::ReadCurrent,
        MutationEventModel::Outcome(Ok(Some(outcome))),
    );
    lemma_never_commits(second, found, later_events);
}

/// Requests of one token and operation with the same digests are the same command.
proof fn lemma_digests_tell_commands_apart(
    token: MutationFenceTokenModel,
    operation_id: Seq<u8>,
    a: ExportMutationCommandModel,
    b: ExportMutationCommandModel,
)
    requires
        complete_token(token),
        operation_id.len() == 32,
        a.length() <= u64::MAX,
        b.length() <= u64::MAX,
        no_collision(
            request_preimage(token, operation_id, a),
            request_preimage(token, operation_id, b),
        ),
        no_collision(checksum_preimage(a.data()), checksum_preimage(b.data())),
        request_identity(token, operation_id, a) == request_identity(token, operation_id, b),
    ensures
        a == b,
{
    law_command_preimage_is_unambiguous(
        (token, operation_id, a, domain_digest(data_checksum_domain(), a.data())),
        (token, operation_id, b, domain_digest(data_checksum_domain(), b.data())),
    );
    let none = Seq::<u8>::empty();
    lemma_fixed_split(
        data_checksum_domain(),
        long_field(a.data()),
        data_checksum_domain(),
        long_field(b.data()),
    );
    assert(long_field(a.data()) + none =~= long_field(a.data()));
    assert(long_field(b.data()) + none =~= long_field(b.data()));
    lemma_long_field_split(a.data(), none, b.data(), none);
}

/// An operation that was committed cannot be used for something else: a different
/// command with the same token and operation is refused as a conflict once its session
/// is fenced, and nothing that happens commits or acknowledges it.
/// [`law_fenced_session_is_gone`] says what the fence leaves behind.
pub proof fn law_reused_operation_fences_its_session(
    token: MutationFenceTokenModel,
    operation_id: Seq<u8>,
    command: ExportMutationCommandModel,
    other: ExportMutationCommandModel,
    first_boot: Seq<char>,
    second_boot: Seq<char>,
    extent_size: u64,
    first_events: Seq<MutationEventModel>,
    outcome: ExportMutationOutcomeModel,
    durable: bool,
    later_events: Seq<MutationEventModel>,
)
    requires
        complete_token(token),
        operation_id.len() == 32,
        command.length() <= u64::MAX,
        other.length() <= u64::MAX,
        command != other,
        no_collision(
            request_preimage(token, operation_id, command),
            request_preimage(token, operation_id, other),
        ),
        no_collision(checksum_preimage(command.data()), checksum_preimage(other.data())),
        mutation_after(
            task_of(token, operation_id, command, first_boot, extent_size),
            MutationPhaseModel::ReadCurrent,
            first_events,
        ) == acknowledged(outcome),
    ensures
        ({
            let second = task_of(token, operation_id, other, second_boot, extent_size);
            let found = mutation_step(
                second,
                MutationPhaseModel::ReadCurrent,
                MutationEventModel::Outcome(Ok(Some(outcome))),
            );
            &&& is_conflict(outcome, second.expected)
            &&& found == MutationPhaseModel::Fence(outcome, second.expected)
            &&& answered_by_store(
                second,
                MutationPhaseModel::ReadCurrent,
                outcome,
                durable,
                2,
            ) == refused(ExportAuthorityError::Conflict)
            &&& !(mutation_after(second, found, later_events) is Commit)
            &&& !(mutation_after(second, found, later_events) matches MutationPhaseModel::Done(
                Ok(_),
            ))
        }),
{
    let first = task_of(token, operation_id, command, first_boot, extent_size);
    let second = task_of(token, operation_id, other, second_boot, extent_size);
    lemma_acknowledged(first, first_events, outcome);
    if fulfils(outcome, second.expected) {
        lemma_digests_tell_commands_apart(token, operation_id, command, other);
    }
    reveal_with_fuel(answered_by_store, 3);
    lemma_fence_is_refused(second, outcome, later_events);
}

proof fn lemma_fence_is_refused(
    task: MutationTask,
    outcome: ExportMutationOutcomeModel,
    events: Seq<MutationEventModel>,
)
    ensures
        ({
            let fence = MutationPhaseModel::Fence(outcome, task.expected);
            let phase = mutation_after(task, fence, events);
            phase == fence || phase matches MutationPhaseModel::Done(Err(_))
        }),
    decreases events.len(),
{
    if events.len() > 0 {
        lemma_fence_is_refused(task, outcome, events.drop_last());
    }
}

/// What fencing the record of a session comes to: no session is left, the session's
/// placement is rejected, no token is admitted, and every process that looks sees just
/// that.
pub proof fn law_fenced_session_is_gone(
    record: ExportAuthorityRecordModel,
    token: MutationFenceTokenModel,
    any: MutationFenceTokenModel,
    now: u64,
    by_name: Option<ExportReverseBindingModel>,
    by_inode: Option<ExportReverseBindingModel>,
    boot: Option<Seq<u8>>,
    server_boot_id: Seq<char>,
)
    requires
        valid_record(record),
        record.active_session matches Some(session) && token == session_token(record, session),
    ensures
        fenced(record).active_session is None,
        fenced(record).rejected_through_placement_epoch >= token.authority.placement_epoch,
        mutation_result(Some(fenced(record)), any, now, server_boot_id) == Err::<
            (),
            ExportAuthorityError,
        >(ExportAuthorityError::StaleMutation),
        durable_result(Some(fenced(record)), by_name, by_inode, boot, server_boot_id) matches Ok(
            seen,
        ) ==> seen == Some(fenced(record)),
{
}

} // verus!
