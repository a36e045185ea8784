//! One fenced mutation, from the look at its outcome to its acknowledgement.
//!
//! A mutation that was committed before is replayed, made durable first if it has to be.
//! One whose operation was used for something else fences its session. A new one is
//! admitted, checked against the file behind its export, admitted again, and only then
//! committed; what was committed is read back before it is acknowledged.

use super::admission::admission_result;
use super::admission::boot_is_own;
use super::admission::check_export_file;
use super::admission::commit_step;
use super::admission::confirm_flushed;
use super::admission::confirm_outcome;
use super::admission::durable_replay;
use super::admission::file_is_export;
use super::admission::owns_boot;
use super::admission::plan_mutation;
use super::admission::plan_result;
use super::admission::validate_admission;
use super::admission::CommitStep;
use super::admission::ExportFile;
use super::admission::MutationPlan;
use super::mutation::expectation_of;
use super::mutation::fulfils;
use super::mutation::is_conflict;
use super::mutation::outcome_result;
use super::mutation::valid_expectation;
use super::mutation::ExportMutation;
use super::mutation::FenceMutationConflict;
use super::types::needs_durability;
use super::types::ExportAuthorityError;
use super::types::ExportAuthorityRecord;
use super::types::ExportAuthorityRecordModel;
use super::types::ExportMutationCommandModel;
use super::types::ExportMutationExpectation;
use super::types::ExportMutationExpectationModel;
use super::types::ExportMutationOutcome;
use super::types::ExportMutationOutcomeModel;
use super::types::MutationFenceTokenModel;
use vstd::prelude::*;

verus! {

/// What a mutation is waiting for.
pub enum MutationPhase {
    /// The outcome stored under its key, if there is one.
    ReadCurrent,
    /// The fence of a session that used the operation for something else.
    Fence(FenceMutationConflict),
    /// The durable outcome of a mutation that was committed before.
    ReadDurable(ExportMutationOutcome),
    /// A durability barrier for it.
    Flush(ExportMutationOutcome),
    /// The durable outcome after the barrier.
    ReadFlushed(ExportMutationOutcome),
    /// What admission is decided from.
    Admit,
    /// The file behind the export, under its lock.
    ReadFile,
    /// What admission is decided from, once more.
    Readmit,
    /// The transaction that the mutation is staged in.
    Open,
    /// The commit.
    Commit(MutationPlan),
    /// The outcome that was committed.
    ReadCommitted,
    /// The same, as it is durable.
    ReadCommittedDurable,
    /// Nothing.
    Done(Result<ExportMutationOutcome, ExportAuthorityError>),
}

/// The value of `MutationPhase`.
pub enum MutationPhaseModel {
    ReadCurrent,
    Fence(ExportMutationOutcomeModel, ExportMutationExpectationModel),
    ReadDurable(ExportMutationOutcomeModel),
    Flush(ExportMutationOutcomeModel),
    ReadFlushed(ExportMutationOutcomeModel),
    Admit,
    ReadFile,
    Readmit,
    Open,
    Commit(MutationPlan),
    ReadCommitted,
    ReadCommittedDurable,
    Done(Result<ExportMutationOutcomeModel, ExportAuthorityError>),
}

impl View for MutationPhase {
    type V = MutationPhaseModel;

    open spec fn view(&self) -> MutationPhaseModel {
        match *self {
            MutationPhase::ReadCurrent => MutationPhaseModel::ReadCurrent,
            MutationPhase::Fence(conflict) => MutationPhaseModel::Fence(
                conflict.committed_view(),
                conflict.attempted_view(),
            ),
            MutationPhase::ReadDurable(current) => MutationPhaseModel::ReadDurable(current@),
            MutationPhase::Flush(current) => MutationPhaseModel::Flush(current@),
            MutationPhase::ReadFlushed(current) => MutationPhaseModel::ReadFlushed(current@),
            MutationPhase::Admit => MutationPhaseModel::Admit,
            MutationPhase::ReadFile => MutationPhaseModel::ReadFile,
            MutationPhase::Readmit => MutationPhaseModel::Readmit,
            MutationPhase::Open => MutationPhaseModel::Open,
            MutationPhase::Commit(plan) => MutationPhaseModel::Commit(plan),
            MutationPhase::ReadCommitted => MutationPhaseModel::ReadCommitted,
            MutationPhase::ReadCommittedDurable => MutationPhaseModel::ReadCommittedDurable,
            MutationPhase::Done(Ok(outcome)) => MutationPhaseModel::Done(Ok(outcome@)),
            MutationPhase::Done(Err(error)) => MutationPhaseModel::Done(Err(error)),
        }
    }
}

/// What a mutation is told.
pub enum MutationEvent {
    /// The outcome stored under its key, current or durable as was asked.
    Outcome(Result<Option<ExportMutationOutcome>, ExportAuthorityError>),
    Fenced(Result<(), ExportAuthorityError>),
    Flushed(Result<(), ExportAuthorityError>),
    /// The boot row, then the current record of the workspace, and the time.
    Admission {
        boot: Result<Option<Vec<u8>>, ExportAuthorityError>,
        record: Result<Option<ExportAuthorityRecord>, ExportAuthorityError>,
        now: u64,
    },
    /// The file behind the export. `None` stands for an inode that is not a file or
    /// could not be read.
    File(Option<ExportFile>),
    /// Whether a transaction was opened.
    Opened(Result<(), ExportAuthorityError>),
    Committed(Result<(), ExportAuthorityError>),
}

/// The value of `MutationEvent`.
pub enum MutationEventModel {
    Outcome(Result<Option<ExportMutationOutcomeModel>, ExportAuthorityError>),
    Fenced(Result<(), ExportAuthorityError>),
    Flushed(Result<(), ExportAuthorityError>),
    Admission {
        boot: Result<Option<Seq<u8>>, ExportAuthorityError>,
        record: Result<Option<ExportAuthorityRecordModel>, ExportAuthorityError>,
        now: u64,
    },
    File(Option<ExportFile>),
    Opened(Result<(), ExportAuthorityError>),
    Committed(Result<(), ExportAuthorityError>),
}

/// The boot row as a value.
pub open spec fn boot_value(boot: Result<Option<Vec<u8>>, ExportAuthorityError>) -> Result<
    Option<Seq<u8>>,
    ExportAuthorityError,
> {
    match boot {
        Ok(Some(bytes)) => Ok(Some(bytes@)),
        Ok(None) => Ok(None),
        Err(error) => Err(error),
    }
}

/// A record that was read, as a value.
pub open spec fn record_value(
    record: Result<Option<ExportAuthorityRecord>, ExportAuthorityError>,
) -> Result<Option<ExportAuthorityRecordModel>, ExportAuthorityError> {
    match record {
        Ok(Some(record)) => Ok(Some(record@)),
        Ok(None) => Ok(None),
        Err(error) => Err(error),
    }
}

impl View for MutationEvent {
    type V = MutationEventModel;

    open spec fn view(&self) -> MutationEventModel {
        match *self {
            MutationEvent::Outcome(Ok(Some(outcome))) => MutationEventModel::Outcome(
                Ok(Some(outcome@)),
            ),
            MutationEvent::Outcome(Ok(None)) => MutationEventModel::Outcome(Ok(None)),
            MutationEvent::Outcome(Err(error)) => MutationEventModel::Outcome(Err(error)),
            MutationEvent::Fenced(reply) => MutationEventModel::Fenced(reply),
            MutationEvent::Flushed(reply) => MutationEventModel::Flushed(reply),
            MutationEvent::Admission { boot, record, now } => MutationEventModel::Admission {
                boot: boot_value(boot),
                record: record_value(record),
                now,
            },
            MutationEvent::File(file) => MutationEventModel::File(file),
            MutationEvent::Opened(reply) => MutationEventModel::Opened(reply),
            MutationEvent::Committed(reply) => MutationEventModel::Committed(reply),
        }
    }
}

/// What does not change while a mutation runs.
pub struct MutationTask {
    pub token: MutationFenceTokenModel,
    pub command: ExportMutationCommandModel,
    pub expected: ExportMutationExpectationModel,
    pub server_boot_id: Seq<char>,
    pub extent_size: u64,
}

/// The phase that a refusal ends in.
pub open spec fn refused(error: ExportAuthorityError) -> MutationPhaseModel {
    MutationPhaseModel::Done(Err(error))
}

/// The phase that an acknowledgement ends in.
pub open spec fn acknowledged(outcome: ExportMutationOutcomeModel) -> MutationPhaseModel {
    MutationPhaseModel::Done(Ok(outcome))
}

/// Whether what was read admits the token. A boot row of another process decides before
/// the record does.
pub open spec fn admitted(
    task: MutationTask,
    boot: Result<Option<Seq<u8>>, ExportAuthorityError>,
    record: Result<Option<ExportAuthorityRecordModel>, ExportAuthorityError>,
    now: u64,
) -> Result<(), ExportAuthorityError> {
    match boot {
        Err(error) => Err(error),
        Ok(boot) => if !owns_boot(boot, task.server_boot_id) {
            Err(ExportAuthorityError::StaleMutation)
        } else {
            match record {
                Err(error) => Err(error),
                Ok(record) => admission_result(boot, record, task.token, now, task.server_boot_id),
            }
        },
    }
}

/// The phase after the look at what is stored under the mutation's key.
pub open spec fn after_current(
    expected: ExportMutationExpectationModel,
    current: Option<ExportMutationOutcomeModel>,
) -> MutationPhaseModel {
    match current {
        None => MutationPhaseModel::Admit,
        Some(outcome) => if valid_expectation(expected) && fulfils(outcome, expected) {
            if needs_durability(expected.kind) {
                MutationPhaseModel::ReadDurable(outcome)
            } else {
                acknowledged(outcome)
            }
        } else if is_conflict(outcome, expected) {
            MutationPhaseModel::Fence(outcome, expected)
        } else {
            refused(ExportAuthorityError::Corrupt)
        },
    }
}

/// What is acknowledged of an outcome that must be there: the one expected.
pub open spec fn confirmed(
    found: Option<ExportMutationOutcomeModel>,
    expected: ExportMutationExpectationModel,
) -> Result<ExportMutationOutcomeModel, ExportAuthorityError> {
    match found {
        None => Err(ExportAuthorityError::Corrupt),
        Some(outcome) => match outcome_result(outcome, expected) {
            Ok(_) => Ok(outcome),
            Err(error) => Err(error),
        },
    }
}

/// The phase after an outcome was read.
pub open spec fn after_outcome(
    phase: MutationPhaseModel,
    expected: ExportMutationExpectationModel,
    found: Option<ExportMutationOutcomeModel>,
) -> MutationPhaseModel {
    match phase {
        MutationPhaseModel::ReadCurrent => after_current(expected, found),
        MutationPhaseModel::ReadDurable(current) => if found is None {
            MutationPhaseModel::Flush(current)
        } else {
            MutationPhaseModel::Done(confirmed(found, expected))
        },
        MutationPhaseModel::ReadFlushed(current) => match confirmed(found, expected) {
            Ok(outcome) => if outcome == current {
                acknowledged(outcome)
            } else {
                refused(ExportAuthorityError::Corrupt)
            },
            Err(error) => refused(error),
        },
        MutationPhaseModel::ReadCommitted => match confirmed(found, expected) {
            Ok(outcome) => if needs_durability(expected.kind) {
                MutationPhaseModel::ReadCommittedDurable
            } else {
                acknowledged(outcome)
            },
            Err(error) => refused(error),
        },
        MutationPhaseModel::ReadCommittedDurable => MutationPhaseModel::Done(
            confirmed(found, expected),
        ),
        _ => phase,
    }
}

/// The phase waits for an outcome.
pub open spec fn awaits_outcome(phase: MutationPhaseModel) -> bool {
    phase is ReadCurrent || phase is ReadDurable || phase is ReadFlushed || phase is ReadCommitted
        || phase is ReadCommittedDurable
}

/// The phase after an event. An event that the phase does not wait for changes nothing.
pub open spec fn mutation_step(
    task: MutationTask,
    phase: MutationPhaseModel,
    event: MutationEventModel,
) -> MutationPhaseModel {
    match event {
        MutationEventModel::Outcome(Ok(found)) => after_outcome(phase, task.expected, found),
        MutationEventModel::Outcome(Err(error)) => if awaits_outcome(phase) {
            refused(error)
        } else {
            phase
        },
        MutationEventModel::Fenced(reply) => match phase {
            MutationPhaseModel::Fence(_, _) => match reply {
                Ok(_) => refused(ExportAuthorityError::Conflict),
                Err(error) => refused(error),
            },
            _ => phase,
        },
        MutationEventModel::Flushed(reply) => match phase {
            MutationPhaseModel::Flush(current) => match reply {
                Ok(_) => MutationPhaseModel::ReadFlushed(current),
                Err(error) => refused(error),
            },
            _ => phase,
        },
        MutationEventModel::Admission { boot, record, now } => match phase {
            MutationPhaseModel::Admit => match admitted(task, boot, record, now) {
                Ok(_) => MutationPhaseModel::ReadFile,
                Err(error) => refused(error),
            },
            MutationPhaseModel::Readmit => match admitted(task, boot, record, now) {
                Ok(_) => MutationPhaseModel::Open,
                Err(error) => refused(error),
            },
            _ => phase,
        },
        MutationEventModel::Opened(reply) => match phase {
            MutationPhaseModel::Open => match reply {
                Ok(_) => match plan_result(
                    task.command,
                    task.token.export.advertised_size,
                    task.extent_size,
                ) {
                    Ok(plan) => MutationPhaseModel::Commit(plan),
                    Err(error) => refused(error),
                },
                Err(error) => refused(error),
            },
            _ => phase,
        },
        MutationEventModel::File(file) => match phase {
            MutationPhaseModel::ReadFile => if file matches Some(file) && file_is_export(
                file,
                task.token.export,
            ) {
                MutationPhaseModel::Readmit
            } else {
                refused(ExportAuthorityError::Invalid)
            },
            _ => phase,
        },
        MutationEventModel::Committed(reply) => match phase {
            MutationPhaseModel::Commit(_) => match reply {
                Ok(_) => MutationPhaseModel::ReadCommitted,
                Err(error) => refused(error),
            },
            _ => phase,
        },
    }
}

/// What to do next.
pub enum MutationAction<'a> {
    /// Read the current outcome under the mutation's key.
    ReadOutcome,
    /// Read the durable outcome under the mutation's key.
    ReadDurableOutcome,
    /// Fence the session of the conflict.
    Fence(&'a FenceMutationConflict),
    /// Make everything committed durable.
    Flush,
    /// Read the boot row and the workspace's current record.
    ReadAdmission,
    /// Read the file behind the export.
    ReadFile,
    /// Open the transaction that the mutation is staged in.
    Open,
    /// Commit the mutation as planned.
    Commit(&'a ExportMutation, MutationPlan),
    /// Nothing: the answer is there.
    Finish,
}

/// One fenced mutation.
pub struct MutationRun {
    mutation: ExportMutation,
    expected: ExportMutationExpectation,
    server_boot_id: String,
    extent_size: u64,
    phase: MutationPhase,
}

impl MutationRun {
    #[verifier::type_invariant]
    spec fn inv(self) -> bool {
        &&& self.extent_size > 0
        &&& self.expected@ == expectation_of(
            self.mutation.token@,
            self.mutation.identity@,
            self.mutation.kind,
        )
    }

    pub closed spec fn task(self) -> MutationTask {
        MutationTask {
            token: self.mutation.token@,
            command: self.mutation.command@,
            expected: self.expected@,
            server_boot_id: self.server_boot_id@,
            extent_size: self.extent_size,
        }
    }

    pub closed spec fn mutation(self) -> ExportMutation {
        self.mutation
    }

    pub closed spec fn phase_view(self) -> MutationPhaseModel {
        self.phase@
    }

    /// A mutation of which nothing was read. `server_boot_id` names this process.
    pub fn start(mutation: ExportMutation, server_boot_id: String, extent_size: u64) -> (run: Self)
        requires
            extent_size > 0,
        ensures
            run.mutation() == mutation,
            run.phase_view() == MutationPhaseModel::ReadCurrent,
            run.task() == (MutationTask {
                token: mutation.token@,
                command: mutation.command@,
                expected: expectation_of(mutation.token@, mutation.identity@, mutation.kind),
                server_boot_id: server_boot_id@,
                extent_size,
            }),
    {
        let expected = mutation.expectation();
        MutationRun {
            mutation,
            expected,
            server_boot_id,
            extent_size,
            phase: MutationPhase::ReadCurrent,
        }
    }

    /// The outcome that the mutation expects to find.
    pub fn expected(&self) -> (expected: &ExportMutationExpectation)
        ensures
            expected@ == self.task().expected,
    {
        &self.expected
    }

    /// What to do next.
    pub fn action(&self) -> (action: MutationAction<'_>)
        ensures
            match self.phase_view() {
                MutationPhaseModel::ReadCurrent
                | MutationPhaseModel::ReadCommitted => action is ReadOutcome,
                MutationPhaseModel::ReadDurable(_)
                | MutationPhaseModel::ReadFlushed(_)
                | MutationPhaseModel::ReadCommittedDurable => action is ReadDurableOutcome,
                MutationPhaseModel::Fence(
                    committed,
                    attempted,
                ) => action matches MutationAction::Fence(conflict) && conflict.committed_view()
                    == committed && conflict.attempted_view() == attempted,
                MutationPhaseModel::Flush(_) => action is Flush,
                MutationPhaseModel::Admit
                | MutationPhaseModel::Readmit => action is ReadAdmission,
                MutationPhaseModel::ReadFile => action is ReadFile,
                MutationPhaseModel::Open => action is Open,
                MutationPhaseModel::Commit(plan) => action matches MutationAction::Commit(
                    mutation,
                    p,
                ) && *mutation == self.mutation() && p == plan,
                MutationPhaseModel::Done(_) => action is Finish,
            },
    {
        match &self.phase {
            MutationPhase::ReadCurrent => MutationAction::ReadOutcome,
            MutationPhase::Fence(conflict) => MutationAction::Fence(conflict),
            MutationPhase::ReadDurable(_) => MutationAction::ReadDurableOutcome,
            MutationPhase::Flush(_) => MutationAction::Flush,
            MutationPhase::ReadFlushed(_) => MutationAction::ReadDurableOutcome,
            MutationPhase::Admit => MutationAction::ReadAdmission,
            MutationPhase::ReadFile => MutationAction::ReadFile,
            MutationPhase::Readmit => MutationAction::ReadAdmission,
            MutationPhase::Open => MutationAction::Open,
            MutationPhase::Commit(plan) => MutationAction::Commit(&self.mutation, *plan),
            MutationPhase::ReadCommitted => MutationAction::ReadOutcome,
            MutationPhase::ReadCommittedDurable => MutationAction::ReadDurableOutcome,
            MutationPhase::Done(_) => MutationAction::Finish,
        }
    }

    /// Takes in what was found.
    pub fn advance(self, event: MutationEvent) -> (next: Self)
        ensures
            next.task() == self.task(),
            next.mutation() == self.mutation(),
            next.phase_view() == mutation_step(self.task(), self.phase_view(), event@),
    {
        proof {
            use_type_invariant(&self);
        }
        let MutationRun { mutation, expected, server_boot_id, extent_size, phase } = self;
        let next = match event {
            MutationEvent::Outcome(Ok(found)) => on_outcome(
                phase,
                &mutation,
                &expected,
                found,
            ),
            MutationEvent::Outcome(Err(error)) => match phase {
                MutationPhase::ReadCurrent
                | MutationPhase::ReadDurable(_)
                | MutationPhase::ReadFlushed(_)
                | MutationPhase::ReadCommitted
                | MutationPhase::ReadCommittedDurable => MutationPhase::Done(Err(error)),
                other => other,
            },
            MutationEvent::Fenced(reply) => match phase {
                MutationPhase::Fence(_) => MutationPhase::Done(
                    Err(
                        match reply {
                            Ok(()) => ExportAuthorityError::Conflict,
                            Err(error) => error,
                        },
                    ),
                ),
                other => other,
            },
            MutationEvent::Flushed(reply) => match phase {
                MutationPhase::Flush(current) => match reply {
                    Ok(()) => MutationPhase::ReadFlushed(current),
                    Err(error) => MutationPhase::Done(Err(error)),
                },
                other => other,
            },
            MutationEvent::Admission { boot, record, now } => match phase {
                MutationPhase::Admit => match admission(
                    &mutation,
                    &server_boot_id,
                    boot,
                    record,
                    now,
                ) {
                    Ok(()) => MutationPhase::ReadFile,
                    Err(error) => MutationPhase::Done(Err(error)),
                },
                MutationPhase::Readmit => match admission(
                    &mutation,
                    &server_boot_id,
                    boot,
                    record,
                    now,
                ) {
                    Ok(()) => MutationPhase::Open,
                    Err(error) => MutationPhase::Done(Err(error)),
                },
                other => other,
            },
            MutationEvent::Opened(reply) => match phase {
                MutationPhase::Open => match reply {
                    Ok(()) => match plan_mutation(
                        &mutation.command,
                        mutation.token.export.advertised_size,
                        extent_size,
                    ) {
                        Ok(plan) => MutationPhase::Commit(plan),
                        Err(error) => MutationPhase::Done(Err(error)),
                    },
                    Err(error) => MutationPhase::Done(Err(error)),
                },
                other => other,
            },
            MutationEvent::File(file) => match phase {
                MutationPhase::ReadFile => match check_export_file(
                    file.as_ref(),
                    &mutation.token,
                ) {
                    Ok(()) => MutationPhase::Readmit,
                    Err(error) => MutationPhase::Done(Err(error)),
                },
                other => other,
            },
            MutationEvent::Committed(reply) => match phase {
                MutationPhase::Commit(_) => match reply {
                    Ok(()) => MutationPhase::ReadCommitted,
                    Err(error) => MutationPhase::Done(Err(error)),
                },
                other => other,
            },
        };
        MutationRun { mutation, expected, server_boot_id, extent_size, phase: next }
    }

    /// The answer, once it is there.
    pub fn into_result(self) -> (result: Option<
        Result<ExportMutationOutcome, ExportAuthorityError>,
    >)
        ensures
            match self.phase_view() {
                MutationPhaseModel::Done(Ok(outcome)) => result matches Some(Ok(o)) && o@
                    == outcome,
                MutationPhaseModel::Done(Err(error)) => result matches Some(Err(e)) && e == error,
                _ => result is None,
            },
    {
        match self.phase {
            MutationPhase::Done(result) => Some(result),
            _ => None,
        }
    }
}

fn admission(
    mutation: &ExportMutation,
    server_boot_id: &str,
    boot: Result<Option<Vec<u8>>, ExportAuthorityError>,
    record: Result<Option<ExportAuthorityRecord>, ExportAuthorityError>,
    now: u64,
) -> (result: Result<(), ExportAuthorityError>)
    ensures
        forall|task: MutationTask|
            task.token == mutation.token@ && task.server_boot_id == server_boot_id@ ==> result
                == #[trigger] admitted(task, boot_value(boot), record_value(record), now),
{
    let boot = boot?;
    let boot_bytes: Option<&[u8]> = match &boot {
        Some(bytes) => Some(bytes.as_slice()),
        None => None,
    };
    match record {
        Ok(record) => validate_admission(
            boot_bytes,
            record.as_ref(),
            &mutation.token,
            now,
            server_boot_id,
        ),
        Err(error) => if boot_is_own(boot_bytes, server_boot_id) {
            Err(error)
        } else {
            Err(ExportAuthorityError::StaleMutation)
        },
    }
}

fn finished(result: Result<ExportMutationOutcome, ExportAuthorityError>) -> (phase: MutationPhase)
    ensures
        match result {
            Ok(outcome) => phase@ == acknowledged(outcome@),
            Err(error) => phase@ == refused(error),
        },
{
    MutationPhase::Done(result)
}

fn on_outcome(
    phase: MutationPhase,
    mutation: &ExportMutation,
    expected: &ExportMutationExpectation,
    found: Option<ExportMutationOutcome>,
) -> (next: MutationPhase)
    requires
        expected@ == expectation_of(mutation.token@, mutation.identity@, mutation.kind),
    ensures
        next@ == after_outcome(
            phase@,
            expected@,
            match found {
                Some(outcome) => Some(outcome@),
                None => None,
            },
        ),
{
    match phase {
        MutationPhase::ReadCurrent => match commit_step(found, mutation.expectation()) {
            Ok(CommitStep::Prepare) => MutationPhase::Admit,
            Ok(CommitStep::Replay(outcome)) => finished(Ok(outcome)),
            Ok(CommitStep::MakeDurable(outcome)) => MutationPhase::ReadDurable(outcome),
            Ok(CommitStep::Fence(conflict)) => MutationPhase::Fence(conflict),
            Err(error) => finished(Err(error)),
        },
        MutationPhase::ReadDurable(current) => match durable_replay(found, expected) {
            Ok(Some(outcome)) => finished(Ok(outcome)),
            Ok(None) => MutationPhase::Flush(current),
            Err(error) => finished(Err(error)),
        },
        MutationPhase::ReadFlushed(current) => finished(confirm_flushed(found, expected, &current)),
        MutationPhase::ReadCommitted => match confirm_outcome(found, expected) {
            Ok(outcome) => if expected.kind.requires_durability() {
                MutationPhase::ReadCommittedDurable
            } else {
                finished(Ok(outcome))
            },
            Err(error) => finished(Err(error)),
        },
        MutationPhase::ReadCommittedDurable => finished(confirm_outcome(found, expected)),
        other => other,
    }
}

/// How many more answers a mutation can need.
pub open spec fn mutation_rank(phase: MutationPhaseModel) -> nat {
    match phase {
        MutationPhaseModel::ReadCurrent => 8,
        MutationPhaseModel::Admit => 7,
        MutationPhaseModel::ReadFile => 6,
        MutationPhaseModel::Readmit => 5,
        MutationPhaseModel::Open => 4,
        MutationPhaseModel::Commit(_) => 3,
        MutationPhaseModel::ReadCommitted => 2,
        MutationPhaseModel::ReadDurable(_) => 3,
        MutationPhaseModel::Flush(_) => 2,
        MutationPhaseModel::ReadFlushed(_) => 1,
        MutationPhaseModel::ReadCommittedDurable => 1,
        MutationPhaseModel::Fence(_, _) => 1,
        MutationPhaseModel::Done(_) => 0,
    }
}

/// A mutation never goes back: each event leaves it where it is or takes it closer to
/// its answer. So it is committed at most once, and it ends.
pub proof fn law_mutation_only_moves_forward(
    task: MutationTask,
    phase: MutationPhaseModel,
    event: MutationEventModel,
)
    ensures
        mutation_step(task, phase, event) == phase || mutation_rank(
            mutation_step(task, phase, event),
        ) < mutation_rank(phase),
{
}

/// Nothing is committed but in a transaction that was opened right after an admission:
/// the boot row names this process, and the token is current. The plan lies within the
/// export's file.
pub proof fn law_commit_follows_admission(
    task: MutationTask,
    phase: MutationPhaseModel,
    event: MutationEventModel,
)
    ensures
        mutation_step(task, phase, event) is Commit && !(phase is Commit) ==> {
            &&& phase is Open
            &&& event matches MutationEventModel::Opened(Ok(_))
            &&& plan_result(
                task.command,
                task.token.export.advertised_size,
                task.extent_size,
            ) == Ok::<MutationPlan, ExportAuthorityError>(
                mutation_step(task, phase, event)->Commit_0,
            )
        },
        mutation_step(task, phase, event) is Open && !(phase is Open) ==> phase is Readmit && (
        event matches MutationEventModel::Admission { boot: Ok(boot), record: Ok(record), now }
            && admission_result(boot, record, task.token, now, task.server_boot_id) is Ok),
{
}

/// The second admission is asked for only once the file was found to be the export's
/// own, and the file is read only after the first.
pub proof fn law_file_is_checked_between_admissions(
    task: MutationTask,
    phase: MutationPhaseModel,
    event: MutationEventModel,
)
    ensures
        mutation_step(task, phase, event) is Readmit && !(phase is Readmit) ==> phase is ReadFile
            && (event matches MutationEventModel::File(Some(file)) && file_is_export(
            file,
            task.token.export,
        )),
        mutation_step(task, phase, event) is ReadFile && !(phase is ReadFile) ==> phase is Admit,
{
}

/// Only the outcome expected is ever acknowledged, and one that has to be durable only
/// as it was read from durable state.
pub proof fn law_acknowledged_outcome_is_expected(
    task: MutationTask,
    phase: MutationPhaseModel,
    event: MutationEventModel,
    outcome: ExportMutationOutcomeModel,
)
    requires
        mutation_step(task, phase, event) == acknowledged(outcome),
        !(phase is Done),
    ensures
        event == MutationEventModel::Outcome(Ok(Some(outcome))),
        fulfils(outcome, task.expected),
        needs_durability(task.expected.kind) ==> phase is ReadDurable || phase is ReadFlushed
            || phase is ReadCommittedDurable,
{
}

/// The mutation of an operation that was used for something else is never committed: its
/// session is fenced, and it is refused.
pub proof fn law_conflicting_mutation_is_refused(
    task: MutationTask,
    outcome: ExportMutationOutcomeModel,
    event: MutationEventModel,
)
    requires
        is_conflict(outcome, task.expected),
    ensures
        ({
            let fence = mutation_step(
                task,
                MutationPhaseModel::ReadCurrent,
                MutationEventModel::Outcome(Ok(Some(outcome))),
            );
            let next = mutation_step(task, fence, event);
            fence == MutationPhaseModel::Fence(outcome, task.expected) && (next == fence || (
            next matches MutationPhaseModel::Done(Err(_))))
        }),
{
}

} // verus!
