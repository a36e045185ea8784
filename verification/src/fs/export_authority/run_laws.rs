//! What a fenced mutation does with each answer it gets, and what it takes for it to be
//! acknowledged.

use super::admission::boot_is_own;
use super::admission::check_export_file;
use super::admission::commit_step;
use super::admission::confirm_flushed;
use super::admission::confirm_outcome;
use super::admission::durable_replay;
use super::admission::plan_mutation;
use super::admission::validate_admission;
use super::admission::CommitStep;
use super::admission::ExportFile;
use super::admission::MutationPlan;
use super::mutation::ExportMutation;
use super::run::MutationAction;
use super::run::MutationEvent;
use super::run::MutationPhaseModel;
use super::run::MutationRun;
use super::types::ExportAuthorityError;
use super::types::ExportAuthorityRecord;
use super::types::ExportMutationExpectation;
use super::types::ExportMutationOutcome;
use super::types::MutationKind;
use vstd::prelude::*;

verus! {

/// A mutation begins with a look at what is stored under its key, and expects what it
/// says of itself.
pub proof fn law_run_begins_with_what_is_stored(
    mutation: ExportMutation,
    server_boot_id: String,
    extent_size: u64,
    run: MutationRun,
    expected: ExportMutationExpectation,
    told: &ExportMutationExpectation,
    action: MutationAction,
)
    requires
        call_ensures(MutationRun::start, (mutation, server_boot_id, extent_size), run),
        call_ensures(ExportMutation::expectation, (&mutation,), expected),
        call_ensures(MutationRun::expected, (&run,), told),
        call_ensures(MutationRun::action, (&run,), action),
    ensures
        told@ == expected@,
        action is ReadOutcome,
        run.mutation() == mutation,
        run.task().server_boot_id == server_boot_id@,
        run.task().extent_size == extent_size,
{
}

/// What is stored under the key decides how a mutation begins: as [`commit_step`] says.
pub proof fn law_run_begins_as_the_stored_outcome_says(
    run: MutationRun,
    expected: ExportMutationExpectation,
    found: Option<ExportMutationOutcome>,
    decided: Result<CommitStep, ExportAuthorityError>,
    next: MutationRun,
)
    requires
        run.phase_view() is ReadCurrent,
        expected@ == run.task().expected,
        call_ensures(commit_step, (found, expected), decided),
        call_ensures(MutationRun::advance, (run, MutationEvent::Outcome(Ok(found))), next),
    ensures
        (decided matches Ok(CommitStep::Prepare)) ==> next.phase_view() is Admit,
        decided matches Ok(CommitStep::Replay(o)) ==> next.phase_view()
            == MutationPhaseModel::Done(Ok(o@)),
        decided matches Ok(CommitStep::MakeDurable(o)) ==> next.phase_view()
            == MutationPhaseModel::ReadDurable(o@),
        decided matches Ok(CommitStep::Fence(c)) ==> next.phase_view()
            == MutationPhaseModel::Fence(c.committed_view(), c.attempted_view()),
        decided matches Err(e) ==> next.phase_view() == MutationPhaseModel::Done(Err(e)),
{
}

/// A mutation that was committed before is acknowledged as it is durable: at once if it is
/// so already, and otherwise after a barrier, as the same outcome.
pub proof fn law_replay_is_made_durable(
    run: MutationRun,
    expected: &ExportMutationExpectation,
    current: ExportMutationOutcome,
    found: Option<ExportMutationOutcome>,
    durable: Result<Option<ExportMutationOutcome>, ExportAuthorityError>,
    flushed: Result<ExportMutationOutcome, ExportAuthorityError>,
    next: MutationRun,
)
    requires
        expected@ == run.task().expected,
        call_ensures(durable_replay, (found, expected), durable),
        call_ensures(confirm_flushed, (found, expected, &current), flushed),
        call_ensures(MutationRun::advance, (run, MutationEvent::Outcome(Ok(found))), next),
    ensures
        run.phase_view() == MutationPhaseModel::ReadDurable(current@) ==> {
            &&& durable matches Ok(Some(o)) ==> next.phase_view() == MutationPhaseModel::Done(
                Ok(o@),
            )
            &&& (durable matches Ok(None)) ==> next.phase_view() == MutationPhaseModel::Flush(
                current@,
            )
            &&& durable matches Err(e) ==> next.phase_view() == MutationPhaseModel::Done(Err(e))
        },
        run.phase_view() == MutationPhaseModel::ReadFlushed(current@) ==> {
            &&& flushed matches Ok(o) ==> next.phase_view() == MutationPhaseModel::Done(Ok(o@))
            &&& flushed matches Err(e) ==> next.phase_view() == MutationPhaseModel::Done(Err(e))
        },
{
}

/// What was committed is acknowledged once it was read back as expected, and as it is
/// durable exactly if it has to be.
pub proof fn law_commit_is_read_back(
    run: MutationRun,
    expected: &ExportMutationExpectation,
    found: Option<ExportMutationOutcome>,
    confirmed: Result<ExportMutationOutcome, ExportAuthorityError>,
    durable: bool,
    next: MutationRun,
)
    requires
        expected@ == run.task().expected,
        call_ensures(confirm_outcome, (found, expected), confirmed),
        call_ensures(MutationKind::requires_durability, (expected.kind,), durable),
        call_ensures(MutationRun::advance, (run, MutationEvent::Outcome(Ok(found))), next),
    ensures
        run.phase_view() is ReadCommitted ==> {
            &&& confirmed matches Ok(o) ==> (!durable ==> next.phase_view()
                == MutationPhaseModel::Done(Ok(o@)))
            &&& confirmed is Ok && durable ==> next.phase_view() is ReadCommittedDurable
            &&& confirmed matches Err(e) ==> next.phase_view() == MutationPhaseModel::Done(Err(e))
        },
        run.phase_view() is ReadCommittedDurable ==> {
            &&& confirmed matches Ok(o) ==> next.phase_view() == MutationPhaseModel::Done(Ok(o@))
            &&& confirmed matches Err(e) ==> next.phase_view() == MutationPhaseModel::Done(Err(e))
        },
{
}

/// A mutation is admitted twice, each time as the boot row and the record say: before the
/// file is read, and again before a transaction is opened. A boot row that could not be
/// read refuses it, and so does a record that could not be read, unless the boot row names
/// another process.
pub proof fn law_run_is_admitted_twice(
    run: MutationRun,
    boot: Result<Option<Vec<u8>>, ExportAuthorityError>,
    record: Result<Option<ExportAuthorityRecord>, ExportAuthorityError>,
    now: u64,
    row: Option<&[u8]>,
    server_boot_id: &str,
    own: bool,
    verdict: Result<(), ExportAuthorityError>,
    next: MutationRun,
)
    requires
        run.phase_view() is Admit || run.phase_view() is Readmit,
        server_boot_id@ == run.task().server_boot_id,
        boot matches Ok(b) ==> (b is Some == row is Some && (b matches Some(bytes) ==> bytes@
            == row->0@)),
        call_ensures(boot_is_own, (row, server_boot_id), own),
        record matches Ok(r) ==> call_ensures(
            validate_admission,
            (
                row,
                match r {
                    Some(r) => Some(&r),
                    None => None,
                },
                &run.mutation().token,
                now,
                server_boot_id,
            ),
            verdict,
        ),
        run.task().token == run.mutation().token@,
        call_ensures(
            MutationRun::advance,
            (run, MutationEvent::Admission { boot, record, now }),
            next,
        ),
    ensures
        boot matches Err(e) ==> next.phase_view() == MutationPhaseModel::Done(Err(e)),
        boot is Ok && !own ==> next.phase_view() == MutationPhaseModel::Done(
            Err(ExportAuthorityError::StaleMutation),
        ),
        boot is Ok && own ==> (record matches Err(e) ==> next.phase_view()
            == MutationPhaseModel::Done(Err(e))),
        boot is Ok && own && record is Ok ==> {
            &&& verdict matches Err(e) ==> next.phase_view() == MutationPhaseModel::Done(Err(e))
            &&& verdict is Ok && run.phase_view() is Admit ==> next.phase_view() is ReadFile
            &&& verdict is Ok && run.phase_view() is Readmit ==> next.phase_view() is Open
        },
{
}

/// Between the two admissions the file behind the export is looked at; a transaction that
/// was opened gets exactly the plan of the command within the export.
pub proof fn law_file_and_plan_are_the_export_s(
    run: MutationRun,
    file: Option<ExportFile>,
    is_export: Result<(), ExportAuthorityError>,
    opened: Result<(), ExportAuthorityError>,
    plan: Result<MutationPlan, ExportAuthorityError>,
    after_file: MutationRun,
    after_opened: MutationRun,
)
    requires
        run.task().token == run.mutation().token@,
        run.task().command == run.mutation().command@,
        call_ensures(
            check_export_file,
            (
                match file {
                    Some(f) => Some(&f),
                    None => None,
                },
                &run.mutation().token,
            ),
            is_export,
        ),
        call_ensures(
            plan_mutation,
            (
                &run.mutation().command,
                run.mutation().token.export.advertised_size,
                run.task().extent_size,
            ),
            plan,
        ),
        call_ensures(MutationRun::advance, (run, MutationEvent::File(file)), after_file),
        call_ensures(MutationRun::advance, (run, MutationEvent::Opened(opened)), after_opened),
    ensures
        run.phase_view() is ReadFile ==> {
            &&& is_export is Ok ==> after_file.phase_view() is Readmit
            &&& is_export matches Err(e) ==> after_file.phase_view() == MutationPhaseModel::Done(
                Err(e),
            )
        },
        run.phase_view() is Open ==> {
            &&& opened matches Err(e) ==> after_opened.phase_view() == MutationPhaseModel::Done(
                Err(e),
            )
            &&& opened is Ok ==> (plan matches Err(e) ==> after_opened.phase_view()
                == MutationPhaseModel::Done(Err(e)))
            &&& opened is Ok ==> (plan matches Ok(p) ==> after_opened.phase_view()
                == MutationPhaseModel::Commit(p))
        },
{
}

/// A fence ends in a conflict, a barrier and a commit in a read; where one of them fails,
/// its error is the answer.
pub proof fn law_effects_are_followed_up(
    run: MutationRun,
    reply: Result<(), ExportAuthorityError>,
    fenced: MutationRun,
    flushed: MutationRun,
    committed: MutationRun,
)
    requires
        call_ensures(MutationRun::advance, (run, MutationEvent::Fenced(reply)), fenced),
        call_ensures(MutationRun::advance, (run, MutationEvent::Flushed(reply)), flushed),
        call_ensures(MutationRun::advance, (run, MutationEvent::Committed(reply)), committed),
    ensures
        run.phase_view() is Fence && reply is Ok ==> fenced.phase_view()
            == MutationPhaseModel::Done(Err(ExportAuthorityError::Conflict)),
        run.phase_view() matches MutationPhaseModel::Flush(current) ==> (reply is Ok
            ==> flushed.phase_view() == MutationPhaseModel::ReadFlushed(current)),
        run.phase_view() is Commit && reply is Ok ==> committed.phase_view() is ReadCommitted,
        reply matches Err(e) ==> {
            &&& run.phase_view() is Fence ==> fenced.phase_view() == MutationPhaseModel::Done(
                Err(e),
            )
            &&& run.phase_view() is Flush ==> flushed.phase_view() == MutationPhaseModel::Done(
                Err(e),
            )
            &&& run.phase_view() is Commit ==> committed.phase_view() == MutationPhaseModel::Done(
                Err(e),
            )
        },
{
}

/// A mutation stays what it is: no event changes its request, and an event that it does
/// not wait for leaves it where it is. An outcome that could not be read is its answer.
pub proof fn law_run_waits_for_its_own_answer(
    run: MutationRun,
    event: MutationEvent,
    next: MutationRun,
)
    requires
        call_ensures(MutationRun::advance, (run, event), next),
    ensures
        next.task() == run.task(),
        next.mutation() == run.mutation(),
        ({
            let phase = run.phase_view();
            let reads = phase is ReadCurrent || phase is ReadDurable || phase is ReadFlushed
                || phase is ReadCommitted || phase is ReadCommittedDurable;
            let awaited = match event {
                MutationEvent::Outcome(_) => reads,
                MutationEvent::Fenced(_) => phase is Fence,
                MutationEvent::Flushed(_) => phase is Flush,
                MutationEvent::Admission { .. } => phase is Admit || phase is Readmit,
                MutationEvent::File(_) => phase is ReadFile,
                MutationEvent::Opened(_) => phase is Open,
                MutationEvent::Committed(_) => phase is Commit,
            };
            &&& !awaited ==> next.phase_view() == phase
            &&& event matches MutationEvent::Outcome(Err(e)) ==> (reads ==> next.phase_view()
                == MutationPhaseModel::Done(Err(e)))
        }),
{
}

/// Each phase asks for what it waits for: what is stored before and after the commit,
/// what is durable where a mutation has to be, and the plan of the commit itself. It has an
/// answer exactly once it is done.
pub proof fn law_run_asks_for_what_it_waits_for(
    run: MutationRun,
    action: MutationAction,
    result: Option<Result<ExportMutationOutcome, ExportAuthorityError>>,
)
    requires
        call_ensures(MutationRun::action, (&run,), action),
        call_ensures(MutationRun::into_result, (run,), result),
    ensures
        action is ReadOutcome <==> run.phase_view() is ReadCurrent || run.phase_view() is ReadCommitted,
        action is ReadDurableOutcome <==> run.phase_view() is ReadDurable
            || run.phase_view() is ReadFlushed || run.phase_view() is ReadCommittedDurable,
        action is Flush <==> run.phase_view() is Flush,
        action is ReadAdmission <==> run.phase_view() is Admit || run.phase_view() is Readmit,
        action is ReadFile <==> run.phase_view() is ReadFile,
        action is Open <==> run.phase_view() is Open,
        action is Fence <==> run.phase_view() is Fence,
        action is Commit <==> run.phase_view() is Commit,
        action is Finish <==> run.phase_view() is Done,
        action matches MutationAction::Commit(mutation, plan) ==> *mutation == run.mutation()
            && run.phase_view() == MutationPhaseModel::Commit(plan),
        action matches MutationAction::Fence(c) ==> run.phase_view() == MutationPhaseModel::Fence(
            c.committed_view(),
            c.attempted_view(),
        ),
        result is Some <==> run.phase_view() is Done,
        result matches Some(Ok(o)) ==> run.phase_view() == MutationPhaseModel::Done(Ok(o@)),
        result matches Some(Err(e)) ==> run.phase_view() == MutationPhaseModel::Done(Err(e)),
{
}

} // verus!
