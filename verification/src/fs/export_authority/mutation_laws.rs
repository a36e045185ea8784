//! How a mutation is bound to its request and recognized again, said of what goes in and
//! what comes out.

use super::admission::commit_step;
use super::admission::confirm_flushed;
use super::admission::confirm_outcome;
use super::admission::durable_replay;
use super::admission::lookup_mutation;
use super::admission::CommitStep;
use super::mutation::all_zero;
use super::mutation::command_digest;
use super::mutation::ensure_outcome;
use super::mutation::mutation_outcome_key;
use super::mutation::outcome_key;
use super::mutation::validate_expectation;
use super::mutation::validate_outcome;
use super::mutation::ExportMutation;
use super::mutation::ExportMutationBuilder;
use super::mutation::FenceMutationConflict;
use super::rule_laws::has_begun;
use super::rule_laws::is_export;
use super::rule_laws::is_identifier;
use super::rule_laws::lemma_exports;
use super::rule_laws::lemma_identifiers;
use super::types::DataChecksum;
use super::types::ExportAuthorityError;
use super::types::ExportMutationCommand;
use super::types::ExportMutationExpectation;
use super::types::ExportMutationLookup;
use super::types::ExportMutationOutcome;
use super::types::MutationFenceToken;
use super::types::MutationKind;
use crate::outside::contents;
use crate::outside::sha256;
use crate::wire::be_bytes;
use bytes::Bytes;
use vstd::prelude::*;
use vstd::utf8::encode_utf8;

verus! {

/// Some byte is not zero.
pub open spec fn names_something(digest: Seq<u8>) -> bool {
    exists|i: int| 0 <= i < digest.len() && #[trigger] digest[i] != 0
}

/// An identifier names nothing exactly if all its bytes are zero.
pub proof fn law_zero_names_nothing(digest: &[u8], zero: bool)
    requires
        call_ensures(all_zero, (digest,), zero),
    ensures
        zero <==> !names_something(digest@),
{
}

/// A mutation is of the kind of its command, with the command's own demand for
/// durability. A flush always has to be durable, and any other exactly if it says so.
pub proof fn law_kind_is_the_command_s(
    command: &ExportMutationCommand,
    kind: MutationKind,
    durable: bool,
)
    requires
        call_ensures(ExportMutationCommand::kind, (command,), kind),
        call_ensures(MutationKind::requires_durability, (kind,), durable),
    ensures
        *command is Flush ==> kind is Flush && durable,
        *command matches ExportMutationCommand::Write { fua, .. } ==> kind == (
        MutationKind::Write { fua }) && durable == fua,
        *command matches ExportMutationCommand::Trim { fua, .. } ==> kind == (
        MutationKind::Trim { fua }) && durable == fua,
        *command matches ExportMutationCommand::WriteZeroes { fua, .. } ==> kind == (
        MutationKind::WriteZeroes { fua }) && durable == fua,
{
}

/// The checksum of a command is over the bytes that it writes, with their number, and
/// nothing else: commands without data have that of no bytes.
pub proof fn law_checksum_is_of_the_bytes_written(
    command: &ExportMutationCommand,
    checksum: DataChecksum,
)
    requires
        call_ensures(ExportMutationCommand::data_checksum, (command,), checksum),
    ensures
        ({
            let written = match *command {
                ExportMutationCommand::Write { data, .. } => contents(data),
                _ => Seq::empty(),
            };
            checksum.0@ == sha256(
                encode_utf8("rhizome.export-mutation-data.v1\0"@) + (be_bytes(written.len(), 8)
                    + written),
            )@
        }),
{
}

/// A mutation is built exactly from a token whose every part is valid and an operation that
/// is named. It holds the token and the command as they are, the command's kind, the
/// operation, the checksum of its data and the digest of it all.
pub proof fn law_mutation_is_bound_to_its_request(
    token: MutationFenceToken,
    operation_id: [u8; 32],
    command: ExportMutationCommand,
    result: Result<ExportMutation, ExportAuthorityError>,
    kind: MutationKind,
    checksum: DataChecksum,
    digest: [u8; 32],
)
    requires
        call_ensures(ExportMutationBuilder::build, (token, operation_id, command), result),
        call_ensures(ExportMutationCommand::kind, (&command,), kind),
        call_ensures(ExportMutationCommand::data_checksum, (&command,), checksum),
        call_ensures(command_digest, (&token, operation_id, &command, &checksum), digest),
    ensures
        result is Ok <==> {
            &&& is_identifier(token.workspace_id@)
            &&& is_export(token.export)
            &&& has_begun(token.authority)
            &&& is_identifier(token.session_id@)
            &&& is_identifier(token.capability_id@)
            &&& is_identifier(token.node_incarnation_id@)
            &&& is_identifier(token.runtime_id@)
            &&& is_identifier(token.server_boot_id@)
            &&& names_something(operation_id@)
        },
        result matches Err(e) ==> e == ExportAuthorityError::Invalid,
        result matches Ok(mutation) ==> {
            &&& mutation.kind == kind
            &&& mutation.token@ == token@
            &&& mutation.command@ == command@
            &&& mutation.identity.operation_id@ == operation_id@
            &&& mutation.identity.data_checksum@ == checksum@
            &&& mutation.identity.command_digest@ == digest@
        },
{
    lemma_identifiers();
    lemma_exports();
}

/// A mutation expects an outcome of its own request: under its token's workspace, export,
/// authority, session and process, with its identity and kind.
pub proof fn law_expectation_is_of_the_request(
    mutation: &ExportMutation,
    expected: ExportMutationExpectation,
)
    requires
        call_ensures(ExportMutation::expectation, (mutation,), expected),
    ensures
        expected.workspace_id@ == mutation.token.workspace_id@,
        expected.export@ == mutation.token.export@,
        expected.authority@ == mutation.token.authority@,
        expected.session_id@ == mutation.token.session_id@,
        expected.server_boot_id@ == mutation.token.server_boot_id@,
        expected.mutation@ == mutation.identity@,
        expected.kind == mutation.kind,
{
}

/// An expectation that can be met at all.
pub open spec fn can_be_met(expected: ExportMutationExpectation) -> bool {
    &&& is_identifier(expected.workspace_id@)
    &&& is_export(expected.export)
    &&& has_begun(expected.authority)
    &&& is_identifier(expected.session_id@)
    &&& is_identifier(expected.server_boot_id@)
    &&& names_something(expected.mutation.operation_id@)
}

/// `outcome` is that of the request that `expected` describes: they differ in nothing, the
/// sequence number apart.
pub open spec fn meets(
    outcome: ExportMutationOutcome,
    expected: ExportMutationExpectation,
) -> bool {
    &&& outcome.workspace_id@ == expected.workspace_id@
    &&& outcome.export@ == expected.export@
    &&& outcome.authority@ == expected.authority@
    &&& outcome.session_id@ == expected.session_id@
    &&& outcome.server_boot_id@ == expected.server_boot_id@
    &&& outcome.mutation.operation_id@ == expected.mutation.operation_id@
    &&& outcome.mutation.command_digest@ == expected.mutation.command_digest@
    &&& outcome.mutation.data_checksum@ == expected.mutation.data_checksum@
    &&& outcome.kind == expected.kind
}

/// `outcome` is of the same operation of the same session and placement as `expected`, on
/// the same export.
pub open spec fn same_operation(
    outcome: ExportMutationOutcome,
    expected: ExportMutationExpectation,
) -> bool {
    &&& outcome.workspace_id@ == expected.workspace_id@
    &&& outcome.export@ == expected.export@
    &&& outcome.authority.actor@ == expected.authority.actor@
    &&& outcome.authority.actor_generation == expected.authority.actor_generation
    &&& outcome.authority.placement_epoch == expected.authority.placement_epoch
    &&& outcome.session_id@ == expected.session_id@
    &&& outcome.server_boot_id@ == expected.server_boot_id@
    &&& outcome.mutation.operation_id@ == expected.mutation.operation_id@
}

/// An outcome is accepted exactly if the expectation can be met and the outcome meets it;
/// an expectation that cannot be met is invalid, and any other outcome a conflict.
pub proof fn law_outcome_is_accepted_if_it_meets_the_request(
    outcome: &ExportMutationOutcome,
    expected: &ExportMutationExpectation,
    valid: Result<(), ExportAuthorityError>,
    result: Result<(), ExportAuthorityError>,
)
    requires
        call_ensures(validate_expectation, (expected,), valid),
        call_ensures(ensure_outcome, (outcome, expected), result),
    ensures
        valid is Ok <==> can_be_met(*expected),
        valid matches Err(e) ==> e == ExportAuthorityError::Invalid,
        valid is Err ==> result == valid,
        valid is Ok && meets(*outcome, *expected) ==> result is Ok,
        valid is Ok && !meets(*outcome, *expected) ==> (result matches Err(
            ExportAuthorityError::Conflict,
        )),
{
    lemma_identifiers();
    lemma_exports();
}

/// An outcome may be stored exactly if its parts are valid, its operation is named and it
/// has a sequence number. One with a malformed part is invalid, and one without name or
/// number corrupt.
pub proof fn law_stored_outcomes_are_named_and_numbered(
    outcome: &ExportMutationOutcome,
    result: Result<(), ExportAuthorityError>,
)
    requires
        call_ensures(validate_outcome, (outcome,), result),
    ensures
        ({
            let parts = is_identifier(outcome.workspace_id@) && is_export(outcome.export)
                && has_begun(outcome.authority) && is_identifier(outcome.session_id@)
                && is_identifier(outcome.server_boot_id@);
            let numbered = names_something(outcome.mutation.operation_id@)
                && outcome.mutation.sequence > 0;
            &&& parts && numbered ==> result is Ok
            &&& parts && !numbered ==> (result matches Err(ExportAuthorityError::Corrupt))
            &&& !parts ==> (result matches Err(ExportAuthorityError::Invalid))
        }),
{
    lemma_identifiers();
    lemma_exports();
}

/// Two stand in conflict exactly if they are of one operation, the attempt can be met and
/// the outcome does not meet it. Otherwise the outcome does not belong where it was found.
pub proof fn law_conflict_is_one_operation_used_twice(
    committed: ExportMutationOutcome,
    attempted: ExportMutationExpectation,
    result: Result<FenceMutationConflict, ExportAuthorityError>,
)
    requires
        call_ensures(FenceMutationConflict::new, (committed, attempted), result),
    ensures
        result is Ok <==> same_operation(committed, attempted) && can_be_met(attempted) && !meets(
            committed,
            attempted,
        ),
        result matches Ok(conflict) ==> conflict.committed_view() == committed@
            && conflict.attempted_view() == attempted@,
        result matches Err(e) ==> e == ExportAuthorityError::Corrupt,
{
    lemma_identifiers();
    lemma_exports();
}

/// A conflict still stands exactly if what is stored now is the outcome that it was found
/// with.
pub proof fn law_conflict_stands_on_what_is_stored(
    conflict: &FenceMutationConflict,
    current: Option<&ExportMutationOutcome>,
    result: Result<(), ExportAuthorityError>,
    attempted: &ExportMutationExpectation,
)
    requires
        call_ensures(FenceMutationConflict::verify_current, (conflict, current), result),
        call_ensures(FenceMutationConflict::attempted, (conflict,), attempted),
    ensures
        result is Ok <==> (current matches Some(c) && c@ == conflict.committed_view()),
        result matches Err(e) ==> e == ExportAuthorityError::Corrupt,
        attempted@ == conflict.attempted_view(),
{
}

/// What is done with a mutation, by what is stored under its key. Nothing stored: it is
/// prepared. Its own outcome: it is replayed, and made durable first exactly if it demands
/// that. The outcome of another use of its operation: the session is fenced. Anything else
/// does not belong there.
pub proof fn law_commit_goes_by_what_is_stored(
    current: Option<ExportMutationOutcome>,
    expected: ExportMutationExpectation,
    durable: bool,
    result: Result<CommitStep, ExportAuthorityError>,
)
    requires
        call_ensures(commit_step, (current, expected), result),
        call_ensures(MutationKind::requires_durability, (expected.kind,), durable),
    ensures
        (result matches Ok(CommitStep::Prepare)) <==> current is None,
        current matches Some(outcome) ==> {
            let own = can_be_met(expected) && meets(outcome, expected);
            let reused = same_operation(outcome, expected) && can_be_met(expected) && !own;
            &&& own && !durable ==> (result matches Ok(CommitStep::Replay(o)) && o@ == outcome@)
            &&& own && durable ==> (result matches Ok(CommitStep::MakeDurable(o)) && o@
                == outcome@)
            &&& reused ==> (result matches Ok(CommitStep::Fence(conflict))
                && conflict.committed_view() == outcome@ && conflict.attempted_view()
                == expected@)
            &&& !own && !reused ==> (result matches Err(ExportAuthorityError::Corrupt))
        },
{
    lemma_identifiers();
    lemma_exports();
}

/// What was read back is confirmed exactly if it is there and accepted as the outcome
/// expected, and is then given back as it is.
pub proof fn law_readback_is_confirmed_as_it_is(
    found: Option<ExportMutationOutcome>,
    expected: &ExportMutationExpectation,
    accepted: Result<(), ExportAuthorityError>,
    confirmed: Result<ExportMutationOutcome, ExportAuthorityError>,
    replay: Result<Option<ExportMutationOutcome>, ExportAuthorityError>,
)
    requires
        found matches Some(outcome) ==> call_ensures(
            ensure_outcome,
            (&outcome, expected),
            accepted,
        ),
        call_ensures(confirm_outcome, (found, expected), confirmed),
        call_ensures(durable_replay, (found, expected), replay),
    ensures
        found is None ==> (confirmed matches Err(ExportAuthorityError::Corrupt)),
        found is None ==> (replay matches Ok(None)),
        found matches Some(outcome) ==> {
            &&& accepted is Ok ==> (confirmed matches Ok(o) && o@ == outcome@)
            &&& accepted is Ok ==> (replay matches Ok(Some(o)) && o@ == outcome@)
            &&& accepted matches Err(e) ==> (confirmed matches Err(error) && error == e)
            &&& accepted matches Err(e) ==> (replay matches Err(error) && error == e)
        },
{
}

/// What a barrier made durable is accepted exactly if it is confirmed and is what was
/// current before.
pub proof fn law_flushed_outcome_is_the_current_one(
    durable: Option<ExportMutationOutcome>,
    expected: &ExportMutationExpectation,
    current: &ExportMutationOutcome,
    confirmed: Result<ExportMutationOutcome, ExportAuthorityError>,
    result: Result<ExportMutationOutcome, ExportAuthorityError>,
)
    requires
        call_ensures(confirm_outcome, (durable, expected), confirmed),
        call_ensures(confirm_flushed, (durable, expected, current), result),
    ensures
        confirmed matches Err(e) ==> (result matches Err(error) && error == e),
        confirmed matches Ok(o) ==> {
            &&& o@ == current@ ==> (result matches Ok(r) && r@ == o@)
            &&& o@ != current@ ==> (result matches Err(ExportAuthorityError::Corrupt))
        },
{
}

/// A mutation is known as committed exactly if its own outcome is found; nothing found is
/// unknown, another outcome is a conflict, and a request that cannot be met is invalid.
pub proof fn law_lookup_tells_what_is_known(
    found: Option<ExportMutationOutcome>,
    expected: &ExportMutationExpectation,
    result: Result<ExportMutationLookup, ExportAuthorityError>,
)
    requires
        call_ensures(lookup_mutation, (found, expected), result),
    ensures
        !can_be_met(*expected) ==> (result matches Err(ExportAuthorityError::Invalid)),
        can_be_met(*expected) && found is None ==> (result matches Ok(
            ExportMutationLookup::Unknown,
        )),
        can_be_met(*expected) ==> (found matches Some(outcome) ==> {
            &&& meets(outcome, *expected) ==> (result matches Ok(
                ExportMutationLookup::Committed(o),
            ) && o@ == outcome@)
            &&& !meets(outcome, *expected) ==> (result matches Err(
                ExportAuthorityError::Conflict,
            ))
        }),
{
    lemma_identifiers();
    lemma_exports();
}

/// An outcome that meets an expectation is stored under the key at which that looks for
/// it; so is every outcome that it can be in conflict with.
pub proof fn law_outcome_is_found_under_its_key(
    outcome: &ExportMutationOutcome,
    expected: &ExportMutationExpectation,
    stored: Bytes,
    sought: Bytes,
)
    requires
        same_operation(*outcome, *expected) || meets(*outcome, *expected),
        call_ensures(outcome_key, (outcome,), stored),
        call_ensures(mutation_outcome_key, (expected,), sought),
    ensures
        contents(stored) == contents(sought),
{
}

} // verus!
