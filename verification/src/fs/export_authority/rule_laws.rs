//! When authority inputs are valid, what each transition does and when it is refused, said
//! of what goes in and what comes out.

use super::rules::apply_transition;
use super::rules::monotonic_authority;
use super::rules::non_regressing_authority;
use super::rules::same_placement_renewal;
use super::rules::trusted_now_unix_millis;
use super::rules::valid_export;
use super::rules::valid_id;
use super::rules::validate_authority;
use super::rules::validate_export;
use super::rules::validate_id;
use super::rules::validate_mutation;
use super::rules::validate_record;
use super::rules::validate_reverse_binding;
use super::rules::validate_session;
use super::types::ActivateExport;
use super::types::AdvanceFence;
use super::types::AuthorityVersion;
use super::types::DeactivateExport;
use super::types::ExportAuthorityError;
use super::types::ExportAuthorityRecord;
use super::types::ExportAuthorityTransition;
use super::types::ExportIdentity;
use super::types::ExportReverseBinding;
use super::types::ExportSessionState;
use super::types::MutationFenceToken;
use super::types::RefreshExport;
use vstd::prelude::*;
use vstd::utf8::encode_utf8;

verus! {

/// Between one and 1024 bytes, none of them zero.
pub open spec fn is_name(bytes: Seq<u8>) -> bool {
    &&& 0 < bytes.len() <= 1024
    &&& forall|i: int| 0 <= i < bytes.len() ==> bytes[i] != 0
}

/// Text of between one and 1024 bytes, none of them zero.
pub open spec fn is_identifier(text: Seq<char>) -> bool {
    text.len() > 0 && encode_utf8(text).len() <= 1024 && forall|i: int|
        0 <= i < encode_utf8(text).len() ==> encode_utf8(text)[i] != 0
}

/// A named file in a directory.
pub open spec fn is_export(export: ExportIdentity) -> bool {
    is_name(export.name@) && export.nbd_directory_inode > 0 && export.inode > 0
}

/// An authority that names its actor and home, and every version of which has begun.
pub open spec fn has_begun(authority: AuthorityVersion) -> bool {
    &&& is_identifier(authority.actor@)
    &&& is_identifier(authority.home_cell@)
    &&& authority.actor_generation > 0
    &&& authority.home_revision > 0
    &&& authority.authority_epoch > 0
    &&& authority.placement_epoch > 0
    &&& authority.assignment_revision > 0
}

/// A session whose parts all have a name.
pub open spec fn is_named(session: ExportSessionState) -> bool {
    &&& is_identifier(session.session_id@)
    &&& is_identifier(session.capability_id@)
    &&& is_identifier(session.node_incarnation_id@)
    &&& is_identifier(session.runtime_id@)
    &&& is_identifier(session.server_boot_id@)
}

/// A record that may stand: its parts are valid, and a session in it stands on an
/// initialized binding, above every placement that is rejected.
pub open spec fn may_stand(record: ExportAuthorityRecord) -> bool {
    &&& is_identifier(record.workspace_id@)
    &&& is_export(record.export)
    &&& has_begun(record.authority)
    &&& record.active_session matches Some(session) ==> {
        &&& is_named(session)
        &&& session.expires_at_unix_millis > 0
        &&& record.binding_initialized
        &&& record.rejected_through_placement_epoch < record.authority.placement_epoch
    }
}

/// `next` belongs to the actor and home of `current` and goes back in nothing.
pub open spec fn goes_on(current: AuthorityVersion, next: AuthorityVersion) -> bool {
    &&& next.actor@ == current.actor@
    &&& next.actor_generation == current.actor_generation
    &&& next.home_cell@ == current.home_cell@
    &&& next.home_revision >= current.home_revision
    &&& next.authority_epoch >= current.authority_epoch
    &&& next.placement_epoch >= current.placement_epoch
    &&& next.assignment_revision >= current.assignment_revision
}

proof fn lemma_no_zero(bytes: Seq<u8>)
    ensures
        !bytes.contains(0) <==> forall|i: int| 0 <= i < bytes.len() ==> bytes[i] != 0,
{
    if bytes.contains(0) {
        let i = choose|i: int| 0 <= i < bytes.len() && bytes[i] == 0;
        assert(bytes[i] == 0);
    }
}

pub(crate) proof fn lemma_identifiers()
    ensures
        forall|text: Seq<char>| #[trigger] valid_id(text) <==> is_identifier(text),
{
    assert forall|text: Seq<char>| #[trigger] valid_id(text) <==> is_identifier(text) by {
        lemma_no_zero(encode_utf8(text));
    }
}

pub(crate) proof fn lemma_exports()
    ensures
        forall|export: ExportIdentity| #[trigger] valid_export(export@) <==> is_export(export),
{
    assert forall|export: ExportIdentity| #[trigger]
        valid_export(export@) <==> is_export(export) by {
        lemma_no_zero(export.name@);
    }
}

/// An identifier is valid exactly if it has between one and 1024 bytes and none of them is
/// zero. Any other is told to be invalid.
pub proof fn law_identifiers_are_short_and_without_zero(
    value: &str,
    result: Result<(), ExportAuthorityError>,
)
    requires
        call_ensures(validate_id, (value,), result),
    ensures
        result is Ok <==> is_identifier(value@),
        result matches Err(e) ==> e == ExportAuthorityError::Invalid,
{
    lemma_identifiers();
}

/// An export is valid exactly if it has a name and both inodes. Any size may be
/// advertised.
pub proof fn law_exports_have_a_name_and_both_inodes(
    export: &ExportIdentity,
    result: Result<(), ExportAuthorityError>,
)
    requires
        call_ensures(validate_export, (export,), result),
    ensures
        result is Ok <==> is_export(*export),
        result matches Err(e) ==> e == ExportAuthorityError::Invalid,
{
    lemma_exports();
}

/// An authority is valid exactly if it names its actor and home and every version of it
/// has begun.
pub proof fn law_authorities_have_begun(
    authority: &AuthorityVersion,
    result: Result<(), ExportAuthorityError>,
)
    requires
        call_ensures(validate_authority, (authority,), result),
    ensures
        result is Ok <==> has_begun(*authority),
        result matches Err(e) ==> e == ExportAuthorityError::Invalid,
{
    lemma_identifiers();
}

/// A session is valid exactly if its parts have names and it ends later than now.
pub proof fn law_sessions_are_named_and_last(
    session: &ExportSessionState,
    now: u64,
    result: Result<(), ExportAuthorityError>,
)
    requires
        call_ensures(validate_session, (session, now), result),
    ensures
        result is Ok <==> is_named(*session) && session.expires_at_unix_millis > now,
        result matches Err(e) ==> e == ExportAuthorityError::Invalid,
{
    lemma_identifiers();
}

/// A reverse binding is valid exactly if it names workspace, actor and export, and the
/// actor has begun.
pub proof fn law_reverse_bindings_are_named(
    binding: &ExportReverseBinding,
    result: Result<(), ExportAuthorityError>,
)
    requires
        call_ensures(validate_reverse_binding, (binding,), result),
    ensures
        result is Ok <==> {
            &&& is_identifier(binding.workspace_id@)
            &&& is_identifier(binding.actor@)
            &&& is_export(binding.export)
            &&& binding.actor_generation > 0
        },
        result matches Err(e) ==> e == ExportAuthorityError::Invalid,
{
    lemma_identifiers();
    lemma_exports();
}

/// A record is valid exactly if it may stand. One whose session contradicts its own
/// binding or fence is corrupt, and one with a malformed part is invalid: the record's own
/// parts are looked at first, then the binding and a fence beyond the placement, then the
/// parts of the session, and last a fence at the placement.
pub proof fn law_records_stand_or_fall_by_their_parts(
    record: &ExportAuthorityRecord,
    result: Result<(), ExportAuthorityError>,
)
    requires
        call_ensures(validate_record, (record,), result),
    ensures
        result is Ok <==> may_stand(*record),
        ({
            let own = is_identifier(record.workspace_id@) && is_export(record.export) && has_begun(
                record.authority,
            );
            &&& !own ==> (result matches Err(ExportAuthorityError::Invalid))
            &&& own && record.active_session is None ==> result is Ok
            &&& own ==> (record.active_session matches Some(session) ==> {
                let placement = record.authority.placement_epoch;
                let rejected = record.rejected_through_placement_epoch;
                let lasting = is_named(session) && session.expires_at_unix_millis > 0;
                &&& !record.binding_initialized || rejected > placement ==> (result matches Err(
                    ExportAuthorityError::Corrupt,
                ))
                &&& record.binding_initialized && rejected <= placement && !lasting ==> (
                result matches Err(ExportAuthorityError::Invalid))
                &&& record.binding_initialized && rejected == placement && lasting ==> (
                result matches Err(ExportAuthorityError::Corrupt))
            })
        }),
{
    lemma_identifiers();
    lemma_exports();
}

/// An authority follows another without going back exactly if nothing in it is earlier;
/// it is a later one exactly if placement and assignment are later too; and it renews a
/// placement exactly if the assignment alone is later.
pub proof fn law_authorities_only_go_forward(
    current: &AuthorityVersion,
    next: &AuthorityVersion,
    not_back: bool,
    later: bool,
    renews: bool,
)
    requires
        call_ensures(non_regressing_authority, (current, next), not_back),
        call_ensures(monotonic_authority, (current, next), later),
        call_ensures(same_placement_renewal, (current, next), renews),
    ensures
        not_back <==> goes_on(*current, *next),
        later <==> goes_on(*current, *next) && next.placement_epoch > current.placement_epoch
            && next.assignment_revision > current.assignment_revision,
        renews <==> goes_on(*current, *next) && next.home_revision == current.home_revision
            && next.authority_epoch == current.authority_epoch && next.placement_epoch
            == current.placement_epoch && next.assignment_revision > current.assignment_revision,
{
}

/// An activation opens the session that it asks for, in the process that accepts it and
/// from sequence zero, on the export and under the authority that it names. What was
/// rejected stays so.
pub proof fn law_activation_opens_the_session_asked_for(
    existing: Option<ExportAuthorityRecord>,
    command: ActivateExport,
    now: u64,
    server_boot_id: &str,
    next: ExportAuthorityRecord,
)
    requires
        call_ensures(
            apply_transition,
            (existing, ExportAuthorityTransition::Activate(command), now, server_boot_id),
            Ok(next),
        ),
    ensures
        next.workspace_id@ == command.workspace_id@,
        next.export@ == command.export@,
        next.authority@ == command.authority@,
        next.binding_initialized,
        existing is None ==> next.rejected_through_placement_epoch == 0,
        existing matches Some(current) ==> next.rejected_through_placement_epoch
            == current.rejected_through_placement_epoch,
        next.active_session matches Some(session) && {
            &&& session.session_id@ == command.session.session_id@
            &&& session.capability_id@ == command.session.capability_id@
            &&& session.expires_at_unix_millis == command.session.expires_at_unix_millis
            &&& session.node_incarnation_id@ == command.session.node_incarnation_id@
            &&& session.runtime_id@ == command.session.runtime_id@
            &&& session.server_boot_id@ == server_boot_id@
            &&& session.committed_through_sequence == 0
        },
{
}

/// When an activation succeeds, and how it fails otherwise. Malformed input is invalid. A
/// first activation needs no more. A standing record gives way to a later authority of the
/// same export, once its session is gone and for a placement that is not rejected; a
/// record that is already what is asked for stays; anything else is a conflict.
pub proof fn law_activation_is_answered(
    existing: Option<ExportAuthorityRecord>,
    command: ActivateExport,
    now: u64,
    server_boot_id: &str,
    result: Result<ExportAuthorityRecord, ExportAuthorityError>,
)
    requires
        call_ensures(
            apply_transition,
            (existing, ExportAuthorityTransition::Activate(command), now, server_boot_id),
            result,
        ),
    ensures
        ({
            let well_formed = {
                &&& is_identifier(command.workspace_id@)
                &&& has_begun(command.authority)
                &&& is_identifier(command.session.session_id@)
                &&& is_identifier(command.session.capability_id@)
                &&& is_identifier(command.session.node_incarnation_id@)
                &&& is_identifier(command.session.runtime_id@)
                &&& is_identifier(server_boot_id@)
                &&& command.session.expires_at_unix_millis > now
            };
            &&& !well_formed ==> (result matches Err(ExportAuthorityError::Invalid))
            &&& well_formed && existing is None ==> result is Ok
            &&& well_formed ==> (existing matches Some(current) ==> {
                let same_export = current.workspace_id@ == command.workspace_id@
                    && current.export@ == command.export@;
                let gives_way = same_export && current.active_session is None && goes_on(
                    current.authority,
                    command.authority,
                ) && command.authority.placement_epoch > current.authority.placement_epoch
                    && command.authority.assignment_revision
                    > current.authority.assignment_revision
                    && command.authority.placement_epoch
                    > current.rejected_through_placement_epoch;
                let is_asked_for = same_export && current.authority@ == command.authority@
                    && current.binding_initialized && (current.active_session matches Some(s)
                    && s.session_id@ == command.session.session_id@ && s.capability_id@
                    == command.session.capability_id@ && s.expires_at_unix_millis
                    == command.session.expires_at_unix_millis && s.node_incarnation_id@
                    == command.session.node_incarnation_id@ && s.runtime_id@
                    == command.session.runtime_id@ && s.server_boot_id@ == server_boot_id@
                    && s.committed_through_sequence == 0);
                &&& !may_stand(current) ==> result is Err
                &&& may_stand(current) && (gives_way || is_asked_for) ==> result is Ok
                &&& may_stand(current) && !gives_way && !is_asked_for ==> (result matches Err(
                    ExportAuthorityError::Conflict,
                ))
            })
        }),
{
    lemma_identifiers();
    lemma_exports();
}

/// A refresh keeps everything but the assignment, the capability and the expiry, which
/// become the replacements.
pub proof fn law_refresh_extends_the_session(
    current: ExportAuthorityRecord,
    command: RefreshExport,
    now: u64,
    server_boot_id: &str,
    next: ExportAuthorityRecord,
)
    requires
        call_ensures(
            apply_transition,
            (Some(current), ExportAuthorityTransition::Refresh(command), now, server_boot_id),
            Ok(next),
        ),
    ensures
        next.workspace_id@ == current.workspace_id@,
        next.export@ == current.export@,
        next.authority@ == command.replacement_authority@,
        next.rejected_through_placement_epoch == current.rejected_through_placement_epoch,
        next.binding_initialized == current.binding_initialized,
        current.active_session matches Some(before) && (next.active_session matches Some(session)
            && {
            &&& session.session_id@ == before.session_id@
            &&& session.capability_id@ == command.replacement_capability_id@
            &&& session.expires_at_unix_millis == command.replacement_expires_at_unix_millis
            &&& session.node_incarnation_id@ == before.node_incarnation_id@
            &&& session.runtime_id@ == before.runtime_id@
            &&& session.server_boot_id@ == before.server_boot_id@
            &&& session.committed_through_sequence == before.committed_through_sequence
        }),
{
}

/// When a refresh succeeds, and how it fails otherwise. Malformed input is invalid, and
/// what is not there is not found. A standing record is refreshed exactly if it is what the
/// caller saw, its session is live and of this process, and capability, expiry and
/// assignment are all new; anything else is a conflict.
pub proof fn law_refresh_is_answered(
    existing: Option<ExportAuthorityRecord>,
    command: RefreshExport,
    now: u64,
    server_boot_id: &str,
    result: Result<ExportAuthorityRecord, ExportAuthorityError>,
)
    requires
        call_ensures(
            apply_transition,
            (existing, ExportAuthorityTransition::Refresh(command), now, server_boot_id),
            result,
        ),
    ensures
        ({
            let well_formed = {
                &&& is_identifier(command.workspace_id@)
                &&& has_begun(command.expected_authority)
                &&& is_identifier(command.session_id@)
                &&& is_identifier(command.expected_capability_id@)
                &&& is_identifier(command.replacement_capability_id@)
                &&& has_begun(command.replacement_authority)
            };
            &&& !well_formed ==> (result matches Err(ExportAuthorityError::Invalid))
            &&& well_formed && existing is None ==> (result matches Err(
                ExportAuthorityError::NotFound,
            ))
            &&& well_formed ==> (existing matches Some(current) ==> {
                let seen = current.workspace_id@ == command.workspace_id@ && current.export@
                    == command.expected_export@ && current.authority@
                    == command.expected_authority@ && (current.active_session matches Some(s)
                    && s.session_id@ == command.session_id@ && s.capability_id@
                    == command.expected_capability_id@);
                let live = current.active_session matches Some(s) && s.server_boot_id@
                    == server_boot_id@ && s.expires_at_unix_millis > now;
                let renewed = goes_on(current.authority, command.replacement_authority)
                    && command.replacement_authority.home_revision
                    == current.authority.home_revision
                    && command.replacement_authority.authority_epoch
                    == current.authority.authority_epoch
                    && command.replacement_authority.placement_epoch
                    == current.authority.placement_epoch
                    && command.replacement_authority.assignment_revision
                    > current.authority.assignment_revision
                    && command.replacement_capability_id@ != command.expected_capability_id@ && (
                current.active_session matches Some(s)
                    && command.replacement_expires_at_unix_millis > s.expires_at_unix_millis);
                &&& !may_stand(current) ==> result is Err
                &&& may_stand(current) && seen && live && renewed ==> result is Ok
                &&& may_stand(current) && !(seen && live && renewed) ==> (result matches Err(
                    ExportAuthorityError::Conflict,
                ))
            })
        }),
{
    lemma_identifiers();
    lemma_exports();
}

/// When a deactivation succeeds, what it leaves, and how it fails otherwise. A standing
/// record whose session is the one that the caller saw loses it and rejects its own
/// placement; anything else is a conflict.
pub proof fn law_deactivation_is_answered(
    existing: Option<ExportAuthorityRecord>,
    command: DeactivateExport,
    now: u64,
    server_boot_id: &str,
    result: Result<ExportAuthorityRecord, ExportAuthorityError>,
)
    requires
        call_ensures(
            apply_transition,
            (existing, ExportAuthorityTransition::Deactivate(command), now, server_boot_id),
            result,
        ),
    ensures
        ({
            let well_formed = is_identifier(command.workspace_id@) && has_begun(
                command.expected_authority,
            ) && is_identifier(command.session_id@);
            &&& !well_formed ==> (result matches Err(ExportAuthorityError::Invalid))
            &&& well_formed && existing is None ==> (result matches Err(
                ExportAuthorityError::NotFound,
            ))
            &&& well_formed ==> (existing matches Some(current) ==> {
                let seen = current.workspace_id@ == command.workspace_id@ && current.export@
                    == command.expected_export@ && current.authority@
                    == command.expected_authority@ && (current.active_session matches Some(s)
                    && s.session_id@ == command.session_id@);
                &&& !may_stand(current) ==> result is Err
                &&& may_stand(current) && !seen ==> (result matches Err(
                    ExportAuthorityError::Conflict,
                ))
                &&& may_stand(current) && seen ==> (result matches Ok(next) && {
                    &&& next.active_session is None
                    &&& next.rejected_through_placement_epoch == current.authority.placement_epoch
                    &&& next.workspace_id@ == current.workspace_id@
                    &&& next.export@ == current.export@
                    &&& next.authority@ == current.authority@
                    &&& next.binding_initialized == current.binding_initialized
                })
            })
        }),
{
    lemma_identifiers();
    lemma_exports();
}

/// When a fence advances, what it leaves, and how it fails otherwise. It must cover the
/// placement that it names. Where nothing is recorded and nothing was expected, it makes a
/// record without binding or session. A standing record advances exactly from the authority
/// that the caller saw, to it or a later one, and never rejects less; its session is gone.
pub proof fn law_fence_is_answered(
    existing: Option<ExportAuthorityRecord>,
    command: AdvanceFence,
    now: u64,
    server_boot_id: &str,
    result: Result<ExportAuthorityRecord, ExportAuthorityError>,
)
    requires
        call_ensures(
            apply_transition,
            (existing, ExportAuthorityTransition::AdvanceFence(command), now, server_boot_id),
            result,
        ),
    ensures
        ({
            let named = command.new_non_writable_authority;
            let well_formed = is_identifier(command.workspace_id@) && has_begun(named)
                && command.reject_through_placement_epoch >= named.placement_epoch;
            &&& !well_formed ==> (result matches Err(ExportAuthorityError::Invalid))
            &&& well_formed && existing is None ==> {
                &&& command.expected_authority is Some ==> (result matches Err(
                    ExportAuthorityError::Conflict,
                ))
                &&& command.expected_authority is None ==> (result matches Ok(next)
                    && !next.binding_initialized && next.workspace_id@ == command.workspace_id@
                    && next.export@ == command.export@)
            }
            &&& well_formed ==> (existing matches Some(current) ==> {
                let later = goes_on(current.authority, named) && named.placement_epoch
                    > current.authority.placement_epoch && named.assignment_revision
                    > current.authority.assignment_revision;
                let advances = (command.expected_authority matches Some(expected) && expected@
                    == current.authority@) && current.workspace_id@ == command.workspace_id@
                    && current.export@ == command.export@ && (named@ == current.authority@
                    || later) && command.reject_through_placement_epoch
                    >= current.rejected_through_placement_epoch;
                &&& !may_stand(current) ==> result is Err
                &&& may_stand(current) && !advances ==> (result matches Err(
                    ExportAuthorityError::Conflict,
                ))
                &&& may_stand(current) && advances ==> (result matches Ok(next)
                    && next.binding_initialized == current.binding_initialized
                    && next.workspace_id@ == current.workspace_id@ && next.export@
                    == current.export@)
            })
            &&& result matches Ok(next) ==> {
                &&& next.active_session is None
                &&& next.authority@ == named@
                &&& next.rejected_through_placement_epoch == command.reject_through_placement_epoch
            }
        }),
{
    lemma_identifiers();
    lemma_exports();
}

/// A transition from a record that may not stand is refused as that record is.
pub proof fn law_transition_refuses_a_fallen_record(
    current: ExportAuthorityRecord,
    transition: ExportAuthorityTransition,
    now: u64,
    server_boot_id: &str,
    fault: Result<(), ExportAuthorityError>,
    result: Result<ExportAuthorityRecord, ExportAuthorityError>,
)
    requires
        call_ensures(
            apply_transition,
            (Some(current), transition, now, server_boot_id),
            result,
        ),
        call_ensures(validate_record, (&current,), fault),
        !may_stand(current),
    ensures
        result matches Err(e) && (e == ExportAuthorityError::Invalid || fault == Err::<
            (),
            ExportAuthorityError,
        >(e)),
{
    lemma_identifiers();
    lemma_exports();
}

/// A mutation is admitted exactly if the record may stand and its session presents the
/// token, part by part, has not ended and belongs to this process. Otherwise the token is
/// stale, but for a record that may not stand, which is refused as such.
pub proof fn law_mutation_is_admitted_for_the_live_session(
    current: Option<&ExportAuthorityRecord>,
    token: &MutationFenceToken,
    now: u64,
    server_boot_id: &str,
    result: Result<(), ExportAuthorityError>,
)
    requires
        call_ensures(validate_mutation, (current, token, now, server_boot_id), result),
    ensures
        result is Ok <==> (current matches Some(record) && may_stand(*record) && (
        record.active_session matches Some(session) && {
            &&& token.workspace_id@ == record.workspace_id@
            &&& token.export@ == record.export@
            &&& token.authority@ == record.authority@
            &&& token.session_id@ == session.session_id@
            &&& token.capability_id@ == session.capability_id@
            &&& token.expires_at_unix_millis == session.expires_at_unix_millis
            &&& token.node_incarnation_id@ == session.node_incarnation_id@
            &&& token.runtime_id@ == session.runtime_id@
            &&& token.server_boot_id@ == session.server_boot_id@
            &&& session.server_boot_id@ == server_boot_id@
            &&& session.expires_at_unix_millis > now
        })),
        current is None ==> (result matches Err(ExportAuthorityError::StaleMutation)),
        current matches Some(record) ==> (may_stand(*record) ==> (result is Ok || (result matches Err(
            ExportAuthorityError::StaleMutation,
        )))),
{
    lemma_identifiers();
    lemma_exports();
}

/// A clock reading in milliseconds is the whole milliseconds in it, or the largest number
/// if there are more.
pub proof fn law_milliseconds_are_counted_down(seconds: u64, nanos: u32, millis: u64)
    requires
        call_ensures(trusted_now_unix_millis, (seconds, nanos), millis),
    ensures
        millis < u64::MAX ==> {
            &&& millis * 1_000_000 <= seconds * 1_000_000_000 + nanos
            &&& seconds * 1_000_000_000 + nanos < (millis + 1) * 1_000_000
        },
        millis == u64::MAX ==> u64::MAX * 1_000_000 <= seconds * 1_000_000_000 + nanos,
{
}

} // verus!
