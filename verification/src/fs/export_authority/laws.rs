//! What authority transitions and the mutation fence promise together.

use super::mutation::authority_fields;
use super::mutation::command_digest_domain;
use super::mutation::command_fields;
use super::mutation::command_preimage;
use super::mutation::complete_token;
use super::mutation::session_fields;
use super::rules::activate_result;
use super::rules::activated;
use super::rules::fenced;
use super::rules::mutation_result;
use super::rules::non_regressing;
use super::rules::session_token;
use super::rules::transition_result;
use super::rules::valid_authority;
use super::rules::valid_export;
use super::rules::valid_id;
use super::rules::valid_record;
use super::types::ActivateExportModel;
use super::types::AuthorityVersionModel;
use super::types::ExportAuthorityError;
use super::types::ExportAuthorityRecordModel;
use super::types::ExportAuthorityTransitionModel;
use super::types::ExportIdentityModel;
use super::types::ExportMutationCommandModel;
use super::types::MutationFenceTokenModel;
use super::types::RefreshExportModel;
use crate::fs::key_codec::be8;
use crate::wire::be_bytes;
use crate::wire::countable;
use crate::wire::lemma_be_bytes_len;
use crate::wire::lemma_be_split;
use crate::wire::lemma_fixed_split;
use crate::wire::lemma_long_field_split;
use crate::wire::lemma_long_text_split;
use crate::wire::lemma_span_values;
use crate::wire::long_field;
use crate::wire::long_text;
use vstd::prelude::*;
use vstd::utf8::encode_utf8;

verus! {

broadcast use lemma_be_bytes_len;

/// Every transition preserves the immutable export binding: the workspace and the
/// export of a record never change.
pub proof fn law_transition_preserves_binding(
    current: ExportAuthorityRecordModel,
    transition: ExportAuthorityTransitionModel,
    now: u64,
    server_boot_id: Seq<char>,
)
    ensures
        transition_result(Some(current), transition, now, server_boot_id) matches Ok(next) ==> {
            &&& next.workspace_id == current.workspace_id
            &&& next.export == current.export
            &&& next.authority.actor == current.authority.actor
            &&& next.authority.actor_generation == current.authority.actor_generation
            &&& next.authority.home_cell == current.authority.home_cell
        },
{
}

/// Nothing that fences old writers ever goes back: authority versions and the
/// rejected placement epoch only grow.
pub proof fn law_transition_never_regresses(
    current: ExportAuthorityRecordModel,
    transition: ExportAuthorityTransitionModel,
    now: u64,
    server_boot_id: Seq<char>,
)
    ensures
        transition_result(Some(current), transition, now, server_boot_id) matches Ok(next) ==> {
            &&& non_regressing(current.authority, next.authority)
            &&& current.rejected_through_placement_epoch <= next.rejected_through_placement_epoch
        },
{
}

/// A transition yields a valid record, given a well-formed export. (The export of a
/// record's first transition is checked where the record is stored.)
pub proof fn law_transition_yields_valid_record(
    existing: Option<ExportAuthorityRecordModel>,
    transition: ExportAuthorityTransitionModel,
    now: u64,
    server_boot_id: Seq<char>,
)
    ensures
        transition_result(existing, transition, now, server_boot_id) matches Ok(next) ==> (
        valid_export(next.export) ==> valid_record(next)),
        existing is Some ==> (transition_result(existing, transition, now, server_boot_id) matches Ok(
            next,
        ) ==> valid_record(next)),
{
}

/// A transition from an invalid record never succeeds.
pub proof fn law_transition_rejects_invalid_record(
    current: ExportAuthorityRecordModel,
    transition: ExportAuthorityTransitionModel,
    now: u64,
    server_boot_id: Seq<char>,
)
    requires
        !valid_record(current),
    ensures
        transition_result(Some(current), transition, now, server_boot_id) is Err,
{
}

/// An activation resets what the caller sent as the session's boot and sequence.
pub proof fn law_activation_resets_session(
    existing: Option<ExportAuthorityRecordModel>,
    command: ActivateExportModel,
    now: u64,
    server_boot_id: Seq<char>,
)
    ensures
        activate_result(existing, command, now, server_boot_id) matches Ok(next) ==> (
        next.active_session matches Some(session) && session.server_boot_id == server_boot_id
            && session.committed_through_sequence == 0),
{
}

/// Repeating an accepted activation returns the same record.
pub proof fn law_activation_is_idempotent(
    existing: Option<ExportAuthorityRecordModel>,
    command: ActivateExportModel,
    now: u64,
    server_boot_id: Seq<char>,
)
    requires
        valid_id(command.workspace_id),
        valid_export(command.export),
    ensures
        activate_result(existing, command, now, server_boot_id) matches Ok(next)
            ==> activate_result(Some(next), command, now, server_boot_id) == Ok::<
            ExportAuthorityRecordModel,
            ExportAuthorityError,
        >(next),
{
    if activate_result(existing, command, now, server_boot_id) is Ok {
        let next = activate_result(existing, command, now, server_boot_id)->Ok_0;
        assert(activated(Some(next), command, server_boot_id) == next);
    }
}

/// While a session is active no other activation succeeds: an export has one writer.
pub proof fn law_active_session_excludes_others(
    current: ExportAuthorityRecordModel,
    command: ActivateExportModel,
    now: u64,
    server_boot_id: Seq<char>,
)
    requires
        current.active_session is Some,
    ensures
        activate_result(Some(current), command, now, server_boot_id) matches Ok(next) ==> next
            == current,
{
}

/// The token of a live session is admitted by the process that opened it.
pub proof fn law_live_token_is_admitted(
    current: ExportAuthorityRecordModel,
    now: u64,
    server_boot_id: Seq<char>,
)
    requires
        valid_record(current),
        current.active_session matches Some(session) && session.expires_at_unix_millis > now
            && session.server_boot_id == server_boot_id,
    ensures
        mutation_result(
            Some(current),
            session_token(current, current.active_session->0),
            now,
            server_boot_id,
        ) == Ok::<(), ExportAuthorityError>(()),
{
}

/// An activation makes its own token live.
pub proof fn law_activated_token_is_admitted(
    existing: Option<ExportAuthorityRecordModel>,
    command: ActivateExportModel,
    now: u64,
    server_boot_id: Seq<char>,
)
    requires
        valid_id(command.workspace_id),
        valid_export(command.export),
    ensures
        activate_result(existing, command, now, server_boot_id) matches Ok(next)
            ==> mutation_result(
            Some(next),
            session_token(next, next.active_session->0),
            now,
            server_boot_id,
        ) == Ok::<(), ExportAuthorityError>(()),
{
}

/// Only the token of the current session is admitted, before it expires, by the
/// process that opened it, for a placement that is not rejected.
pub proof fn law_admitted_token_is_current(
    current: Option<ExportAuthorityRecordModel>,
    token: MutationFenceTokenModel,
    now: u64,
    server_boot_id: Seq<char>,
)
    requires
        mutation_result(current, token, now, server_boot_id) is Ok,
    ensures
        current matches Some(record) && record.active_session matches Some(session) && {
            &&& token == session_token(record, session)
            &&& token.expires_at_unix_millis > now
            &&& token.server_boot_id == server_boot_id
            &&& token.authority.placement_epoch > record.rejected_through_placement_epoch
        },
{
}

/// A session that was closed or fenced admits no token at all, in no process.
pub proof fn law_fence_stops_every_token(
    existing: Option<ExportAuthorityRecordModel>,
    transition: ExportAuthorityTransitionModel,
    now: u64,
    later: u64,
    server_boot_id: Seq<char>,
    later_boot_id: Seq<char>,
    token: MutationFenceTokenModel,
)
    requires
        transition is Deactivate || transition is AdvanceFence,
        transition matches ExportAuthorityTransitionModel::AdvanceFence(command) ==> valid_export(
            command.export,
        ),
    ensures
        transition_result(existing, transition, now, server_boot_id) matches Ok(next)
            ==> next.active_session is None && mutation_result(
            Some(next),
            token,
            later,
            later_boot_id,
        ) == Err::<(), ExportAuthorityError>(ExportAuthorityError::StaleMutation),
{
}

/// A placement that was rejected is never activated again.
pub proof fn law_rejected_placement_stays_rejected(
    current: ExportAuthorityRecordModel,
    command: ActivateExportModel,
    now: u64,
    server_boot_id: Seq<char>,
)
    ensures
        activate_result(Some(current), command, now, server_boot_id) is Ok
            ==> command.authority.placement_epoch > current.rejected_through_placement_epoch,
{
}

/// A session that has expired cannot be revived by a refresh.
pub proof fn law_expired_session_is_not_refreshed(
    current: ExportAuthorityRecordModel,
    command: RefreshExportModel,
    now: u64,
    server_boot_id: Seq<char>,
)
    requires
        current.active_session matches Some(session) && session.expires_at_unix_millis <= now,
    ensures
        transition_result(
            Some(current),
            ExportAuthorityTransitionModel::Refresh(command),
            now,
            server_boot_id,
        ) is Err,
{
}

/// A refresh makes the token that the session presented until then stale, in every
/// process.
pub proof fn law_refresh_retires_old_token(
    current: ExportAuthorityRecordModel,
    command: RefreshExportModel,
    now: u64,
    later: u64,
    server_boot_id: Seq<char>,
    later_boot_id: Seq<char>,
)
    ensures
        transition_result(
            Some(current),
            ExportAuthorityTransitionModel::Refresh(command),
            now,
            server_boot_id,
        ) matches Ok(next) ==> mutation_result(
            Some(next),
            session_token(current, current.active_session->0),
            later,
            later_boot_id,
        ) == Err::<(), ExportAuthorityError>(ExportAuthorityError::StaleMutation),
{
}

/// Fencing a record twice is fencing it once, and leaves it valid.
pub proof fn law_fencing_is_idempotent(record: ExportAuthorityRecordModel)
    ensures
        fenced(fenced(record)) == fenced(record),
        valid_record(record) ==> valid_record(fenced(record)),
{
}

/// The fields of an authority can be taken off the front of a string in one way only.
pub proof fn lemma_authority_fields_split(
    a: AuthorityVersionModel,
    x: Seq<u8>,
    b: AuthorityVersionModel,
    y: Seq<u8>,
)
    requires
        valid_authority(a),
        valid_authority(b),
        authority_fields(a) + x == authority_fields(b) + y,
    ensures
        a == b,
        x == y,
{
    lemma_span_values();
    let a6 = be8(a.assignment_revision) + x;
    let b6 = be8(b.assignment_revision) + y;
    let a5 = be8(a.placement_epoch) + a6;
    let b5 = be8(b.placement_epoch) + b6;
    let a4 = be8(a.authority_epoch) + a5;
    let b4 = be8(b.authority_epoch) + b5;
    let a3 = be8(a.home_revision) + a4;
    let b3 = be8(b.home_revision) + b4;
    let a2 = long_text(a.home_cell) + a3;
    let b2 = long_text(b.home_cell) + b3;
    let a1 = be8(a.actor_generation) + a2;
    let b1 = be8(b.actor_generation) + b2;
    assert(authority_fields(a) + x =~= long_text(a.actor) + a1);
    assert(authority_fields(b) + y =~= long_text(b.actor) + b1);
    lemma_long_text_split(a.actor, a1, b.actor, b1);
    lemma_be_split(a.actor_generation as nat, a2, b.actor_generation as nat, b2, 8);
    lemma_long_text_split(a.home_cell, a3, b.home_cell, b3);
    lemma_be_split(a.home_revision as nat, a4, b.home_revision as nat, b4, 8);
    lemma_be_split(a.authority_epoch as nat, a5, b.authority_epoch as nat, b5, 8);
    lemma_be_split(a.placement_epoch as nat, a6, b.placement_epoch as nat, b6, 8);
    lemma_be_split(a.assignment_revision as nat, x, b.assignment_revision as nat, y, 8);
}

/// The strings of a session are short enough for an eight-byte length.
pub open spec fn session_countable(token: MutationFenceTokenModel) -> bool {
    &&& countable(encode_utf8(token.session_id))
    &&& countable(encode_utf8(token.capability_id))
    &&& countable(encode_utf8(token.node_incarnation_id))
    &&& countable(encode_utf8(token.runtime_id))
    &&& countable(encode_utf8(token.server_boot_id))
}

/// The fields of a session can be taken off the front of a string in one way only.
pub proof fn lemma_session_fields_split(
    a: MutationFenceTokenModel,
    x: Seq<u8>,
    b: MutationFenceTokenModel,
    y: Seq<u8>,
)
    requires
        session_countable(a),
        session_countable(b),
        session_fields(a) + x == session_fields(b) + y,
    ensures
        a.session_id == b.session_id,
        a.capability_id == b.capability_id,
        a.expires_at_unix_millis == b.expires_at_unix_millis,
        a.node_incarnation_id == b.node_incarnation_id,
        a.runtime_id == b.runtime_id,
        a.server_boot_id == b.server_boot_id,
        x == y,
{
    lemma_span_values();
    let a5 = long_text(a.server_boot_id) + x;
    let b5 = long_text(b.server_boot_id) + y;
    let a4 = long_text(a.runtime_id) + a5;
    let b4 = long_text(b.runtime_id) + b5;
    let a3 = long_text(a.node_incarnation_id) + a4;
    let b3 = long_text(b.node_incarnation_id) + b4;
    let a2 = be8(a.expires_at_unix_millis) + a3;
    let b2 = be8(b.expires_at_unix_millis) + b3;
    let a1 = long_text(a.capability_id) + a2;
    let b1 = long_text(b.capability_id) + b2;
    assert(session_fields(a) + x =~= long_text(a.session_id) + a1);
    assert(session_fields(b) + y =~= long_text(b.session_id) + b1);
    lemma_long_text_split(a.session_id, a1, b.session_id, b1);
    lemma_long_text_split(a.capability_id, a2, b.capability_id, b2);
    lemma_be_split(
        a.expires_at_unix_millis as nat,
        a3,
        b.expires_at_unix_millis as nat,
        b3,
        8,
    );
    lemma_long_text_split(a.node_incarnation_id, a4, b.node_incarnation_id, b4);
    lemma_long_text_split(a.runtime_id, a5, b.runtime_id, b5);
    lemma_long_text_split(a.server_boot_id, x, b.server_boot_id, y);
}

proof fn lemma_command_fields_split(
    a: ExportMutationCommandModel,
    x: Seq<u8>,
    b: ExportMutationCommandModel,
    y: Seq<u8>,
)
    requires
        a.length() <= u64::MAX,
        b.length() <= u64::MAX,
        command_fields(a) + x == command_fields(b) + y,
    ensures
        a.kind() == b.kind(),
        a.offset() == b.offset(),
        a.length() == b.length(),
        x == y,
{
    lemma_span_values();
    let s = command_fields(a) + x;
    let t = command_fields(b) + y;
    assert(s[0] == command_fields(a)[0] && s[1] == command_fields(a)[1]);
    assert(t[0] == command_fields(b)[0] && t[1] == command_fields(b)[1]);
    assert(a.kind() == b.kind());
    let width: nat = if a is Write { 8 } else { 4 };
    if a is Flush {
        assert(s.skip(2) =~= x);
        assert(t.skip(2) =~= y);
    } else {
        let ra = be_bytes(a.length(), width) + x;
        let rb = be_bytes(b.length(), width) + y;
        assert(s.skip(2) =~= be8(a.offset()) + ra);
        assert(t.skip(2) =~= be8(b.offset()) + rb);
        lemma_be_split(a.offset() as nat, ra, b.offset() as nat, rb, 8);
        lemma_be_split(a.length(), x, b.length(), y, width);
    }
}

/// The digest of a command is computed over its whole request with unambiguous
/// boundaries: requests with the same preimage have the same workspace, export name and
/// inode, authority, session, operation, kind, offset, length and data checksum.
pub proof fn law_command_preimage_is_unambiguous(
    a: (MutationFenceTokenModel, Seq<u8>, ExportMutationCommandModel, Seq<u8>),
    b: (MutationFenceTokenModel, Seq<u8>, ExportMutationCommandModel, Seq<u8>),
)
    requires
        complete_token(a.0),
        complete_token(b.0),
        a.1.len() == 32,
        b.1.len() == 32,
        a.2.length() <= u64::MAX,
        b.2.length() <= u64::MAX,
        command_preimage(a.0, a.1, a.2, a.3) == command_preimage(b.0, b.1, b.2, b.3),
    ensures
        b.0 == (MutationFenceTokenModel {
            export: ExportIdentityModel {
                nbd_directory_inode: b.0.export.nbd_directory_inode,
                advertised_size: b.0.export.advertised_size,
                ..a.0.export
            },
            ..a.0
        }),
        a.1 == b.1,
        a.2.kind() == b.2.kind(),
        a.2.offset() == b.2.offset(),
        a.2.length() == b.2.length(),
        a.3 == b.3,
{
    lemma_span_values();
    let a6 = command_fields(a.2) + a.3;
    let b6 = command_fields(b.2) + b.3;
    let a5 = a.1 + a6;
    let b5 = b.1 + b6;
    let a4 = session_fields(a.0) + a5;
    let b4 = session_fields(b.0) + b5;
    let a3 = authority_fields(a.0.authority) + a4;
    let b3 = authority_fields(b.0.authority) + b4;
    let a2 = be8(a.0.export.inode) + a3;
    let b2 = be8(b.0.export.inode) + b3;
    let a1 = long_field(a.0.export.name) + a2;
    let b1 = long_field(b.0.export.name) + b2;
    lemma_fixed_split(
        command_digest_domain(),
        long_text(a.0.workspace_id) + a1,
        command_digest_domain(),
        long_text(b.0.workspace_id) + b1,
    );
    lemma_long_text_split(a.0.workspace_id, a1, b.0.workspace_id, b1);
    lemma_long_field_split(a.0.export.name, a2, b.0.export.name, b2);
    lemma_be_split(a.0.export.inode as nat, a3, b.0.export.inode as nat, b3, 8);
    lemma_authority_fields_split(a.0.authority, a4, b.0.authority, b4);
    lemma_session_fields_split(a.0, a5, b.0, b5);
    lemma_fixed_split(a.1, a6, b.1, b6);
    lemma_command_fields_split(a.2, a.3, b.2, b.3);
}

} // verus!
