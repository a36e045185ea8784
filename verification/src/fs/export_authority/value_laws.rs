//! What tells two exports, authorities, sessions or mutations apart.

use super::types::ActivateExport;
use super::types::AdvanceFence;
use super::types::AuthorityVersion;
use super::types::DeactivateExport;
use super::types::ExportAuthorityRecord;
use super::types::ExportIdentity;
use super::types::ExportMutationExpectation;
use super::types::ExportMutationOutcome;
use super::types::ExportReverseBinding;
use super::types::ExportSessionState;
use super::types::MutationFenceToken;
use super::types::MutationIdentity;
use super::types::MutationRequestIdentity;
use super::types::RefreshExport;
use vstd::prelude::*;

verus! {

/// Two values of `ExportIdentity` are the same exactly if every field is.
pub proof fn law_export_identity_is_its_fields(left: ExportIdentity, right: ExportIdentity, same: bool)
    requires
        call_ensures(ExportIdentity::same, (&left, &right), same),
    ensures
        left@ == right@ <==> {
            &&& left.nbd_directory_inode == right.nbd_directory_inode
            &&& left.name@ == right.name@
            &&& left.inode == right.inode
            &&& left.advertised_size == right.advertised_size
        },
        same == (left@ == right@),
{
}

/// Two values of `AuthorityVersion` are the same exactly if every field is.
pub proof fn law_authority_version_is_its_fields(left: AuthorityVersion, right: AuthorityVersion, same: bool)
    requires
        call_ensures(AuthorityVersion::same, (&left, &right), same),
    ensures
        left@ == right@ <==> {
            &&& left.actor@ == right.actor@
            &&& left.actor_generation == right.actor_generation
            &&& left.home_cell@ == right.home_cell@
            &&& left.home_revision == right.home_revision
            &&& left.authority_epoch == right.authority_epoch
            &&& left.placement_epoch == right.placement_epoch
            &&& left.assignment_revision == right.assignment_revision
        },
        same == (left@ == right@),
{
}

/// Two values of `ExportSessionState` are the same exactly if every field is.
pub proof fn law_export_session_state_is_its_fields(left: ExportSessionState, right: ExportSessionState, same: bool)
    requires
        call_ensures(ExportSessionState::same, (&left, &right), same),
    ensures
        left@ == right@ <==> {
            &&& left.session_id@ == right.session_id@
            &&& left.capability_id@ == right.capability_id@
            &&& left.expires_at_unix_millis == right.expires_at_unix_millis
            &&& left.node_incarnation_id@ == right.node_incarnation_id@
            &&& left.runtime_id@ == right.runtime_id@
            &&& left.server_boot_id@ == right.server_boot_id@
            &&& left.committed_through_sequence == right.committed_through_sequence
        },
        same == (left@ == right@),
{
}

/// Two values of `ExportAuthorityRecord` are the same exactly if every field is.
pub proof fn law_export_authority_record_is_its_fields(left: ExportAuthorityRecord, right: ExportAuthorityRecord, same: bool)
    requires
        call_ensures(ExportAuthorityRecord::same, (&left, &right), same),
    ensures
        left@ == right@ <==> {
            &&& left.workspace_id@ == right.workspace_id@
            &&& left.export@ == right.export@
            &&& left.authority@ == right.authority@
            &&& left.rejected_through_placement_epoch == right.rejected_through_placement_epoch
            &&& left.binding_initialized == right.binding_initialized
            &&& left.active_session is Some == right.active_session is Some
            &&& left.active_session matches Some(x) ==> (right.active_session matches Some(y) && x@ == y@)
        },
        same == (left@ == right@),
{
}

/// Two values of `ExportReverseBinding` are the same exactly if every field is.
pub proof fn law_export_reverse_binding_is_its_fields(left: ExportReverseBinding, right: ExportReverseBinding, same: bool)
    requires
        call_ensures(ExportReverseBinding::same, (&left, &right), same),
    ensures
        left@ == right@ <==> {
            &&& left.workspace_id@ == right.workspace_id@
            &&& left.actor@ == right.actor@
            &&& left.actor_generation == right.actor_generation
            &&& left.export@ == right.export@
        },
        same == (left@ == right@),
{
}

/// Two values of `ActivateExport` are the same exactly if every field is.
pub proof fn law_activate_export_is_its_fields(left: ActivateExport, right: ActivateExport)
    ensures
        left@ == right@ <==> {
            &&& left.workspace_id@ == right.workspace_id@
            &&& left.export@ == right.export@
            &&& left.authority@ == right.authority@
            &&& left.session@ == right.session@
        },
{
}

/// Two values of `RefreshExport` are the same exactly if every field is.
pub proof fn law_refresh_export_is_its_fields(left: RefreshExport, right: RefreshExport)
    ensures
        left@ == right@ <==> {
            &&& left.workspace_id@ == right.workspace_id@
            &&& left.expected_export@ == right.expected_export@
            &&& left.expected_authority@ == right.expected_authority@
            &&& left.session_id@ == right.session_id@
            &&& left.expected_capability_id@ == right.expected_capability_id@
            &&& left.replacement_authority@ == right.replacement_authority@
            &&& left.replacement_capability_id@ == right.replacement_capability_id@
            &&& left.replacement_expires_at_unix_millis == right.replacement_expires_at_unix_millis
        },
{
}

/// Two values of `DeactivateExport` are the same exactly if every field is.
pub proof fn law_deactivate_export_is_its_fields(left: DeactivateExport, right: DeactivateExport)
    ensures
        left@ == right@ <==> {
            &&& left.workspace_id@ == right.workspace_id@
            &&& left.expected_export@ == right.expected_export@
            &&& left.expected_authority@ == right.expected_authority@
            &&& left.session_id@ == right.session_id@
        },
{
}

/// Two values of `AdvanceFence` are the same exactly if every field is.
pub proof fn law_advance_fence_is_its_fields(left: AdvanceFence, right: AdvanceFence)
    ensures
        left@ == right@ <==> {
            &&& left.workspace_id@ == right.workspace_id@
            &&& left.export@ == right.export@
            &&& left.expected_authority is Some == right.expected_authority is Some
            &&& left.expected_authority matches Some(x) ==> (right.expected_authority matches Some(y) && x@ == y@)
            &&& left.new_non_writable_authority@ == right.new_non_writable_authority@
            &&& left.reject_through_placement_epoch == right.reject_through_placement_epoch
        },
{
}

/// Two values of `MutationFenceToken` are the same exactly if every field is.
pub proof fn law_mutation_fence_token_is_its_fields(left: MutationFenceToken, right: MutationFenceToken, same: bool)
    requires
        call_ensures(MutationFenceToken::same, (&left, &right), same),
    ensures
        left@ == right@ <==> {
            &&& left.workspace_id@ == right.workspace_id@
            &&& left.export@ == right.export@
            &&& left.authority@ == right.authority@
            &&& left.session_id@ == right.session_id@
            &&& left.capability_id@ == right.capability_id@
            &&& left.expires_at_unix_millis == right.expires_at_unix_millis
            &&& left.node_incarnation_id@ == right.node_incarnation_id@
            &&& left.runtime_id@ == right.runtime_id@
            &&& left.server_boot_id@ == right.server_boot_id@
        },
        same == (left@ == right@),
{
}

/// Two values of `MutationRequestIdentity` are the same exactly if every field is.
pub proof fn law_mutation_request_identity_is_its_fields(left: MutationRequestIdentity, right: MutationRequestIdentity, same: bool)
    requires
        call_ensures(MutationRequestIdentity::same, (&left, &right), same),
    ensures
        left@ == right@ <==> {
            &&& left.operation_id@ == right.operation_id@
            &&& left.command_digest@ == right.command_digest@
            &&& left.data_checksum@ == right.data_checksum@
        },
        same == (left@ == right@),
{
}

/// Two values of `MutationIdentity` are the same exactly if every field is.
pub proof fn law_mutation_identity_is_its_fields(left: MutationIdentity, right: MutationIdentity, same: bool)
    requires
        call_ensures(MutationIdentity::same, (&left, &right), same),
    ensures
        left@ == right@ <==> {
            &&& left.operation_id@ == right.operation_id@
            &&& left.sequence == right.sequence
            &&& left.command_digest@ == right.command_digest@
            &&& left.data_checksum@ == right.data_checksum@
        },
        same == (left@ == right@),
{
}

/// Two values of `ExportMutationOutcome` are the same exactly if every field is.
pub proof fn law_export_mutation_outcome_is_its_fields(left: ExportMutationOutcome, right: ExportMutationOutcome, same: bool)
    requires
        call_ensures(ExportMutationOutcome::same, (&left, &right), same),
    ensures
        left@ == right@ <==> {
            &&& left.workspace_id@ == right.workspace_id@
            &&& left.export@ == right.export@
            &&& left.authority@ == right.authority@
            &&& left.session_id@ == right.session_id@
            &&& left.server_boot_id@ == right.server_boot_id@
            &&& left.mutation@ == right.mutation@
            &&& left.kind == right.kind
        },
        same == (left@ == right@),
{
}

/// Two values of `ExportMutationExpectation` are the same exactly if every field is.
pub proof fn law_export_mutation_expectation_is_its_fields(left: ExportMutationExpectation, right: ExportMutationExpectation, same: bool)
    requires
        call_ensures(ExportMutationExpectation::same, (&left, &right), same),
    ensures
        left@ == right@ <==> {
            &&& left.workspace_id@ == right.workspace_id@
            &&& left.export@ == right.export@
            &&& left.authority@ == right.authority@
            &&& left.session_id@ == right.session_id@
            &&& left.server_boot_id@ == right.server_boot_id@
            &&& left.mutation@ == right.mutation@
            &&& left.kind == right.kind
        },
        same == (left@ == right@),
{
}

} // verus!
