//! A deterministic run through the life of an export's authority.

use super::laws::law_activated_token_is_admitted;
use super::rules::apply_transition;
use super::rules::lemma_numbered_id;
use super::rules::mutation_result;
use super::rules::session_token;
use super::rules::transition_result;
use super::rules::valid_id;
use super::rules::validate_mutation;
use super::types::ActivateExport;
use super::types::ActivateExportModel;
use super::types::AdvanceFence;
use super::types::AuthorityVersion;
use super::types::AuthorityVersionModel;
use super::types::ExportAuthorityError;
use super::types::ExportAuthorityRecord;
use super::types::ExportAuthorityRecordModel;
use super::types::ExportAuthorityTransition;
use super::types::ExportAuthorityTransitionModel;
use super::types::ExportIdentity;
use super::types::ExportIdentityModel;
use super::types::ExportSessionState;
use super::types::ExportSessionStateModel;
use super::types::MutationFenceToken;
use super::types::MutationFenceTokenModel;
use crate::text::decimal;
use crate::text::lemma_decimal_digits;
use crate::text::lemma_plain_bytes;
use crate::text::numbered;
use vstd::prelude::*;
use vstd::slice::slice_to_vec;
use vstd::utf8::encode_utf8;

verus! {

/// What a run went through.
pub struct AuthorityModelRun {
    /// The record after activation.
    pub active: ExportAuthorityRecord,
    /// What became of the live token.
    pub live: Result<(), ExportAuthorityError>,
    /// What became of a token of a later assignment.
    pub stale: Result<(), ExportAuthorityError>,
    /// The record after the fence.
    pub fenced: ExportAuthorityRecord,
}

/// The number that every version of a run starts from.
pub open spec fn model_base(seed: u64) -> u64 {
    (seed % 10_000 + 1) as u64
}

/// The activation of a run.
pub open spec fn model_activation(seed: u64) -> ActivateExportModel {
    let base = model_base(seed);
    ActivateExportModel {
        workspace_id: "workspace-"@ + decimal(seed as nat),
        export: ExportIdentityModel {
            nbd_directory_inode: (base + 1) as u64,
            name: encode_utf8("export-"@ + decimal(seed as nat)),
            inode: base,
            advertised_size: base,
        },
        authority: AuthorityVersionModel {
            actor: "tenants/t/actors/"@ + decimal(seed as nat),
            actor_generation: base,
            home_cell: "cells/dst"@,
            home_revision: base,
            authority_epoch: base,
            placement_epoch: base,
            assignment_revision: base,
        },
        session: ExportSessionStateModel {
            session_id: "session-"@ + decimal(seed as nat),
            capability_id: "capability-"@ + decimal(seed as nat),
            expires_at_unix_millis: u64::MAX,
            node_incarnation_id: "node-"@ + decimal(seed as nat),
            runtime_id: "runtime-"@ + decimal(seed as nat),
            server_boot_id: "caller-overwritten"@,
            committed_through_sequence: 0,
        },
    }
}

/// The token of `record`'s session.
pub open spec fn live_token(record: ExportAuthorityRecordModel) -> MutationFenceTokenModel {
    session_token(record, record.active_session->0)
}

/// The token of `record`'s session under a later assignment.
pub open spec fn later_token(record: ExportAuthorityRecordModel) -> MutationFenceTokenModel {
    MutationFenceTokenModel {
        authority: AuthorityVersionModel {
            assignment_revision: (record.authority.assignment_revision + 1) as u64,
            ..record.authority
        },
        ..live_token(record)
    }
}

pub(crate) proof fn lemma_model_is_valid(seed: u64)
    ensures
        valid_id(model_activation(seed).workspace_id),
        super::rules::valid_export(model_activation(seed).export),
        super::rules::valid_authority(model_activation(seed).authority),
        super::rules::valid_session(
            ExportSessionStateModel {
                server_boot_id: "dst-boot"@,
                ..model_activation(seed).session
            },
            model_base(seed),
        ),
{
    reveal_strlit("workspace-");
    reveal_strlit("export-");
    reveal_strlit("tenants/t/actors/");
    reveal_strlit("cells/dst");
    reveal_strlit("session-");
    reveal_strlit("capability-");
    reveal_strlit("node-");
    reveal_strlit("runtime-");
    reveal_strlit("dst-boot");
    lemma_numbered_id("workspace-"@, seed);
    lemma_numbered_id("export-"@, seed);
    lemma_numbered_id("tenants/t/actors/"@, seed);
    lemma_numbered_id("session-"@, seed);
    lemma_numbered_id("capability-"@, seed);
    lemma_numbered_id("node-"@, seed);
    lemma_numbered_id("runtime-"@, seed);
    lemma_plain_bytes("cells/dst"@);
    lemma_plain_bytes("dst-boot"@);
    vstd::utf8::encode_utf8_decode_utf8("export-"@ + decimal(seed as nat));
    lemma_decimal_digits(seed as nat);
    assert(encode_utf8("export-"@ + decimal(seed as nat)).len() > 0) by {
        if encode_utf8("export-"@ + decimal(seed as nat)).len() == 0 {
            assert(vstd::utf8::decode_utf8(encode_utf8("export-"@ + decimal(seed as nat))).len() == 0);
        }
    }
}

/// Activates an export, presents a live token and one of a later assignment, and
/// fences the export, all from one seed.
pub fn dst_export_authority_model(seed: u64) -> (run: AuthorityModelRun)
    ensures
        transition_result(
            None,
            ExportAuthorityTransitionModel::Activate(model_activation(seed)),
            model_base(seed),
            "dst-boot"@,
        ) == Ok::<ExportAuthorityRecordModel, ExportAuthorityError>(run.active@),
        run.live == Ok::<(), ExportAuthorityError>(()),
        run.live == mutation_result(
            Some(run.active@),
            live_token(run.active@),
            model_base(seed),
            "dst-boot"@,
        ),
        run.stale == Err::<(), ExportAuthorityError>(ExportAuthorityError::StaleMutation),
        run.stale == mutation_result(
            Some(run.active@),
            later_token(run.active@),
            model_base(seed),
            "dst-boot"@,
        ),
        run.fenced@ == (ExportAuthorityRecordModel {
            rejected_through_placement_epoch: model_base(seed),
            active_session: None,
            ..run.active@
        }),
{
    proof {
        lemma_model_is_valid(seed);
        law_activated_token_is_admitted(
            None,
            model_activation(seed),
            model_base(seed),
            "dst-boot"@,
        );
    }
    let base: u64 = seed % 10_000 + 1;
    let command = ActivateExport {
        workspace_id: numbered("workspace-", seed),
        export: ExportIdentity {
            nbd_directory_inode: base + 1,
            name: slice_to_vec(numbered("export-", seed).as_str().as_bytes()),
            inode: base,
            advertised_size: base,
        },
        authority: AuthorityVersion {
            actor: numbered("tenants/t/actors/", seed),
            actor_generation: base,
            home_cell: "cells/dst".to_owned(),
            home_revision: base,
            authority_epoch: base,
            placement_epoch: base,
            assignment_revision: base,
        },
        session: ExportSessionState {
            session_id: numbered("session-", seed),
            capability_id: numbered("capability-", seed),
            expires_at_unix_millis: u64::MAX,
            node_incarnation_id: numbered("node-", seed),
            runtime_id: numbered("runtime-", seed),
            server_boot_id: "caller-overwritten".to_owned(),
            committed_through_sequence: 0,
        },
    };
    assert(command@ == model_activation(seed));
    let active = match apply_transition(
        None,
        ExportAuthorityTransition::Activate(command),
        base,
        "dst-boot",
    ) {
        Ok(active) => active,
        Err(_) => vstd::pervasive::unreached(),
    };
    let mut token = match &active.active_session {
        Some(session) => MutationFenceToken {
            workspace_id: active.workspace_id.clone(),
            export: active.export.clone(),
            authority: active.authority.clone(),
            session_id: session.session_id.clone(),
            capability_id: session.capability_id.clone(),
            expires_at_unix_millis: session.expires_at_unix_millis,
            node_incarnation_id: session.node_incarnation_id.clone(),
            runtime_id: session.runtime_id.clone(),
            server_boot_id: session.server_boot_id.clone(),
        },
        None => vstd::pervasive::unreached(),
    };
    assert(token@ == live_token(active@));
    let live = validate_mutation(Some(&active), &token, base, "dst-boot");
    token.authority.assignment_revision = token.authority.assignment_revision + 1;
    assert(token@ == later_token(active@));
    let stale = validate_mutation(Some(&active), &token, base, "dst-boot");
    let fence = AdvanceFence {
        workspace_id: active.workspace_id.clone(),
        export: active.export.clone(),
        expected_authority: Some(active.authority.clone()),
        new_non_writable_authority: active.authority.clone(),
        reject_through_placement_epoch: base,
    };
    let fenced = match apply_transition(
        Some(active.clone()),
        ExportAuthorityTransition::AdvanceFence(fence),
        base,
        "dst-boot",
    ) {
        Ok(fenced) => fenced,
        Err(_) => vstd::pervasive::unreached(),
    };
    AuthorityModelRun { active, live, stale, fenced }
}

} // verus!
