use bytes::Bytes;
use sha2::Digest;
use sha2::Sha256;
use zerofs::fs::export_authority::admission::check_export_file;
use zerofs::fs::export_authority::admission::commit_step;
use zerofs::fs::export_authority::admission::confirm_flushed;
use zerofs::fs::export_authority::admission::confirm_outcome;
use zerofs::fs::export_authority::admission::durable_replay;
use zerofs::fs::export_authority::admission::durable_view;
use zerofs::fs::export_authority::admission::ensure_current_schema;
use zerofs::fs::export_authority::admission::lookup_mutation;
use zerofs::fs::export_authority::admission::plan_mutation;
use zerofs::fs::export_authority::admission::validate_admission;
use zerofs::fs::export_authority::admission::validate_extent_span;
use zerofs::fs::export_authority::admission::CommitStep;
use zerofs::fs::export_authority::admission::EnableStep;
use zerofs::fs::export_authority::admission::ExportFile;
use zerofs::fs::export_authority::admission::ExportProfile;
use zerofs::fs::export_authority::admission::MutationPlan;
use zerofs::fs::export_authority::model::dst_export_authority_model;
use zerofs::fs::export_authority::mutation::mutation_outcome_key;
use zerofs::fs::export_authority::mutation::outcome_key;
use zerofs::fs::export_authority::mutation::ExportMutation;
use zerofs::fs::export_authority::mutation::ExportMutationBuilder;
use zerofs::fs::export_authority::mutation::FenceMutationConflict;
use zerofs::fs::export_authority::records::accept_outcome;
use zerofs::fs::export_authority::records::accept_record;
use zerofs::fs::export_authority::records::accept_reverse_binding;
use zerofs::fs::export_authority::records::encode_outcome;
use zerofs::fs::export_authority::records::encode_record;
use zerofs::fs::export_authority::records::encode_reverse_binding;
use zerofs::fs::export_authority::records::open_outcome;
use zerofs::fs::export_authority::records::open_record;
use zerofs::fs::export_authority::records::open_reverse_binding;
use zerofs::fs::export_authority::records::reverse_binding_for;
use zerofs::fs::export_authority::records::reverse_binding_keys;
use zerofs::fs::export_authority::rules::apply_transition;
use zerofs::fs::export_authority::rules::trusted_now_unix_millis;
use zerofs::fs::export_authority::rules::validate_mutation;
use zerofs::fs::export_authority::run::MutationAction;
use zerofs::fs::export_authority::run::MutationEvent;
use zerofs::fs::export_authority::run::MutationRun;
use zerofs::fs::export_authority::shard::check_directory;
use zerofs::fs::export_authority::shard::check_lock;
use zerofs::fs::export_authority::shard::configure_guard;
use zerofs::fs::export_authority::shard::shard_lock_name;
use zerofs::fs::export_authority::shard::FileFacts;
use zerofs::fs::export_authority::shard::ProcessFacts;
use zerofs::fs::export_authority::shard::ShardLockIdentity;
use zerofs::fs::export_authority::types::ActivateExport;
use zerofs::fs::export_authority::types::AdvanceFence;
use zerofs::fs::export_authority::types::AuthorityVersion;
use zerofs::fs::export_authority::types::DeactivateExport;
use zerofs::fs::export_authority::types::ExportAuthorityError;
use zerofs::fs::export_authority::types::ExportAuthorityRecord;
use zerofs::fs::export_authority::types::ExportAuthorityTransition;
use zerofs::fs::export_authority::types::ExportIdentity;
use zerofs::fs::export_authority::types::ExportMutationCommand;
use zerofs::fs::export_authority::types::ExportMutationLookup;
use zerofs::fs::export_authority::types::ExportMutationOutcome;
use zerofs::fs::export_authority::types::ExportSessionState;
use zerofs::fs::export_authority::types::MutationFenceToken;
use zerofs::fs::export_authority::types::MutationIdentity;
use zerofs::fs::export_authority::types::MutationKind;
use zerofs::fs::export_authority::types::RefreshExport;
use zerofs::fs::key_codec::is_reserved_mutation_key;
use zerofs::fs::key_codec::KeyCodec;

const NOW: u64 = 1_000;
const BOOT: &str = "server-boot-a";
const EXTENT: u64 = 128 * 1024;

fn export(inode: u64) -> ExportIdentity {
    ExportIdentity {
        nbd_directory_inode: 1,
        name: b"disk-a".to_vec(),
        inode,
        advertised_size: 4096,
    }
}

fn authority(placement_epoch: u64, assignment_revision: u64) -> AuthorityVersion {
    AuthorityVersion {
        actor: "tenants/t/actors/a".into(),
        actor_generation: 7,
        home_cell: "cells/c".into(),
        home_revision: 11,
        authority_epoch: 13,
        placement_epoch,
        assignment_revision,
    }
}

fn session(id: &str, capability: &str, expires: u64) -> ExportSessionState {
    ExportSessionState {
        session_id: id.into(),
        capability_id: capability.into(),
        expires_at_unix_millis: expires,
        node_incarnation_id: "node-incarnation-a".into(),
        runtime_id: "runtime-a".into(),
        server_boot_id: "caller-value-is-replaced".into(),
        committed_through_sequence: 0,
    }
}

fn activate_command(version: AuthorityVersion) -> ActivateExport {
    ActivateExport {
        workspace_id: "workspace-a".into(),
        export: export(2),
        authority: version,
        session: session("session-a", "capability-a", u64::MAX - 1),
    }
}

fn activated(version: AuthorityVersion) -> ExportAuthorityRecord {
    apply_transition(
        None,
        ExportAuthorityTransition::Activate(activate_command(version)),
        NOW,
        BOOT,
    )
    .unwrap()
}

fn token(record: &ExportAuthorityRecord) -> MutationFenceToken {
    let session = record.active_session.as_ref().unwrap();
    MutationFenceToken {
        workspace_id: record.workspace_id.clone(),
        export: record.export.clone(),
        authority: record.authority.clone(),
        session_id: session.session_id.clone(),
        capability_id: session.capability_id.clone(),
        expires_at_unix_millis: session.expires_at_unix_millis,
        node_incarnation_id: session.node_incarnation_id.clone(),
        runtime_id: session.runtime_id.clone(),
        server_boot_id: session.server_boot_id.clone(),
    }
}

fn write(offset: u64, data: &'static [u8], fua: bool) -> ExportMutationCommand {
    ExportMutationCommand::Write {
        offset,
        data: Bytes::from_static(data),
        fua,
    }
}

fn committed(mutation: &ExportMutation, sequence: u64) -> ExportMutationOutcome {
    let expected = mutation.expectation();
    ExportMutationOutcome {
        workspace_id: expected.workspace_id,
        export: expected.export,
        authority: expected.authority,
        session_id: expected.session_id,
        server_boot_id: expected.server_boot_id,
        mutation: MutationIdentity {
            operation_id: expected.mutation.operation_id,
            sequence,
            command_digest: expected.mutation.command_digest,
            data_checksum: expected.mutation.data_checksum,
        },
        kind: expected.kind,
    }
}

#[test]
fn deterministic_state_model_rejects_regressions_and_future_mutations() {
    let active = apply_transition(
        None,
        ExportAuthorityTransition::Activate(activate_command(authority(3, 5))),
        NOW,
        BOOT,
    )
    .unwrap();

    let mut future = token(&active);
    future.authority.placement_epoch = 4;
    assert_eq!(
        validate_mutation(Some(&active), &future, NOW, BOOT),
        Err(ExportAuthorityError::StaleMutation)
    );

    let fenced = apply_transition(
        Some(active.clone()),
        ExportAuthorityTransition::AdvanceFence(AdvanceFence {
            workspace_id: active.workspace_id.clone(),
            export: active.export.clone(),
            expected_authority: Some(active.authority.clone()),
            new_non_writable_authority: authority(3, 5),
            reject_through_placement_epoch: 3,
        }),
        NOW,
        BOOT,
    )
    .unwrap();
    assert!(fenced.active_session.is_none());
    assert_eq!(
        validate_mutation(Some(&fenced), &token(&active), NOW, BOOT),
        Err(ExportAuthorityError::StaleMutation)
    );

    assert_eq!(
        apply_transition(
            Some(fenced.clone()),
            ExportAuthorityTransition::AdvanceFence(AdvanceFence {
                workspace_id: fenced.workspace_id.clone(),
                export: fenced.export.clone(),
                expected_authority: Some(fenced.authority.clone()),
                new_non_writable_authority: authority(2, 4),
                reject_through_placement_epoch: 3,
            }),
            NOW,
            BOOT,
        ),
        Err(ExportAuthorityError::Conflict)
    );

    assert_eq!(
        apply_transition(
            Some(fenced.clone()),
            ExportAuthorityTransition::AdvanceFence(AdvanceFence {
                workspace_id: fenced.workspace_id.clone(),
                export: fenced.export.clone(),
                expected_authority: Some(fenced.authority.clone()),
                new_non_writable_authority: authority(4, 5),
                reject_through_placement_epoch: 4,
            }),
            NOW,
            BOOT,
        ),
        Err(ExportAuthorityError::Conflict)
    );

    assert_eq!(
        apply_transition(
            Some(fenced.clone()),
            ExportAuthorityTransition::Activate(activate_command(authority(4, 5))),
            NOW,
            BOOT,
        ),
        Err(ExportAuthorityError::Conflict)
    );

    let next = apply_transition(
        Some(fenced),
        ExportAuthorityTransition::Activate(activate_command(authority(4, 6))),
        NOW,
        BOOT,
    )
    .unwrap();
    validate_mutation(Some(&next), &token(&next), NOW, BOOT).unwrap();
}

fn run_trace(actions: &[u8]) {
    let mut boot = BOOT.to_owned();
    let mut record = activated(authority(3, 5));
    let binding = record.export.clone();
    let mut next_assignment = 6u64;
    let mut next_placement = 4u64;

    for action in actions {
        let previous_reject = record.rejected_through_placement_epoch;
        match action {
            0 if record.active_session.as_ref().is_some_and(|session| {
                session.server_boot_id == boot && session.expires_at_unix_millis < u64::MAX
            }) =>
            {
                let session = record.active_session.as_ref().unwrap().clone();
                let replacement = AuthorityVersion {
                    assignment_revision: next_assignment,
                    ..record.authority.clone()
                };
                next_assignment += 1;
                record = apply_transition(
                    Some(record.clone()),
                    ExportAuthorityTransition::Refresh(RefreshExport {
                        workspace_id: record.workspace_id.clone(),
                        expected_export: binding.clone(),
                        expected_authority: record.authority.clone(),
                        session_id: session.session_id.clone(),
                        expected_capability_id: session.capability_id.clone(),
                        replacement_authority: replacement,
                        replacement_capability_id: format!("capability-{next_assignment}"),
                        replacement_expires_at_unix_millis: u64::MAX,
                    }),
                    NOW,
                    &boot,
                )
                .unwrap();
            }
            1 if record
                .active_session
                .as_ref()
                .is_some_and(|session| session.server_boot_id == boot) =>
            {
                let live = token(&record);
                assert_eq!(validate_mutation(Some(&record), &live, NOW, &boot), Ok(()));
                assert_eq!(validate_mutation(Some(&record), &live, NOW, &boot), Ok(()));
            }
            2 if record.active_session.is_some() => {
                let mut conflicting = token(&record);
                conflicting.capability_id.push_str("-conflict");
                assert_eq!(
                    validate_mutation(Some(&record), &conflicting, NOW, &boot),
                    Err(ExportAuthorityError::StaleMutation)
                );
            }
            3 if record.active_session.is_some() => {
                let live = token(&record);
                assert_eq!(
                    validate_mutation(Some(&record), &live, u64::MAX, &boot),
                    Err(ExportAuthorityError::StaleMutation)
                );
            }
            4 => {
                record = apply_transition(
                    Some(record.clone()),
                    ExportAuthorityTransition::AdvanceFence(AdvanceFence {
                        workspace_id: record.workspace_id.clone(),
                        export: binding.clone(),
                        expected_authority: Some(record.authority.clone()),
                        new_non_writable_authority: record.authority.clone(),
                        reject_through_placement_epoch: record.authority.placement_epoch,
                    }),
                    NOW,
                    &boot,
                )
                .unwrap();
            }
            5 => {
                boot = format!("boot-{next_assignment}-{next_placement}");
                if record.active_session.is_some() {
                    assert_eq!(
                        validate_mutation(Some(&record), &token(&record), NOW, &boot),
                        Err(ExportAuthorityError::StaleMutation)
                    );
                }
            }
            6 if record.active_session.is_none() => {
                let next = AuthorityVersion {
                    placement_epoch: next_placement
                        .max(record.rejected_through_placement_epoch.saturating_add(1)),
                    assignment_revision: next_assignment,
                    ..record.authority.clone()
                };
                next_placement = next.placement_epoch.saturating_add(1);
                next_assignment = next_assignment.saturating_add(1);
                record = apply_transition(
                    Some(record.clone()),
                    ExportAuthorityTransition::Activate(ActivateExport {
                        workspace_id: record.workspace_id.clone(),
                        export: binding.clone(),
                        authority: next,
                        session: session(
                            &format!("session-{next_assignment}"),
                            &format!("capability-{next_assignment}"),
                            u64::MAX - 1,
                        ),
                    }),
                    NOW,
                    &boot,
                )
                .unwrap();
            }
            7 if record.active_session.is_some() => {
                let session_id = record.active_session.as_ref().unwrap().session_id.clone();
                record = apply_transition(
                    Some(record.clone()),
                    ExportAuthorityTransition::Deactivate(DeactivateExport {
                        workspace_id: record.workspace_id.clone(),
                        expected_export: binding.clone(),
                        expected_authority: record.authority.clone(),
                        session_id,
                    }),
                    NOW,
                    &boot,
                )
                .unwrap();
            }
            8 => {
                let mut wrong = binding.clone();
                wrong.inode = wrong.inode.saturating_add(1);
                assert_eq!(
                    apply_transition(
                        Some(record.clone()),
                        ExportAuthorityTransition::AdvanceFence(AdvanceFence {
                            workspace_id: record.workspace_id.clone(),
                            export: wrong,
                            expected_authority: Some(record.authority.clone()),
                            new_non_writable_authority: record.authority.clone(),
                            reject_through_placement_epoch: record.authority.placement_epoch,
                        }),
                        NOW,
                        &boot,
                    ),
                    Err(ExportAuthorityError::Conflict)
                );
            }
            _ => {
                let encoded = encode_record(&record, b"payload").unwrap();
                assert_eq!(
                    open_record(&encoded, &record.workspace_id).unwrap(),
                    b"payload"
                );
                assert_eq!(
                    accept_record(record.clone(), &record.workspace_id).unwrap(),
                    record
                );
            }
        }
        assert_eq!(&record.export, &binding);
        assert!(record.rejected_through_placement_epoch >= previous_reject);
        if let Some(active) = record.active_session.as_ref() {
            assert!(record.authority.placement_epoch > record.rejected_through_placement_epoch);
            if active.server_boot_id == boot {
                assert_eq!(
                    validate_mutation(Some(&record), &token(&record), NOW, &boot),
                    Ok(())
                );
            }
        }
    }
}

#[test]
fn authority_action_traces_preserve_binding_and_reject_stale_tokens() {
    for seed in 0..200u64 {
        let mut state = seed.wrapping_mul(0x9E37_79B9_7F4A_7C15).wrapping_add(1);
        let mut actions = Vec::new();
        for _ in 0..(1 + seed % 127) {
            state ^= state << 13;
            state ^= state >> 7;
            state ^= state << 17;
            actions.push((state % 10) as u8);
        }
        run_trace(&actions);
    }
}

#[test]
fn expired_session_cannot_be_revived_by_refresh() {
    let expired = ExportAuthorityRecord {
        workspace_id: "workspace-a".into(),
        export: export(77),
        authority: authority(3, 5),
        rejected_through_placement_epoch: 0,
        binding_initialized: true,
        active_session: Some(session("session-a", "capability-a", NOW)),
    };
    assert_eq!(
        apply_transition(
            Some(expired),
            ExportAuthorityTransition::Refresh(RefreshExport {
                workspace_id: "workspace-a".into(),
                expected_export: export(77),
                expected_authority: authority(3, 5),
                session_id: "session-a".into(),
                expected_capability_id: "capability-a".into(),
                replacement_authority: authority(3, 6),
                replacement_capability_id: "capability-b".into(),
                replacement_expires_at_unix_millis: NOW + 100,
            }),
            NOW,
            BOOT,
        ),
        Err(ExportAuthorityError::Conflict)
    );

    let active = apply_transition(
        None,
        ExportAuthorityTransition::Activate(activate_command(authority(3, 5))),
        NOW,
        BOOT,
    )
    .unwrap();
    for replacement in [authority(3, 5), authority(4, 6)] {
        assert_eq!(
            apply_transition(
                Some(active.clone()),
                ExportAuthorityTransition::Refresh(RefreshExport {
                    workspace_id: "workspace-a".into(),
                    expected_export: export(77),
                    expected_authority: authority(3, 5),
                    session_id: "session-a".into(),
                    expected_capability_id: "capability-a".into(),
                    replacement_authority: replacement,
                    replacement_capability_id: "capability-b".into(),
                    replacement_expires_at_unix_millis: u64::MAX,
                }),
                NOW,
                BOOT,
            ),
            Err(ExportAuthorityError::Conflict)
        );
    }
    assert_eq!(
        apply_transition(
            Some(active.clone()),
            ExportAuthorityTransition::Refresh(RefreshExport {
                workspace_id: "workspace-a".into(),
                expected_export: export(77),
                expected_authority: authority(3, 5),
                session_id: "session-a".into(),
                expected_capability_id: "capability-a".into(),
                replacement_authority: authority(3, 6),
                replacement_capability_id: "capability-a".into(),
                replacement_expires_at_unix_millis: u64::MAX,
            }),
            NOW,
            BOOT,
        ),
        Err(ExportAuthorityError::Conflict)
    );
}

#[test]
fn every_authority_transition_preserves_the_immutable_export_binding() {
    let active = apply_transition(
        None,
        ExportAuthorityTransition::Activate(activate_command(authority(3, 5))),
        NOW,
        BOOT,
    )
    .unwrap();
    let other = export(88);
    assert_eq!(
        apply_transition(
            Some(active.clone()),
            ExportAuthorityTransition::Refresh(RefreshExport {
                workspace_id: active.workspace_id.clone(),
                expected_export: other.clone(),
                expected_authority: active.authority.clone(),
                session_id: "session-a".into(),
                expected_capability_id: "capability-a".into(),
                replacement_authority: authority(3, 6),
                replacement_capability_id: "capability-b".into(),
                replacement_expires_at_unix_millis: u64::MAX,
            }),
            NOW,
            BOOT,
        ),
        Err(ExportAuthorityError::Conflict)
    );
    assert_eq!(
        apply_transition(
            Some(active.clone()),
            ExportAuthorityTransition::Deactivate(DeactivateExport {
                workspace_id: active.workspace_id.clone(),
                expected_export: other.clone(),
                expected_authority: active.authority.clone(),
                session_id: "session-a".into(),
            }),
            NOW,
            BOOT,
        ),
        Err(ExportAuthorityError::Conflict)
    );
    assert_eq!(
        apply_transition(
            Some(active.clone()),
            ExportAuthorityTransition::AdvanceFence(AdvanceFence {
                workspace_id: active.workspace_id.clone(),
                export: other,
                expected_authority: Some(active.authority.clone()),
                new_non_writable_authority: active.authority.clone(),
                reject_through_placement_epoch: active.authority.placement_epoch,
            }),
            NOW,
            BOOT,
        ),
        Err(ExportAuthorityError::Conflict)
    );
    assert_eq!(active.export, export(2));
}

#[test]
fn activate_always_resets_caller_sequence_to_zero() {
    let mut command = activate_command(authority(3, 5));
    command.session.committed_through_sequence = u64::MAX;
    let active = apply_transition(
        None,
        ExportAuthorityTransition::Activate(command),
        NOW,
        BOOT,
    )
    .unwrap();
    assert_eq!(
        active
            .active_session
            .as_ref()
            .unwrap()
            .committed_through_sequence,
        0
    );
    assert_eq!(active.active_session.unwrap().server_boot_id, BOOT);
}

#[test]
fn configured_shard_guard_rejects_root_or_a_mismatched_worker_identity() {
    let impossible = ShardLockIdentity {
        directory_device: 0,
        directory_inode: 0,
        lock_device: 0,
        lock_inode: 0,
    };
    let process = ProcessFacts {
        effective_uid: 1000,
        effective_gid: 100,
        groups: Some(vec![4, 27]),
    };
    let root = ProcessFacts {
        effective_uid: 0,
        effective_gid: 0,
        groups: Some(vec![]),
    };
    assert_eq!(
        configure_guard(true, &root, 0, 0, impossible),
        Err(ExportAuthorityError::Invalid)
    );
    assert_eq!(
        configure_guard(true, &process, 1001, 100, impossible),
        Err(ExportAuthorityError::Invalid)
    );
    assert_eq!(
        configure_guard(true, &process, 1000, 5, impossible),
        Err(ExportAuthorityError::Invalid)
    );
    assert_eq!(
        configure_guard(false, &process, 1000, 100, impossible),
        Err(ExportAuthorityError::Invalid)
    );
    // The groups are looked at only where they decide.
    let unknown_groups = ProcessFacts {
        groups: None,
        ..process
    };
    assert_eq!(
        configure_guard(true, &unknown_groups, 1001, 5, impossible),
        Err(ExportAuthorityError::Invalid)
    );
    assert_eq!(
        configure_guard(true, &unknown_groups, 1000, 5, impossible),
        Err(ExportAuthorityError::Storage)
    );
    assert!(configure_guard(true, &unknown_groups, 1000, 100, impossible).is_ok());
    let process = ProcessFacts {
        groups: Some(vec![4, 27]),
        ..unknown_groups
    };
    let expected = configure_guard(true, &process, 1000, 27, impossible).unwrap();
    assert_eq!(expected.directory_mode, 0o750);
    assert_eq!(expected.lock_mode, 0o600);
    assert_eq!(expected.directory_uid, 0);
    assert_eq!(expected.lock_uid, 1000);
}

#[test]
fn shard_guard_checks_the_exact_directory_and_lock() {
    let process = ProcessFacts {
        effective_uid: 1000,
        effective_gid: 100,
        groups: Some(vec![]),
    };
    let identity = ShardLockIdentity {
        directory_device: 1,
        directory_inode: 2,
        lock_device: 1,
        lock_inode: 3,
    };
    let expected = configure_guard(true, &process, 1000, 100, identity).unwrap();
    let directory = FileFacts {
        is_dir: true,
        is_file: false,
        uid: 0,
        gid: 100,
        mode: 0o040750,
        links: 2,
        device: 1,
        inode: 2,
    };
    let lock = FileFacts {
        is_dir: false,
        is_file: true,
        uid: 1000,
        gid: 100,
        mode: 0o100600,
        links: 1,
        device: 1,
        inode: 3,
    };
    assert_eq!(check_directory("shard-a", &directory, &expected), Ok(()));
    assert_eq!(check_lock(&lock, &expected), Ok(()));
    assert_eq!(
        check_directory("", &directory, &expected),
        Err(ExportAuthorityError::Invalid)
    );
    for replaced in [
        FileFacts { inode: 4, ..lock },
        FileFacts { links: 2, ..lock },
        FileFacts {
            mode: 0o100640,
            ..lock
        },
        FileFacts { uid: 0, ..lock },
    ] {
        assert_eq!(
            check_lock(&replaced, &expected),
            Err(ExportAuthorityError::Invalid)
        );
    }
    let digest = Sha256::digest("shard-a");
    let hex: String = digest.iter().map(|byte| format!("{byte:02x}")).collect();
    assert_eq!(
        shard_lock_name("shard-a"),
        format!("rhizome-shard-{hex}.lock")
    );
}

#[test]
fn ordinary_zerofs_requires_explicit_export_profile_enablement() {
    let mut profile = ExportProfile::new();
    assert_eq!(
        profile.admit_request(false),
        Err(ExportAuthorityError::ProfileDisabled)
    );
    assert_eq!(
        profile.begin_enable(false),
        Err(ExportAuthorityError::ProfileDisabled)
    );
    profile.install_process_guard().unwrap();
    assert_eq!(profile.begin_enable(false), Ok(EnableStep::InitializeBoot));
    profile.finish_enable();
    assert_eq!(profile.admit_request(false), Ok(()));
}

#[test]
fn enabled_profile_cannot_replace_its_guard_or_reinitialize_boot() {
    let mut profile = ExportProfile::new();
    profile.install_process_guard().unwrap();
    profile.finish_enable();
    assert_eq!(
        profile.install_process_guard(),
        Err(ExportAuthorityError::Conflict)
    );
    assert_eq!(profile.begin_enable(false), Ok(EnableStep::Done));
}

#[test]
fn legacy_v1_forward_or_outcome_blocks_profile_enablement() {
    for subtype in [1u8, 2u8] {
        let mut key = b"meta".to_vec();
        key.extend_from_slice(&[0x0b, 1, subtype]);
        key.extend_from_slice(b"legacy");
        let legacy_found = key.starts_with(&KeyCodec::new().legacy_export_v1_prefix());
        assert!(legacy_found);
        let mut profile = ExportProfile::new();
        profile.install_process_guard().unwrap();
        assert_eq!(
            profile.begin_enable(legacy_found),
            Err(ExportAuthorityError::MigrationRequired)
        );
        // The record, and a mutation's current and durable outcome.
        assert_eq!(
            ensure_current_schema(legacy_found),
            Err(ExportAuthorityError::MigrationRequired)
        );
        // Transitions and mutations, whether or not the profile is enabled.
        assert_eq!(
            profile.admit_request(legacy_found),
            Err(ExportAuthorityError::MigrationRequired)
        );
        profile.finish_enable();
        assert_eq!(
            profile.admit_request(legacy_found),
            Err(ExportAuthorityError::MigrationRequired)
        );
        assert_eq!(ensure_current_schema(false), Ok(()));
    }
}

#[test]
fn all_core_mutation_kinds_are_fenced_and_close_stale_session() {
    let active = activated(authority(3, 5));
    let commands = || {
        [
            write(0, b"accepted", false),
            write(0, b"accepted", true),
            ExportMutationCommand::Flush,
            ExportMutationCommand::Trim {
                offset: 0,
                length: 8,
                fua: false,
            },
            ExportMutationCommand::Trim {
                offset: 0,
                length: 8,
                fua: true,
            },
            ExportMutationCommand::WriteZeroes {
                offset: 0,
                length: 8,
                fua: false,
            },
            ExportMutationCommand::WriteZeroes {
                offset: 0,
                length: 8,
                fua: true,
            },
        ]
    };
    let kinds = [
        MutationKind::Write { fua: false },
        MutationKind::Write { fua: true },
        MutationKind::Flush,
        MutationKind::Trim { fua: false },
        MutationKind::Trim { fua: true },
        MutationKind::WriteZeroes { fua: false },
        MutationKind::WriteZeroes { fua: true },
    ];
    let build = |command: ExportMutationCommand, operation: u8| {
        ExportMutationBuilder::build(token(&active), [operation; 32], command).unwrap()
    };

    for (index, command) in commands().into_iter().enumerate() {
        let mutation = build(command, index as u8 + 1);
        assert_eq!(mutation.kind, kinds[index]);
        let outcome = committed(&mutation, index as u64 + 1);
        let mut run = MutationRun::start(mutation, BOOT.to_string(), EXTENT)
            .advance(MutationEvent::Outcome(Ok(None)))
            .advance(admission(BOOT))
            .advance(own_file())
            .advance(admission(BOOT))
            .advance(MutationEvent::Opened(Ok(())));
        match run.action() {
            MutationAction::Commit(_, plan) => match kinds[index] {
                MutationKind::Write { .. } => assert_eq!(plan, MutationPlan::Write { offset: 0 }),
                MutationKind::Flush => assert_eq!(plan, MutationPlan::Nothing),
                _ => assert_eq!(
                    plan,
                    MutationPlan::Zero {
                        offset: 0,
                        length: 8
                    }
                ),
            },
            _ => panic!("an admitted mutation is committed"),
        }
        run = run
            .advance(MutationEvent::Committed(Ok(())))
            .advance(MutationEvent::Outcome(Ok(Some(outcome.clone()))));
        if kinds[index].requires_durability() {
            run = run.advance(MutationEvent::Outcome(Ok(Some(outcome.clone()))));
        }
        assert_eq!(run.into_result(), Some(Ok(outcome)));
    }

    let fenced = apply_transition(
        Some(active.clone()),
        ExportAuthorityTransition::AdvanceFence(AdvanceFence {
            workspace_id: active.workspace_id.clone(),
            export: active.export.clone(),
            expected_authority: Some(active.authority.clone()),
            new_non_writable_authority: active.authority.clone(),
            reject_through_placement_epoch: active.authority.placement_epoch,
        }),
        NOW,
        BOOT,
    )
    .unwrap();
    let read_fenced = || MutationEvent::Admission {
        boot: Ok(Some(BOOT.as_bytes().to_vec())),
        record: Ok(Some(fenced.clone())),
        now: NOW,
    };
    let new = |command: ExportMutationCommand, operation: u8| {
        MutationRun::start(build(command, operation), BOOT.to_string(), EXTENT)
            .advance(MutationEvent::Outcome(Ok(None)))
    };
    for (index, command) in commands().into_iter().enumerate() {
        // Whether the fence comes before the first admission or before the second.
        let early = new(command.clone(), index as u8 + 20).advance(read_fenced());
        let late = new(command, index as u8 + 20)
            .advance(admission(BOOT))
            .advance(own_file())
            .advance(read_fenced());
        for run in [early, late] {
            assert!(matches!(run.action(), MutationAction::Finish));
            let error = run.into_result().unwrap().unwrap_err();
            assert_eq!(error, ExportAuthorityError::StaleMutation);
            assert!(error.close_session());
        }
    }
    let empty_flush = new(ExportMutationCommand::Flush, 40)
        .advance(read_fenced())
        .into_result()
        .unwrap()
        .unwrap_err();
    assert_eq!(empty_flush, ExportAuthorityError::StaleMutation);
    assert!(empty_flush.close_session());
    assert!(ExportAuthorityError::Conflict.close_session());
    assert!(ExportAuthorityError::CommitOutcomeUnknown.close_session());
    assert!(!ExportAuthorityError::Invalid.close_session());
    assert!(!ExportAuthorityError::Storage.close_session());
}

#[test]
fn a_transaction_is_opened_before_the_plan_is_checked() {
    let active = activated(authority(3, 5));
    let past_end = || {
        let mutation =
            ExportMutationBuilder::build(token(&active), [0x44; 32], write(4096, b"x", false))
                .unwrap();
        MutationRun::start(mutation, BOOT.to_string(), EXTENT)
            .advance(MutationEvent::Outcome(Ok(None)))
            .advance(admission(BOOT))
            .advance(own_file())
            .advance(admission(BOOT))
    };
    let run = past_end().advance(MutationEvent::Opened(Err(ExportAuthorityError::Storage)));
    assert_eq!(run.into_result(), Some(Err(ExportAuthorityError::Storage)));
    let run = past_end().advance(MutationEvent::Opened(Ok(())));
    assert_eq!(run.into_result(), Some(Err(ExportAuthorityError::Invalid)));
}

#[test]
fn refresh_deactivate_and_expiry_preserve_complete_binding() {
    let active = activated(authority(3, 5));
    let binding = reverse_binding_for(&active);
    let refreshed = apply_transition(
        Some(active.clone()),
        ExportAuthorityTransition::Refresh(RefreshExport {
            workspace_id: active.workspace_id.clone(),
            expected_export: active.export.clone(),
            expected_authority: active.authority.clone(),
            session_id: "session-a".into(),
            expected_capability_id: "capability-a".into(),
            replacement_authority: authority(3, 6),
            replacement_capability_id: "capability-b".into(),
            replacement_expires_at_unix_millis: u64::MAX,
        }),
        NOW,
        BOOT,
    )
    .unwrap();
    assert_eq!(refreshed.export, active.export);
    assert_eq!(
        validate_mutation(Some(&refreshed), &token(&active), NOW, BOOT),
        Err(ExportAuthorityError::StaleMutation)
    );
    assert_eq!(
        validate_mutation(Some(&refreshed), &token(&refreshed), NOW, BOOT),
        Ok(())
    );
    assert_eq!(
        validate_mutation(Some(&refreshed), &token(&refreshed), u64::MAX, BOOT),
        Err(ExportAuthorityError::StaleMutation)
    );
    assert_eq!(reverse_binding_for(&refreshed), binding);
    let closed = apply_transition(
        Some(refreshed.clone()),
        ExportAuthorityTransition::Deactivate(DeactivateExport {
            workspace_id: refreshed.workspace_id.clone(),
            expected_export: refreshed.export.clone(),
            expected_authority: refreshed.authority.clone(),
            session_id: "session-a".into(),
        }),
        NOW,
        BOOT,
    )
    .unwrap();
    assert!(closed.active_session.is_none());
    assert_eq!(closed.export, active.export);
    assert_eq!(closed.rejected_through_placement_epoch, 3);
    assert_eq!(
        closed.rejected_through_placement_epoch,
        refreshed.authority.placement_epoch
    );
    assert_eq!(reverse_binding_for(&closed), binding);
    let fenced = apply_transition(
        Some(closed.clone()),
        ExportAuthorityTransition::AdvanceFence(AdvanceFence {
            workspace_id: closed.workspace_id.clone(),
            export: closed.export.clone(),
            expected_authority: Some(closed.authority.clone()),
            new_non_writable_authority: closed.authority.clone(),
            reject_through_placement_epoch: closed.rejected_through_placement_epoch,
        }),
        NOW,
        BOOT,
    )
    .unwrap();
    assert!(fenced.active_session.is_none());
    assert_eq!(reverse_binding_for(&fenced), binding);
}

#[test]
fn only_fua_and_flush_require_the_durability_barrier() {
    assert!(MutationKind::Write { fua: true }.requires_durability());
    assert!(!MutationKind::Write { fua: false }.requires_durability());
    assert!(MutationKind::Flush.requires_durability());
    assert!(MutationKind::Trim { fua: true }.requires_durability());
    assert!(!MutationKind::Trim { fua: false }.requires_durability());
    assert!(MutationKind::WriteZeroes { fua: true }.requires_durability());
    assert!(!MutationKind::WriteZeroes { fua: false }.requires_durability());
}

#[test]
fn corrupt_durable_record_fails_closed() {
    let active = activated(authority(3, 5));
    let encoded = encode_record(&active, b"payload").unwrap();
    for index in 0..encoded.len() {
        let mut broken = encoded.to_vec();
        broken[index] ^= 1;
        assert_eq!(
            open_record(&broken, "workspace-a"),
            Err(ExportAuthorityError::Corrupt)
        );
    }
    assert_eq!(
        open_record(b"short", "workspace-a"),
        Err(ExportAuthorityError::Corrupt)
    );
}

#[test]
fn authority_record_copied_under_another_workspace_key_is_corrupt() {
    let active = activated(authority(3, 5));
    let encoded = encode_record(&active, b"payload").unwrap();
    assert_eq!(
        open_record(&encoded, "workspace-b"),
        Err(ExportAuthorityError::Corrupt)
    );
    assert_eq!(
        accept_record(active, "workspace-b"),
        Err(ExportAuthorityError::Corrupt)
    );
}

#[test]
fn invalid_records_are_not_encoded() {
    let mut active = activated(authority(3, 5));
    active.workspace_id = String::new();
    assert_eq!(
        encode_record(&active, b"payload"),
        Err(ExportAuthorityError::Invalid)
    );
    let active = activated(authority(3, 5));
    let long = vec![0u8; 65_537];
    assert_eq!(
        encode_record(&active, &long),
        Err(ExportAuthorityError::Corrupt)
    );
}

#[test]
fn reverse_bindings_survive_restart_and_fail_closed_on_cross_key_copy() {
    let active = activated(authority(3, 5));
    let binding = reverse_binding_for(&active);
    let (name_key, inode_key) = reverse_binding_keys(&binding);
    let by_name = encode_reverse_binding(&binding, &name_key, b"binding").unwrap();
    let by_inode = encode_reverse_binding(&binding, &inode_key, b"binding").unwrap();
    assert_eq!(open_reverse_binding(&by_name, &name_key).unwrap(), b"binding");
    assert_eq!(
        open_reverse_binding(&by_inode, &inode_key).unwrap(),
        b"binding"
    );
    assert_eq!(
        open_reverse_binding(&by_name, &inode_key),
        Err(ExportAuthorityError::Corrupt)
    );
    let other_key = KeyCodec::new().export_reverse_inode_key(99);
    assert_eq!(
        encode_reverse_binding(&binding, &other_key, b"binding"),
        Err(ExportAuthorityError::Corrupt)
    );
    assert_eq!(
        accept_reverse_binding(binding.clone(), &other_key),
        Err(ExportAuthorityError::Corrupt)
    );
    assert_eq!(
        accept_reverse_binding(binding.clone(), &name_key).unwrap(),
        binding
    );
}

#[test]
fn durable_get_rejects_missing_or_mismatched_reverse_rows() {
    let active = activated(authority(3, 5));
    let binding = reverse_binding_for(&active);
    let boot = Some(BOOT.as_bytes());
    assert_eq!(
        durable_view(
            Some(active.clone()),
            Some(binding.clone()),
            Some(binding.clone()),
            boot,
            BOOT
        )
        .unwrap(),
        Some(active.clone())
    );
    assert_eq!(
        durable_view(Some(active.clone()), None, Some(binding.clone()), boot, BOOT),
        Err(ExportAuthorityError::Corrupt)
    );
    let mut wrong = binding.clone();
    wrong.actor_generation += 1;
    assert_eq!(
        durable_view(Some(active), Some(binding), Some(wrong), boot, BOOT),
        Err(ExportAuthorityError::Corrupt)
    );
    assert_eq!(durable_view(None, None, None, boot, BOOT), Ok(None));
}

#[test]
fn reopen_durably_invalidates_the_previous_process_session() {
    let active = activated(authority(3, 5));
    let binding = reverse_binding_for(&active);
    let seen = durable_view(
        Some(active.clone()),
        Some(binding.clone()),
        Some(binding.clone()),
        Some(b"server-boot-b"),
        "server-boot-b",
    )
    .unwrap()
    .unwrap();
    assert!(seen.active_session.is_none());
    assert_eq!(seen.rejected_through_placement_epoch, 3);
    let seen = durable_view(Some(active.clone()), Some(binding.clone()), Some(binding), None, BOOT)
        .unwrap()
        .unwrap();
    assert!(seen.active_session.is_none());
    assert_eq!(
        validate_admission(
            Some(b"server-boot-b"),
            Some(&active),
            &token(&active),
            NOW,
            BOOT
        ),
        Err(ExportAuthorityError::StaleMutation)
    );
    assert_eq!(
        validate_admission(Some(BOOT.as_bytes()), Some(&active), &token(&active), NOW, BOOT),
        Ok(())
    );
}

#[test]
fn mutation_outcomes_dedupe_sequence_and_fence_digest_conflicts() {
    let active = activated(authority(3, 5));
    let mutation =
        ExportMutationBuilder::build(token(&active), [0x31; 32], write(0, b"first", false))
            .unwrap();
    let outcome = committed(&mutation, 1);
    assert!(matches!(
        commit_step(None, mutation.expectation()),
        Ok(CommitStep::Prepare)
    ));
    match commit_step(Some(outcome.clone()), mutation.expectation()) {
        Ok(CommitStep::Replay(replayed)) => assert_eq!(replayed, outcome),
        _ => panic!("the same mutation is a replay"),
    }
    let conflicting =
        ExportMutationBuilder::build(token(&active), [0x31; 32], write(0, b"other", false))
            .unwrap();
    match commit_step(Some(outcome.clone()), conflicting.expectation()) {
        Ok(CommitStep::Fence(conflict)) => {
            assert_eq!(conflict.attempted(), &conflicting.expectation());
            assert_eq!(conflict.verify_current(Some(&outcome)), Ok(()));
            let mut changed = outcome.clone();
            changed.mutation.sequence = 2;
            assert_eq!(
                conflict.verify_current(Some(&changed)),
                Err(ExportAuthorityError::Corrupt)
            );
            assert_eq!(
                conflict.verify_current(None),
                Err(ExportAuthorityError::Corrupt)
            );
        }
        _ => panic!("another command under the same operation is a conflict"),
    }
    assert!(matches!(
        FenceMutationConflict::new(outcome, mutation.expectation()),
        Err(ExportAuthorityError::Corrupt)
    ));
}

#[test]
fn durable_mutations_are_read_back_before_they_are_acknowledged() {
    let active = activated(authority(3, 5));
    let mutation =
        ExportMutationBuilder::build(token(&active), [0x32; 32], write(0, b"first", true)).unwrap();
    let expected = mutation.expectation();
    let outcome = committed(&mutation, 1);
    assert!(matches!(
        commit_step(Some(outcome.clone()), mutation.expectation()),
        Ok(CommitStep::MakeDurable(_))
    ));
    assert_eq!(durable_replay(None, &expected), Ok(None));
    assert_eq!(
        durable_replay(Some(outcome.clone()), &expected),
        Ok(Some(outcome.clone()))
    );
    assert_eq!(
        confirm_outcome(None, &expected),
        Err(ExportAuthorityError::Corrupt)
    );
    assert_eq!(
        confirm_outcome(Some(outcome.clone()), &expected),
        Ok(outcome.clone())
    );
    let mut renumbered = outcome.clone();
    renumbered.mutation.sequence = 2;
    assert_eq!(
        confirm_flushed(Some(renumbered), &expected, &outcome),
        Err(ExportAuthorityError::Corrupt)
    );
    assert_eq!(
        confirm_flushed(Some(outcome.clone()), &expected, &outcome),
        Ok(outcome)
    );
}

#[test]
fn mutation_outcome_copied_under_another_operation_key_is_corrupt() {
    let active = activated(authority(3, 5));
    let first =
        ExportMutationBuilder::build(token(&active), [0x41; 32], write(0, b"x", false)).unwrap();
    let second =
        ExportMutationBuilder::build(token(&active), [0x42; 32], write(0, b"x", false)).unwrap();
    let outcome = committed(&first, 1);
    assert_eq!(
        outcome_key(&outcome),
        mutation_outcome_key(&first.expectation())
    );
    let encoded = encode_outcome(&outcome, b"outcome").unwrap();
    assert_eq!(
        open_outcome(&encoded, &first.expectation()).unwrap(),
        b"outcome"
    );
    assert_eq!(
        open_outcome(&encoded, &second.expectation()),
        Err(ExportAuthorityError::Corrupt)
    );
    assert_eq!(
        accept_outcome(outcome.clone(), &first.expectation()).unwrap(),
        outcome
    );
    assert_eq!(
        accept_outcome(outcome, &second.expectation()),
        Err(ExportAuthorityError::Corrupt)
    );
}

#[test]
fn lookups_find_exactly_the_expected_outcome() {
    let active = activated(authority(3, 5));
    let mutation =
        ExportMutationBuilder::build(token(&active), [0x51; 32], write(8, b"data", false)).unwrap();
    let expected = mutation.expectation();
    let outcome = committed(&mutation, 4);
    assert!(matches!(
        lookup_mutation(None, &expected),
        Ok(ExportMutationLookup::Unknown)
    ));
    match lookup_mutation(Some(outcome.clone()), &expected) {
        Ok(ExportMutationLookup::Committed(found)) => assert_eq!(*found, outcome),
        _ => panic!("the outcome was committed"),
    }
    let mut other = outcome;
    other.kind = MutationKind::Flush;
    assert!(matches!(
        lookup_mutation(Some(other), &expected),
        Err(ExportAuthorityError::Conflict)
    ));
    let mut invalid = mutation.expectation();
    invalid.session_id = String::new();
    assert!(matches!(
        lookup_mutation(None, &invalid),
        Err(ExportAuthorityError::Invalid)
    ));
}

#[test]
fn typed_builder_binds_every_part_of_a_command() {
    let active = activated(authority(3, 5));
    let base = ExportMutationBuilder::build(token(&active), [1; 32], write(0, b"a", false)).unwrap();
    for other in [
        ExportMutationBuilder::build(token(&active), [2; 32], write(0, b"a", false)).unwrap(),
        ExportMutationBuilder::build(token(&active), [1; 32], write(1, b"a", false)).unwrap(),
        ExportMutationBuilder::build(token(&active), [1; 32], write(0, b"b", false)).unwrap(),
        ExportMutationBuilder::build(token(&active), [1; 32], write(0, b"a", true)).unwrap(),
        ExportMutationBuilder::build(token(&active), [1; 32], ExportMutationCommand::Flush)
            .unwrap(),
    ] {
        assert_ne!(
            base.expectation().mutation.command_digest,
            other.expectation().mutation.command_digest
        );
    }
    let mut preimage = b"rhizome.export-mutation-data.v1\0".to_vec();
    preimage.extend_from_slice(&1u64.to_be_bytes());
    preimage.extend_from_slice(b"a");
    assert_eq!(
        base.expectation().mutation.data_checksum.0[..],
        Sha256::digest(&preimage)[..]
    );
    assert!(matches!(
        ExportMutationBuilder::build(token(&active), [0; 32], ExportMutationCommand::Flush),
        Err(ExportAuthorityError::Invalid)
    ));
    let mut incomplete = token(&active);
    incomplete.runtime_id = String::new();
    assert!(matches!(
        ExportMutationBuilder::build(incomplete, [1; 32], ExportMutationCommand::Flush),
        Err(ExportAuthorityError::Invalid)
    ));
}

#[test]
fn block_commands_reject_unrepresentable_final_extent_without_panicking() {
    for offset in [u64::MAX - 1, u64::MAX] {
        for command in [
            write(offset, b"x", false),
            ExportMutationCommand::Trim {
                offset,
                length: 1,
                fua: false,
            },
            ExportMutationCommand::WriteZeroes {
                offset,
                length: 1,
                fua: false,
            },
        ] {
            assert_eq!(
                plan_mutation(&command, u64::MAX, EXTENT),
                Err(ExportAuthorityError::Invalid)
            );
        }
    }
    assert_eq!(validate_extent_span(u64::MAX, 0, EXTENT), Ok(u64::MAX));
    assert_eq!(validate_extent_span(10, 5, EXTENT), Ok(15));
}

#[test]
fn commands_stay_within_the_export() {
    assert_eq!(
        plan_mutation(&write(4092, b"last", false), 4096, EXTENT),
        Ok(MutationPlan::Write { offset: 4092 })
    );
    assert_eq!(
        plan_mutation(&write(4093, b"past", false), 4096, EXTENT),
        Err(ExportAuthorityError::Invalid)
    );
    assert_eq!(
        plan_mutation(
            &ExportMutationCommand::Trim {
                offset: 512,
                length: 1024,
                fua: false
            },
            4096,
            EXTENT
        ),
        Ok(MutationPlan::Zero {
            offset: 512,
            length: 1024
        })
    );
    assert_eq!(
        plan_mutation(&ExportMutationCommand::Flush, 4096, EXTENT),
        Ok(MutationPlan::Nothing)
    );
}

#[test]
fn an_export_is_served_from_its_own_file_alone() {
    let active = activated(authority(3, 5));
    let token = token(&active);
    let file = || ExportFile {
        parent: Some(1),
        name: Some(b"disk-a".to_vec()),
        links: 1,
        size: 4096,
    };
    assert_eq!(check_export_file(Some(&file()), &token), Ok(()));
    assert_eq!(
        check_export_file(None, &token),
        Err(ExportAuthorityError::Invalid)
    );
    let mut hardlinked = file();
    hardlinked.links = 2;
    let mut renamed = file();
    renamed.name = Some(b"disk-b".to_vec());
    let mut moved = file();
    moved.parent = Some(9);
    let mut resized = file();
    resized.size = 8192;
    for wrong in [hardlinked, renamed, moved, resized] {
        assert_eq!(
            check_export_file(Some(&wrong), &token),
            Err(ExportAuthorityError::Invalid)
        );
    }
}

fn mutation(fua: bool) -> ExportMutation {
    let active = activated(authority(3, 5));
    ExportMutationBuilder::build(token(&active), [0x33; 32], write(8, b"data", fua)).unwrap()
}

fn started(fua: bool) -> MutationRun {
    MutationRun::start(mutation(fua), BOOT.to_string(), EXTENT)
}

fn admission(boot: &str) -> MutationEvent {
    MutationEvent::Admission {
        boot: Ok(Some(boot.as_bytes().to_vec())),
        record: Ok(Some(activated(authority(3, 5)))),
        now: NOW,
    }
}

fn own_file() -> MutationEvent {
    MutationEvent::File(Some(ExportFile {
        parent: Some(1),
        name: Some(b"disk-a".to_vec()),
        links: 1,
        size: 4096,
    }))
}

/// A new mutation that was admitted, checked and admitted again.
fn planned(fua: bool) -> MutationRun {
    let run = started(fua);
    assert!(matches!(run.action(), MutationAction::ReadOutcome));
    let run = run.advance(MutationEvent::Outcome(Ok(None)));
    assert!(matches!(run.action(), MutationAction::ReadAdmission));
    let run = run.advance(admission(BOOT));
    assert!(matches!(run.action(), MutationAction::ReadFile));
    let run = run.advance(own_file());
    assert!(matches!(run.action(), MutationAction::ReadAdmission));
    let run = run.advance(admission(BOOT));
    assert!(matches!(run.action(), MutationAction::Open));
    let run = run.advance(MutationEvent::Opened(Ok(())));
    match run.action() {
        MutationAction::Commit(found, plan) => {
            assert_eq!(found.expectation(), mutation(fua).expectation());
            assert_eq!(plan, MutationPlan::Write { offset: 8 });
        }
        _ => panic!("an admitted mutation is committed"),
    }
    run
}

#[test]
fn a_new_mutation_is_admitted_twice_and_read_back() {
    let outcome = committed(&mutation(false), 1);
    let run = planned(false).advance(MutationEvent::Committed(Ok(())));
    assert!(matches!(run.action(), MutationAction::ReadOutcome));
    let run = run.advance(MutationEvent::Outcome(Ok(Some(outcome.clone()))));
    assert!(matches!(run.action(), MutationAction::Finish));
    assert_eq!(run.into_result(), Some(Ok(outcome)));

    let outcome = committed(&mutation(true), 1);
    let run = planned(true)
        .advance(MutationEvent::Committed(Ok(())))
        .advance(MutationEvent::Outcome(Ok(Some(outcome.clone()))));
    assert!(matches!(run.action(), MutationAction::ReadDurableOutcome));
    let run = run.advance(MutationEvent::Outcome(Ok(Some(outcome.clone()))));
    assert_eq!(run.into_result(), Some(Ok(outcome.clone())));
    let run = planned(true)
        .advance(MutationEvent::Committed(Ok(())))
        .advance(MutationEvent::Outcome(Ok(Some(outcome))))
        .advance(MutationEvent::Outcome(Ok(None)));
    assert_eq!(run.into_result(), Some(Err(ExportAuthorityError::Corrupt)));
    let run = planned(false).advance(MutationEvent::Committed(Err(ExportAuthorityError::Storage)));
    assert_eq!(run.into_result(), Some(Err(ExportAuthorityError::Storage)));
}

#[test]
fn a_committed_mutation_is_replayed_and_made_durable() {
    let outcome = committed(&mutation(false), 1);
    let run = started(false).advance(MutationEvent::Outcome(Ok(Some(outcome.clone()))));
    assert_eq!(run.into_result(), Some(Ok(outcome)));

    let outcome = committed(&mutation(true), 1);
    let found = || {
        let run = started(true).advance(MutationEvent::Outcome(Ok(Some(committed(
            &mutation(true),
            1,
        )))));
        assert!(matches!(run.action(), MutationAction::ReadDurableOutcome));
        run
    };
    let run = found().advance(MutationEvent::Outcome(Ok(Some(outcome.clone()))));
    assert_eq!(run.into_result(), Some(Ok(outcome.clone())));
    let run = found().advance(MutationEvent::Outcome(Ok(None)));
    assert!(matches!(run.action(), MutationAction::Flush));
    let run = run.advance(MutationEvent::Flushed(Ok(())));
    assert!(matches!(run.action(), MutationAction::ReadDurableOutcome));
    let run = run.advance(MutationEvent::Outcome(Ok(Some(outcome))));
    assert!(matches!(run.into_result(), Some(Ok(_))));
    let run = found()
        .advance(MutationEvent::Outcome(Ok(None)))
        .advance(MutationEvent::Flushed(Ok(())))
        .advance(MutationEvent::Outcome(Ok(Some(committed(&mutation(true), 2)))));
    assert_eq!(run.into_result(), Some(Err(ExportAuthorityError::Corrupt)));
}

#[test]
fn a_conflicting_mutation_fences_its_session() {
    let active = activated(authority(3, 5));
    let other =
        ExportMutationBuilder::build(token(&active), [0x33; 32], write(8, b"else", false)).unwrap();
    let conflicting =
        || started(false).advance(MutationEvent::Outcome(Ok(Some(committed(&other, 1)))));
    match conflicting().action() {
        MutationAction::Fence(conflict) => {
            assert_eq!(conflict.attempted(), &mutation(false).expectation())
        }
        _ => panic!("another command under the operation is a conflict"),
    }
    let run = conflicting().advance(MutationEvent::Fenced(Ok(())));
    assert_eq!(run.into_result(), Some(Err(ExportAuthorityError::Conflict)));
    let run = conflicting().advance(MutationEvent::Fenced(Err(ExportAuthorityError::Storage)));
    assert_eq!(run.into_result(), Some(Err(ExportAuthorityError::Storage)));
}

#[test]
fn a_superseded_process_commits_nothing() {
    let ready = || {
        started(false)
            .advance(MutationEvent::Outcome(Ok(None)))
            .advance(admission(BOOT))
            .advance(own_file())
    };
    let run = ready().advance(admission("another-boot"));
    assert_eq!(
        run.into_result(),
        Some(Err(ExportAuthorityError::StaleMutation))
    );
    let run = ready().advance(MutationEvent::Admission {
        boot: Ok(Some(b"another-boot".to_vec())),
        record: Err(ExportAuthorityError::Corrupt),
        now: NOW,
    });
    assert_eq!(
        run.into_result(),
        Some(Err(ExportAuthorityError::StaleMutation))
    );
    let run = ready().advance(MutationEvent::Admission {
        boot: Ok(Some(BOOT.as_bytes().to_vec())),
        record: Err(ExportAuthorityError::Corrupt),
        now: NOW,
    });
    assert_eq!(run.into_result(), Some(Err(ExportAuthorityError::Corrupt)));
    let run = started(false)
        .advance(MutationEvent::Outcome(Ok(None)))
        .advance(admission(BOOT))
        .advance(MutationEvent::File(None));
    assert_eq!(run.into_result(), Some(Err(ExportAuthorityError::Invalid)));
    let run = started(false).advance(MutationEvent::Committed(Ok(())));
    assert!(matches!(run.action(), MutationAction::ReadOutcome));
    assert_eq!(run.into_result(), None);
}

#[test]
fn raw_transactions_cannot_mutate_reserved_authority_keys() {
    let active = activated(authority(3, 5));
    let codec = KeyCodec::new();
    let (reverse_name_key, reverse_inode_key) = reverse_binding_keys(&reverse_binding_for(&active));
    for key in [
        codec.export_authority_key("workspace-a"),
        codec.export_authority_key("workspace-other"),
        reverse_name_key,
        reverse_inode_key,
        codec.export_boot_key(),
    ] {
        assert!(is_reserved_mutation_key(&key));
    }
    assert!(!is_reserved_mutation_key(&codec.inode_key(2)));
}

#[test]
fn fua_unknown_converges_by_outcome_without_reapplying_data() {
    let active = activated(authority(3, 5));
    let build = || {
        ExportMutationBuilder::build(token(&active), [54; 32], write(800, b"fua-data", true))
            .unwrap()
    };
    let expected = build().expectation();
    let run = MutationRun::start(build(), BOOT.to_string(), EXTENT)
        .advance(MutationEvent::Outcome(Ok(None)))
        .advance(admission(BOOT))
        .advance(own_file())
        .advance(admission(BOOT))
        .advance(MutationEvent::Opened(Ok(())))
        .advance(MutationEvent::Committed(Err(
            ExportAuthorityError::CommitOutcomeUnknown,
        )));
    assert_eq!(
        run.into_result(),
        Some(Err(ExportAuthorityError::CommitOutcomeUnknown))
    );
    let current = committed(&build(), 1);
    assert_eq!(
        lookup_mutation(Some(current.clone()), &expected),
        Ok(ExportMutationLookup::Committed(Box::new(current.clone())))
    );
    assert_eq!(
        lookup_mutation(None, &expected),
        Ok(ExportMutationLookup::Unknown)
    );
    let run = MutationRun::start(build(), BOOT.to_string(), EXTENT)
        .advance(MutationEvent::Outcome(Ok(Some(current.clone()))))
        .advance(MutationEvent::Outcome(Ok(None)))
        .advance(MutationEvent::Flushed(Ok(())))
        .advance(MutationEvent::Outcome(Ok(Some(current.clone()))));
    assert_eq!(run.into_result(), Some(Ok(current)));
}

#[test]
fn typed_replay_never_prepares_or_reapplies_the_old_effect() {
    let active = activated(authority(3, 5));
    let original = || {
        ExportMutationBuilder::build(token(&active), [0x65; 32], write(0, b"first", false)).unwrap()
    };
    let first = committed(&original(), 1);
    let run = MutationRun::start(original(), BOOT.to_string(), EXTENT);
    assert!(matches!(run.action(), MutationAction::ReadOutcome));
    let run = run.advance(MutationEvent::Outcome(Ok(Some(first.clone()))));
    assert!(matches!(run.action(), MutationAction::Finish));
    assert_eq!(run.into_result(), Some(Ok(first)));
}

#[test]
fn external_boot_supersession_after_early_gate_blocks_physical_prepare() {
    let active = activated(authority(3, 5));
    let mutation = ExportMutationBuilder::build(
        token(&active),
        [0x7c; 32],
        write(0, b"must-not-stage", false),
    )
    .unwrap();
    let run = MutationRun::start(mutation, BOOT.to_string(), EXTENT)
        .advance(MutationEvent::Outcome(Ok(None)))
        .advance(admission(BOOT))
        .advance(own_file())
        .advance(admission("external-process-boot"));
    assert!(matches!(run.action(), MutationAction::Finish));
    assert_eq!(
        run.into_result(),
        Some(Err(ExportAuthorityError::StaleMutation))
    );
}

#[test]
fn old_boot_outcome_cannot_fence_a_reused_session_and_operation_id() {
    let active = activated(authority(3, 5));
    let old =
        ExportMutationBuilder::build(token(&active), [0x7b; 32], write(0, b"old-boot", false))
            .unwrap();
    let replacement = apply_transition(
        None,
        ExportAuthorityTransition::Activate(ActivateExport {
            workspace_id: active.workspace_id.clone(),
            export: active.export.clone(),
            authority: authority(4, 7),
            session: session("session-a", "capability-new-boot", u64::MAX),
        }),
        NOW,
        "server-boot-b",
    )
    .unwrap();
    let new = ExportMutationBuilder::build(
        token(&replacement),
        [0x7b; 32],
        write(0, b"new-boot", false),
    )
    .unwrap();
    assert_ne!(
        new.expectation().server_boot_id,
        old.expectation().server_boot_id
    );
    // The outcomes lie under different keys, so the new mutation finds none.
    assert_ne!(
        mutation_outcome_key(&new.expectation()),
        mutation_outcome_key(&old.expectation())
    );
    assert!(FenceMutationConflict::new(committed(&old, 1), new.expectation()).is_err());
}

#[test]
fn the_authority_model_runs_for_any_seed() {
    for seed in [0u64, 1, 9_999, 10_000, u64::MAX] {
        let run = dst_export_authority_model(seed);
        assert_eq!(run.live, Ok(()));
        assert_eq!(run.stale, Err(ExportAuthorityError::StaleMutation));
        assert!(run.active.active_session.is_some());
        assert!(run.fenced.active_session.is_none());
        assert_eq!(run.fenced.export, run.active.export);
    }
}

#[test]
fn trusted_time_is_in_milliseconds() {
    assert_eq!(trusted_now_unix_millis(1, 999_999_999), 1_999);
    assert_eq!(trusted_now_unix_millis(0, 0), 0);
}
