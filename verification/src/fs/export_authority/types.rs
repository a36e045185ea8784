//! Export identities, authorities, sessions, transitions and mutations.

use crate::outside::bytes_clone;
use crate::outside::contents;
use crate::wire::same_bytes;
use bytes::Bytes;
use vstd::prelude::*;
use vstd::slice::slice_to_vec;

verus! {

/// Why an export authority request was refused.
#[derive(Debug, Clone, Copy, PartialEq, Eq, Structural)]
pub enum ExportAuthorityError {
    /// Invalid export authority input.
    Invalid,
    /// Export authority state is absent.
    NotFound,
    /// Export authority record is corrupt.
    Corrupt,
    /// Authority or session precondition failed.
    Conflict,
    /// Mutation fence is stale; close the presenting session.
    StaleMutation,
    /// Storage commit outcome is unknown; read back durable state.
    CommitOutcomeUnknown,
    /// Storage failure.
    Storage,
    /// Export authority profile is not durably enabled.
    ProfileDisabled,
    /// Legacy export authority state requires an explicit migration.
    MigrationRequired,
}

/// What is reported of a refusal in words.
pub open spec fn authority_message(error: ExportAuthorityError) -> Seq<char> {
    match error {
        ExportAuthorityError::Invalid => "invalid export authority input"@,
        ExportAuthorityError::NotFound => "export authority state is absent"@,
        ExportAuthorityError::Corrupt => "export authority record is corrupt"@,
        ExportAuthorityError::Conflict => "authority or session precondition failed"@,
        ExportAuthorityError::StaleMutation => "mutation fence is stale; close the presenting session"@,
        ExportAuthorityError::CommitOutcomeUnknown => "storage commit outcome is unknown; read back durable state"@,
        ExportAuthorityError::Storage => "storage failure"@,
        ExportAuthorityError::ProfileDisabled => "export authority profile is not durably enabled"@,
        ExportAuthorityError::MigrationRequired => "legacy export authority state requires an explicit migration"@,
    }
}

impl ExportAuthorityError {
    /// The error in words.
    pub fn message(self) -> (text: &'static str)
        ensures
            text@ == authority_message(self),
    {
        match self {
            ExportAuthorityError::Invalid => "invalid export authority input",
            ExportAuthorityError::NotFound => "export authority state is absent",
            ExportAuthorityError::Corrupt => "export authority record is corrupt",
            ExportAuthorityError::Conflict => "authority or session precondition failed",
            ExportAuthorityError::StaleMutation => "mutation fence is stale; close the presenting session",
            ExportAuthorityError::CommitOutcomeUnknown => "storage commit outcome is unknown; read back durable state",
            ExportAuthorityError::Storage => "storage failure",
            ExportAuthorityError::ProfileDisabled => "export authority profile is not durably enabled",
            ExportAuthorityError::MigrationRequired => "legacy export authority state requires an explicit migration",
        }
    }

    /// Whether the presenting transport session must be closed. This does not close
    /// or rewrite the currently authoritative session record.
    pub fn close_session(self) -> (close: bool)
        ensures
            close == (self is Conflict || self is StaleMutation || self is CommitOutcomeUnknown),
    {
        matches!(
            self,
            ExportAuthorityError::Conflict | ExportAuthorityError::StaleMutation
                | ExportAuthorityError::CommitOutcomeUnknown
        )
    }
}

/// The file that an export serves.
#[derive(Debug, PartialEq, Eq)]
pub struct ExportIdentity {
    pub nbd_directory_inode: u64,
    pub name: Vec<u8>,
    pub inode: u64,
    pub advertised_size: u64,
}

/// The value of `ExportIdentity`.
pub struct ExportIdentityModel {
    pub nbd_directory_inode: u64,
    pub name: Seq<u8>,
    pub inode: u64,
    pub advertised_size: u64,
}

impl View for ExportIdentity {
    type V = ExportIdentityModel;

    open spec fn view(&self) -> ExportIdentityModel {
        ExportIdentityModel {
            nbd_directory_inode: self.nbd_directory_inode,
            name: self.name@,
            inode: self.inode,
            advertised_size: self.advertised_size,
        }
    }
}

impl Clone for ExportIdentity {
    fn clone(&self) -> (copy: Self)
        ensures
            copy@ == self@,
    {
        ExportIdentity {
            nbd_directory_inode: self.nbd_directory_inode,
            name: slice_to_vec(&self.name),
            inode: self.inode,
            advertised_size: self.advertised_size,
        }
    }
}

impl ExportIdentity {
    /// Whether two values are equal.
    pub fn same(&self, other: &Self) -> (same: bool)
        ensures
            same == (self@ == other@),
    {
        self.nbd_directory_inode == other.nbd_directory_inode
            && same_bytes(&self.name, &other.name)
            && self.inode == other.inode
            && self.advertised_size == other.advertised_size
    }
}

/// Who may write an export, and in which version of each of the facts that say so.
#[derive(Debug, PartialEq, Eq)]
pub struct AuthorityVersion {
    pub actor: String,
    pub actor_generation: u64,
    pub home_cell: String,
    pub home_revision: u64,
    pub authority_epoch: u64,
    pub placement_epoch: u64,
    pub assignment_revision: u64,
}

/// The value of `AuthorityVersion`.
pub struct AuthorityVersionModel {
    pub actor: Seq<char>,
    pub actor_generation: u64,
    pub home_cell: Seq<char>,
    pub home_revision: u64,
    pub authority_epoch: u64,
    pub placement_epoch: u64,
    pub assignment_revision: u64,
}

impl View for AuthorityVersion {
    type V = AuthorityVersionModel;

    open spec fn view(&self) -> AuthorityVersionModel {
        AuthorityVersionModel {
            actor: self.actor@,
            actor_generation: self.actor_generation,
            home_cell: self.home_cell@,
            home_revision: self.home_revision,
            authority_epoch: self.authority_epoch,
            placement_epoch: self.placement_epoch,
            assignment_revision: self.assignment_revision,
        }
    }
}

impl Clone for AuthorityVersion {
    fn clone(&self) -> (copy: Self)
        ensures
            copy@ == self@,
    {
        AuthorityVersion {
            actor: self.actor.clone(),
            actor_generation: self.actor_generation,
            home_cell: self.home_cell.clone(),
            home_revision: self.home_revision,
            authority_epoch: self.authority_epoch,
            placement_epoch: self.placement_epoch,
            assignment_revision: self.assignment_revision,
        }
    }
}

impl AuthorityVersion {
    /// Whether two values are equal.
    pub fn same(&self, other: &Self) -> (same: bool)
        ensures
            same == (self@ == other@),
    {
        self.actor == other.actor
            && self.actor_generation == other.actor_generation
            && self.home_cell == other.home_cell
            && self.home_revision == other.home_revision
            && self.authority_epoch == other.authority_epoch
            && self.placement_epoch == other.placement_epoch
            && self.assignment_revision == other.assignment_revision
    }
}

/// The session through which an export is written.
#[derive(Debug, PartialEq, Eq)]
pub struct ExportSessionState {
    pub session_id: String,
    pub capability_id: String,
    pub expires_at_unix_millis: u64,
    pub node_incarnation_id: String,
    pub runtime_id: String,
    pub server_boot_id: String,
    pub committed_through_sequence: u64,
}

/// The value of `ExportSessionState`.
pub struct ExportSessionStateModel {
    pub session_id: Seq<char>,
    pub capability_id: Seq<char>,
    pub expires_at_unix_millis: u64,
    pub node_incarnation_id: Seq<char>,
    pub runtime_id: Seq<char>,
    pub server_boot_id: Seq<char>,
    pub committed_through_sequence: u64,
}

impl View for ExportSessionState {
    type V = ExportSessionStateModel;

    open spec fn view(&self) -> ExportSessionStateModel {
        ExportSessionStateModel {
            session_id: self.session_id@,
            capability_id: self.capability_id@,
            expires_at_unix_millis: self.expires_at_unix_millis,
            node_incarnation_id: self.node_incarnation_id@,
            runtime_id: self.runtime_id@,
            server_boot_id: self.server_boot_id@,
            committed_through_sequence: self.committed_through_sequence,
        }
    }
}

impl Clone for ExportSessionState {
    fn clone(&self) -> (copy: Self)
        ensures
            copy@ == self@,
    {
        ExportSessionState {
            session_id: self.session_id.clone(),
            capability_id: self.capability_id.clone(),
            expires_at_unix_millis: self.expires_at_unix_millis,
            node_incarnation_id: self.node_incarnation_id.clone(),
            runtime_id: self.runtime_id.clone(),
            server_boot_id: self.server_boot_id.clone(),
            committed_through_sequence: self.committed_through_sequence,
        }
    }
}

impl ExportSessionState {
    /// Whether two values are equal.
    pub fn same(&self, other: &Self) -> (same: bool)
        ensures
            same == (self@ == other@),
    {
        self.session_id == other.session_id
            && self.capability_id == other.capability_id
            && self.expires_at_unix_millis == other.expires_at_unix_millis
            && self.node_incarnation_id == other.node_incarnation_id
            && self.runtime_id == other.runtime_id
            && self.server_boot_id == other.server_boot_id
            && self.committed_through_sequence == other.committed_through_sequence
    }
}

/// The durable authority state of one workspace's export.
#[derive(Debug, PartialEq, Eq)]
pub struct ExportAuthorityRecord {
    pub workspace_id: String,
    pub export: ExportIdentity,
    pub authority: AuthorityVersion,
    pub rejected_through_placement_epoch: u64,
    pub binding_initialized: bool,
    pub active_session: Option<ExportSessionState>,
}

/// The value of `ExportAuthorityRecord`.
pub struct ExportAuthorityRecordModel {
    pub workspace_id: Seq<char>,
    pub export: ExportIdentityModel,
    pub authority: AuthorityVersionModel,
    pub rejected_through_placement_epoch: u64,
    pub binding_initialized: bool,
    pub active_session: Option<ExportSessionStateModel>,
}

impl View for ExportAuthorityRecord {
    type V = ExportAuthorityRecordModel;

    open spec fn view(&self) -> ExportAuthorityRecordModel {
        ExportAuthorityRecordModel {
            workspace_id: self.workspace_id@,
            export: self.export@,
            authority: self.authority@,
            rejected_through_placement_epoch: self.rejected_through_placement_epoch,
            binding_initialized: self.binding_initialized,
            active_session: match self.active_session {
                Some(inner) => Some(inner@),
                None => None,
            },
        }
    }
}

impl Clone for ExportAuthorityRecord {
    fn clone(&self) -> (copy: Self)
        ensures
            copy@ == self@,
    {
        ExportAuthorityRecord {
            workspace_id: self.workspace_id.clone(),
            export: self.export.clone(),
            authority: self.authority.clone(),
            rejected_through_placement_epoch: self.rejected_through_placement_epoch,
            binding_initialized: self.binding_initialized,
            active_session: match &self.active_session {
                Some(inner) => Some(inner.clone()),
                None => None,
            },
        }
    }
}

impl ExportAuthorityRecord {
    /// Whether two values are equal.
    pub fn same(&self, other: &Self) -> (same: bool)
        ensures
            same == (self@ == other@),
    {
        self.workspace_id == other.workspace_id
            && self.export.same(&other.export)
            && self.authority.same(&other.authority)
            && self.rejected_through_placement_epoch == other.rejected_through_placement_epoch
            && self.binding_initialized == other.binding_initialized
            && (match (&self.active_session, &other.active_session) {
            (Some(a), Some(b)) => a.same(b),
            (None, None) => true,
            _ => false,
        })
    }
}

/// The row by which an export is found from its name or inode.
#[derive(Debug, PartialEq, Eq)]
pub struct ExportReverseBinding {
    pub workspace_id: String,
    pub actor: String,
    pub actor_generation: u64,
    pub export: ExportIdentity,
}

/// The value of `ExportReverseBinding`.
pub struct ExportReverseBindingModel {
    pub workspace_id: Seq<char>,
    pub actor: Seq<char>,
    pub actor_generation: u64,
    pub export: ExportIdentityModel,
}

impl View for ExportReverseBinding {
    type V = ExportReverseBindingModel;

    open spec fn view(&self) -> ExportReverseBindingModel {
        ExportReverseBindingModel {
            workspace_id: self.workspace_id@,
            actor: self.actor@,
            actor_generation: self.actor_generation,
            export: self.export@,
        }
    }
}

impl Clone for ExportReverseBinding {
    fn clone(&self) -> (copy: Self)
        ensures
            copy@ == self@,
    {
        ExportReverseBinding {
            workspace_id: self.workspace_id.clone(),
            actor: self.actor.clone(),
            actor_generation: self.actor_generation,
            export: self.export.clone(),
        }
    }
}

impl ExportReverseBinding {
    /// Whether two values are equal.
    pub fn same(&self, other: &Self) -> (same: bool)
        ensures
            same == (self@ == other@),
    {
        self.workspace_id == other.workspace_id
            && self.actor == other.actor
            && self.actor_generation == other.actor_generation
            && self.export.same(&other.export)
    }
}

/// Opens a session on an export.
#[derive(Debug, PartialEq, Eq)]
pub struct ActivateExport {
    pub workspace_id: String,
    pub export: ExportIdentity,
    pub authority: AuthorityVersion,
    pub session: ExportSessionState,
}

/// The value of `ActivateExport`.
pub struct ActivateExportModel {
    pub workspace_id: Seq<char>,
    pub export: ExportIdentityModel,
    pub authority: AuthorityVersionModel,
    pub session: ExportSessionStateModel,
}

impl View for ActivateExport {
    type V = ActivateExportModel;

    open spec fn view(&self) -> ActivateExportModel {
        ActivateExportModel {
            workspace_id: self.workspace_id@,
            export: self.export@,
            authority: self.authority@,
            session: self.session@,
        }
    }
}

impl Clone for ActivateExport {
    fn clone(&self) -> (copy: Self)
        ensures
            copy@ == self@,
    {
        ActivateExport {
            workspace_id: self.workspace_id.clone(),
            export: self.export.clone(),
            authority: self.authority.clone(),
            session: self.session.clone(),
        }
    }
}

/// Extends a live session under a later assignment of the same placement.
#[derive(Debug, PartialEq, Eq)]
pub struct RefreshExport {
    pub workspace_id: String,
    pub expected_export: ExportIdentity,
    pub expected_authority: AuthorityVersion,
    pub session_id: String,
    pub expected_capability_id: String,
    pub replacement_authority: AuthorityVersion,
    pub replacement_capability_id: String,
    pub replacement_expires_at_unix_millis: u64,
}

/// The value of `RefreshExport`.
pub struct RefreshExportModel {
    pub workspace_id: Seq<char>,
    pub expected_export: ExportIdentityModel,
    pub expected_authority: AuthorityVersionModel,
    pub session_id: Seq<char>,
    pub expected_capability_id: Seq<char>,
    pub replacement_authority: AuthorityVersionModel,
    pub replacement_capability_id: Seq<char>,
    pub replacement_expires_at_unix_millis: u64,
}

impl View for RefreshExport {
    type V = RefreshExportModel;

    open spec fn view(&self) -> RefreshExportModel {
        RefreshExportModel {
            workspace_id: self.workspace_id@,
            expected_export: self.expected_export@,
            expected_authority: self.expected_authority@,
            session_id: self.session_id@,
            expected_capability_id: self.expected_capability_id@,
            replacement_authority: self.replacement_authority@,
            replacement_capability_id: self.replacement_capability_id@,
            replacement_expires_at_unix_millis: self.replacement_expires_at_unix_millis,
        }
    }
}

impl Clone for RefreshExport {
    fn clone(&self) -> (copy: Self)
        ensures
            copy@ == self@,
    {
        RefreshExport {
            workspace_id: self.workspace_id.clone(),
            expected_export: self.expected_export.clone(),
            expected_authority: self.expected_authority.clone(),
            session_id: self.session_id.clone(),
            expected_capability_id: self.expected_capability_id.clone(),
            replacement_authority: self.replacement_authority.clone(),
            replacement_capability_id: self.replacement_capability_id.clone(),
            replacement_expires_at_unix_millis: self.replacement_expires_at_unix_millis,
        }
    }
}

/// Closes the session and rejects its placement.
#[derive(Debug, PartialEq, Eq)]
pub struct DeactivateExport {
    pub workspace_id: String,
    pub expected_export: ExportIdentity,
    pub expected_authority: AuthorityVersion,
    pub session_id: String,
}

/// The value of `DeactivateExport`.
pub struct DeactivateExportModel {
    pub workspace_id: Seq<char>,
    pub expected_export: ExportIdentityModel,
    pub expected_authority: AuthorityVersionModel,
    pub session_id: Seq<char>,
}

impl View for DeactivateExport {
    type V = DeactivateExportModel;

    open spec fn view(&self) -> DeactivateExportModel {
        DeactivateExportModel {
            workspace_id: self.workspace_id@,
            expected_export: self.expected_export@,
            expected_authority: self.expected_authority@,
            session_id: self.session_id@,
        }
    }
}

impl Clone for DeactivateExport {
    fn clone(&self) -> (copy: Self)
        ensures
            copy@ == self@,
    {
        DeactivateExport {
            workspace_id: self.workspace_id.clone(),
            expected_export: self.expected_export.clone(),
            expected_authority: self.expected_authority.clone(),
            session_id: self.session_id.clone(),
        }
    }
}

/// Rejects every placement through an epoch.
#[derive(Debug, PartialEq, Eq)]
pub struct AdvanceFence {
    pub workspace_id: String,
    pub export: ExportIdentity,
    pub expected_authority: Option<AuthorityVersion>,
    pub new_non_writable_authority: AuthorityVersion,
    pub reject_through_placement_epoch: u64,
}

/// The value of `AdvanceFence`.
pub struct AdvanceFenceModel {
    pub workspace_id: Seq<char>,
    pub export: ExportIdentityModel,
    pub expected_authority: Option<AuthorityVersionModel>,
    pub new_non_writable_authority: AuthorityVersionModel,
    pub reject_through_placement_epoch: u64,
}

impl View for AdvanceFence {
    type V = AdvanceFenceModel;

    open spec fn view(&self) -> AdvanceFenceModel {
        AdvanceFenceModel {
            workspace_id: self.workspace_id@,
            export: self.export@,
            expected_authority: match self.expected_authority {
                Some(inner) => Some(inner@),
                None => None,
            },
            new_non_writable_authority: self.new_non_writable_authority@,
            reject_through_placement_epoch: self.reject_through_placement_epoch,
        }
    }
}

impl Clone for AdvanceFence {
    fn clone(&self) -> (copy: Self)
        ensures
            copy@ == self@,
    {
        AdvanceFence {
            workspace_id: self.workspace_id.clone(),
            export: self.export.clone(),
            expected_authority: match &self.expected_authority {
                Some(inner) => Some(inner.clone()),
                None => None,
            },
            new_non_writable_authority: self.new_non_writable_authority.clone(),
            reject_through_placement_epoch: self.reject_through_placement_epoch,
        }
    }
}

/// A change of authority state.
#[derive(Debug)]
pub enum ExportAuthorityTransition {
    Activate(ActivateExport),
    Refresh(RefreshExport),
    Deactivate(DeactivateExport),
    AdvanceFence(AdvanceFence),
}

/// The value of `ExportAuthorityTransition`.
pub enum ExportAuthorityTransitionModel {
    Activate(ActivateExportModel),
    Refresh(RefreshExportModel),
    Deactivate(DeactivateExportModel),
    AdvanceFence(AdvanceFenceModel),
}

impl View for ExportAuthorityTransition {
    type V = ExportAuthorityTransitionModel;

    open spec fn view(&self) -> ExportAuthorityTransitionModel {
        match self {
            ExportAuthorityTransition::Activate(c) => ExportAuthorityTransitionModel::Activate(c@),
            ExportAuthorityTransition::Refresh(c) => ExportAuthorityTransitionModel::Refresh(c@),
            ExportAuthorityTransition::Deactivate(c) => ExportAuthorityTransitionModel::Deactivate(
                c@,
            ),
            ExportAuthorityTransition::AdvanceFence(
                c,
            ) => ExportAuthorityTransitionModel::AdvanceFence(c@),
        }
    }
}

impl ExportAuthorityTransitionModel {
    /// The workspace that the transition is about.
    pub open spec fn workspace_id(self) -> Seq<char> {
        match self {
            ExportAuthorityTransitionModel::Activate(c) => c.workspace_id,
            ExportAuthorityTransitionModel::Refresh(c) => c.workspace_id,
            ExportAuthorityTransitionModel::Deactivate(c) => c.workspace_id,
            ExportAuthorityTransitionModel::AdvanceFence(c) => c.workspace_id,
        }
    }
}

impl ExportAuthorityTransition {
    /// The workspace that the transition is about.
    pub fn workspace_id(&self) -> (workspace_id: &str)
        ensures
            workspace_id@ == self@.workspace_id(),
    {
        match self {
            ExportAuthorityTransition::Activate(c) => c.workspace_id.as_str(),
            ExportAuthorityTransition::Refresh(c) => c.workspace_id.as_str(),
            ExportAuthorityTransition::Deactivate(c) => c.workspace_id.as_str(),
            ExportAuthorityTransition::AdvanceFence(c) => c.workspace_id.as_str(),
        }
    }
}

/// What a mutation does to an export, and whether it forces unit access.
#[derive(Debug, Clone, Copy, PartialEq, Eq, Structural)]
pub enum MutationKind {
    Write { fua: bool },
    Flush,
    Trim { fua: bool },
    WriteZeroes { fua: bool },
}

/// A flush, and any mutation that forces unit access, must be durable before it is
/// acknowledged.
pub open spec fn needs_durability(kind: MutationKind) -> bool {
    match kind {
        MutationKind::Flush => true,
        MutationKind::Write { fua } => fua,
        MutationKind::Trim { fua } => fua,
        MutationKind::WriteZeroes { fua } => fua,
    }
}

impl MutationKind {
    /// Whether the mutation must be durable before it is acknowledged.
    pub fn requires_durability(self) -> (required: bool)
        ensures
            required == needs_durability(self),
    {
        matches!(
            self,
            MutationKind::Flush | MutationKind::Write { fua: true }
                | MutationKind::Trim { fua: true }
                | MutationKind::WriteZeroes { fua: true }
        )
    }
}

/// A mutation of an export with its arguments.
#[derive(Debug, PartialEq, Eq)]
pub enum ExportMutationCommand {
    Write { offset: u64, data: Bytes, fua: bool },
    Flush,
    Trim { offset: u64, length: u32, fua: bool },
    WriteZeroes { offset: u64, length: u32, fua: bool },
}

/// The value of `ExportMutationCommand`.
pub enum ExportMutationCommandModel {
    Write { offset: u64, data: Seq<u8>, fua: bool },
    Flush,
    Trim { offset: u64, length: u32, fua: bool },
    WriteZeroes { offset: u64, length: u32, fua: bool },
}

impl View for ExportMutationCommand {
    type V = ExportMutationCommandModel;

    open spec fn view(&self) -> ExportMutationCommandModel {
        match *self {
            ExportMutationCommand::Write {
                offset,
                data,
                fua,
            } => ExportMutationCommandModel::Write { offset, data: contents(data), fua },
            ExportMutationCommand::Flush => ExportMutationCommandModel::Flush,
            ExportMutationCommand::Trim {
                offset,
                length,
                fua,
            } => ExportMutationCommandModel::Trim { offset, length, fua },
            ExportMutationCommand::WriteZeroes {
                offset,
                length,
                fua,
            } => ExportMutationCommandModel::WriteZeroes { offset, length, fua },
        }
    }
}

impl Clone for ExportMutationCommand {
    fn clone(&self) -> (copy: Self)
        ensures
            copy@ == self@,
    {
        match self {
            ExportMutationCommand::Write { offset, data, fua } => ExportMutationCommand::Write {
                offset: *offset,
                data: bytes_clone(data),
                fua: *fua,
            },
            ExportMutationCommand::Flush => ExportMutationCommand::Flush,
            ExportMutationCommand::Trim { offset, length, fua } => ExportMutationCommand::Trim {
                offset: *offset,
                length: *length,
                fua: *fua,
            },
            ExportMutationCommand::WriteZeroes {
                offset,
                length,
                fua,
            } => ExportMutationCommand::WriteZeroes {
                offset: *offset,
                length: *length,
                fua: *fua,
            },
        }
    }
}

impl ExportMutationCommandModel {
    pub open spec fn kind(self) -> MutationKind {
        match self {
            ExportMutationCommandModel::Write { fua, .. } => MutationKind::Write { fua },
            ExportMutationCommandModel::Flush => MutationKind::Flush,
            ExportMutationCommandModel::Trim { fua, .. } => MutationKind::Trim { fua },
            ExportMutationCommandModel::WriteZeroes { fua, .. } => MutationKind::WriteZeroes {
                fua,
            },
        }
    }

    /// The bytes that the command writes.
    pub open spec fn data(self) -> Seq<u8> {
        match self {
            ExportMutationCommandModel::Write { data, .. } => data,
            _ => Seq::empty(),
        }
    }

    /// Where the command begins; zero for a flush.
    pub open spec fn offset(self) -> u64 {
        match self {
            ExportMutationCommandModel::Write { offset, .. } => offset,
            ExportMutationCommandModel::Flush => 0,
            ExportMutationCommandModel::Trim { offset, .. } => offset,
            ExportMutationCommandModel::WriteZeroes { offset, .. } => offset,
        }
    }

    /// How many bytes the command covers; none for a flush.
    pub open spec fn length(self) -> nat {
        match self {
            ExportMutationCommandModel::Write { data, .. } => data.len(),
            ExportMutationCommandModel::Flush => 0,
            ExportMutationCommandModel::Trim { length, .. } => length as nat,
            ExportMutationCommandModel::WriteZeroes { length, .. } => length as nat,
        }
    }
}

impl ExportMutationCommand {
    pub fn kind(&self) -> (kind: MutationKind)
        ensures
            kind == self@.kind(),
    {
        match self {
            ExportMutationCommand::Write { fua, .. } => MutationKind::Write { fua: *fua },
            ExportMutationCommand::Flush => MutationKind::Flush,
            ExportMutationCommand::Trim { fua, .. } => MutationKind::Trim { fua: *fua },
            ExportMutationCommand::WriteZeroes { fua, .. } => MutationKind::WriteZeroes {
                fua: *fua,
            },
        }
    }
}

/// What a session presents with each mutation.
#[derive(Debug, PartialEq, Eq)]
pub struct MutationFenceToken {
    pub workspace_id: String,
    pub export: ExportIdentity,
    pub authority: AuthorityVersion,
    pub session_id: String,
    pub capability_id: String,
    pub expires_at_unix_millis: u64,
    pub node_incarnation_id: String,
    pub runtime_id: String,
    pub server_boot_id: String,
}

/// The value of `MutationFenceToken`.
pub struct MutationFenceTokenModel {
    pub workspace_id: Seq<char>,
    pub export: ExportIdentityModel,
    pub authority: AuthorityVersionModel,
    pub session_id: Seq<char>,
    pub capability_id: Seq<char>,
    pub expires_at_unix_millis: u64,
    pub node_incarnation_id: Seq<char>,
    pub runtime_id: Seq<char>,
    pub server_boot_id: Seq<char>,
}

impl View for MutationFenceToken {
    type V = MutationFenceTokenModel;

    open spec fn view(&self) -> MutationFenceTokenModel {
        MutationFenceTokenModel {
            workspace_id: self.workspace_id@,
            export: self.export@,
            authority: self.authority@,
            session_id: self.session_id@,
            capability_id: self.capability_id@,
            expires_at_unix_millis: self.expires_at_unix_millis,
            node_incarnation_id: self.node_incarnation_id@,
            runtime_id: self.runtime_id@,
            server_boot_id: self.server_boot_id@,
        }
    }
}

impl Clone for MutationFenceToken {
    fn clone(&self) -> (copy: Self)
        ensures
            copy@ == self@,
    {
        MutationFenceToken {
            workspace_id: self.workspace_id.clone(),
            export: self.export.clone(),
            authority: self.authority.clone(),
            session_id: self.session_id.clone(),
            capability_id: self.capability_id.clone(),
            expires_at_unix_millis: self.expires_at_unix_millis,
            node_incarnation_id: self.node_incarnation_id.clone(),
            runtime_id: self.runtime_id.clone(),
            server_boot_id: self.server_boot_id.clone(),
        }
    }
}

impl MutationFenceToken {
    /// Whether two values are equal.
    pub fn same(&self, other: &Self) -> (same: bool)
        ensures
            same == (self@ == other@),
    {
        self.workspace_id == other.workspace_id
            && self.export.same(&other.export)
            && self.authority.same(&other.authority)
            && self.session_id == other.session_id
            && self.capability_id == other.capability_id
            && self.expires_at_unix_millis == other.expires_at_unix_millis
            && self.node_incarnation_id == other.node_incarnation_id
            && self.runtime_id == other.runtime_id
            && self.server_boot_id == other.server_boot_id
    }
}

/// Binds a command to the token and operation that it was presented with.
#[derive(Debug, Clone, Copy, PartialEq, Eq)]
pub struct CommandDigest(pub [u8; 32]);

impl View for CommandDigest {
    type V = Seq<u8>;

    open spec fn view(&self) -> Seq<u8> {
        self.0@
    }
}

impl CommandDigest {
    /// Whether two values are equal.
    pub fn same(&self, other: &Self) -> (same: bool)
        ensures
            same == (self@ == other@),
    {
        same_bytes(&self.0, &other.0)
    }
}

/// Binds the bytes of a write.
#[derive(Debug, Clone, Copy, PartialEq, Eq)]
pub struct DataChecksum(pub [u8; 32]);

impl View for DataChecksum {
    type V = Seq<u8>;

    open spec fn view(&self) -> Seq<u8> {
        self.0@
    }
}

impl DataChecksum {
    /// Whether two values are equal.
    pub fn same(&self, other: &Self) -> (same: bool)
        ensures
            same == (self@ == other@),
    {
        same_bytes(&self.0, &other.0)
    }
}

/// Identifies one mutation of a session.
#[derive(Debug, Clone, Copy, PartialEq, Eq)]
pub struct OperationId(pub [u8; 32]);

impl View for OperationId {
    type V = Seq<u8>;

    open spec fn view(&self) -> Seq<u8> {
        self.0@
    }
}

impl OperationId {
    /// Whether two values are equal.
    pub fn same(&self, other: &Self) -> (same: bool)
        ensures
            same == (self@ == other@),
    {
        same_bytes(&self.0, &other.0)
    }
}

/// What a request says of its mutation.
#[derive(Debug, PartialEq, Eq)]
pub struct MutationRequestIdentity {
    pub operation_id: OperationId,
    pub command_digest: CommandDigest,
    pub data_checksum: DataChecksum,
}

/// The value of `MutationRequestIdentity`.
pub struct MutationRequestIdentityModel {
    pub operation_id: Seq<u8>,
    pub command_digest: Seq<u8>,
    pub data_checksum: Seq<u8>,
}

impl View for MutationRequestIdentity {
    type V = MutationRequestIdentityModel;

    open spec fn view(&self) -> MutationRequestIdentityModel {
        MutationRequestIdentityModel {
            operation_id: self.operation_id@,
            command_digest: self.command_digest@,
            data_checksum: self.data_checksum@,
        }
    }
}

impl Clone for MutationRequestIdentity {
    fn clone(&self) -> (copy: Self)
        ensures
            copy@ == self@,
    {
        MutationRequestIdentity {
            operation_id: self.operation_id,
            command_digest: self.command_digest,
            data_checksum: self.data_checksum,
        }
    }
}

impl MutationRequestIdentity {
    /// Whether two values are equal.
    pub fn same(&self, other: &Self) -> (same: bool)
        ensures
            same == (self@ == other@),
    {
        self.operation_id.same(&other.operation_id)
            && self.command_digest.same(&other.command_digest)
            && self.data_checksum.same(&other.data_checksum)
    }
}

/// What is recorded of a mutation, with the sequence number that it got.
#[derive(Debug, PartialEq, Eq)]
pub struct MutationIdentity {
    pub operation_id: OperationId,
    pub sequence: u64,
    pub command_digest: CommandDigest,
    pub data_checksum: DataChecksum,
}

/// The value of `MutationIdentity`.
pub struct MutationIdentityModel {
    pub operation_id: Seq<u8>,
    pub sequence: u64,
    pub command_digest: Seq<u8>,
    pub data_checksum: Seq<u8>,
}

impl View for MutationIdentity {
    type V = MutationIdentityModel;

    open spec fn view(&self) -> MutationIdentityModel {
        MutationIdentityModel {
            operation_id: self.operation_id@,
            sequence: self.sequence,
            command_digest: self.command_digest@,
            data_checksum: self.data_checksum@,
        }
    }
}

impl Clone for MutationIdentity {
    fn clone(&self) -> (copy: Self)
        ensures
            copy@ == self@,
    {
        MutationIdentity {
            operation_id: self.operation_id,
            sequence: self.sequence,
            command_digest: self.command_digest,
            data_checksum: self.data_checksum,
        }
    }
}

impl MutationIdentity {
    /// Whether two values are equal.
    pub fn same(&self, other: &Self) -> (same: bool)
        ensures
            same == (self@ == other@),
    {
        self.operation_id.same(&other.operation_id)
            && self.sequence == other.sequence
            && self.command_digest.same(&other.command_digest)
            && self.data_checksum.same(&other.data_checksum)
    }
}

/// The durable outcome of a committed mutation.
#[derive(Debug, PartialEq, Eq)]
pub struct ExportMutationOutcome {
    pub workspace_id: String,
    pub export: ExportIdentity,
    pub authority: AuthorityVersion,
    pub session_id: String,
    pub server_boot_id: String,
    pub mutation: MutationIdentity,
    pub kind: MutationKind,
}

/// The value of `ExportMutationOutcome`.
pub struct ExportMutationOutcomeModel {
    pub workspace_id: Seq<char>,
    pub export: ExportIdentityModel,
    pub authority: AuthorityVersionModel,
    pub session_id: Seq<char>,
    pub server_boot_id: Seq<char>,
    pub mutation: MutationIdentityModel,
    pub kind: MutationKind,
}

impl View for ExportMutationOutcome {
    type V = ExportMutationOutcomeModel;

    open spec fn view(&self) -> ExportMutationOutcomeModel {
        ExportMutationOutcomeModel {
            workspace_id: self.workspace_id@,
            export: self.export@,
            authority: self.authority@,
            session_id: self.session_id@,
            server_boot_id: self.server_boot_id@,
            mutation: self.mutation@,
            kind: self.kind,
        }
    }
}

impl Clone for ExportMutationOutcome {
    fn clone(&self) -> (copy: Self)
        ensures
            copy@ == self@,
    {
        ExportMutationOutcome {
            workspace_id: self.workspace_id.clone(),
            export: self.export.clone(),
            authority: self.authority.clone(),
            session_id: self.session_id.clone(),
            server_boot_id: self.server_boot_id.clone(),
            mutation: self.mutation.clone(),
            kind: self.kind,
        }
    }
}

impl ExportMutationOutcome {
    /// Whether two values are equal.
    pub fn same(&self, other: &Self) -> (same: bool)
        ensures
            same == (self@ == other@),
    {
        self.workspace_id == other.workspace_id
            && self.export.same(&other.export)
            && self.authority.same(&other.authority)
            && self.session_id == other.session_id
            && self.server_boot_id == other.server_boot_id
            && self.mutation.same(&other.mutation)
            && self.kind == other.kind
    }
}

/// The outcome that a request expects to find.
#[derive(Debug, PartialEq, Eq)]
pub struct ExportMutationExpectation {
    pub workspace_id: String,
    pub export: ExportIdentity,
    pub authority: AuthorityVersion,
    pub session_id: String,
    pub server_boot_id: String,
    pub mutation: MutationRequestIdentity,
    pub kind: MutationKind,
}

/// The value of `ExportMutationExpectation`.
pub struct ExportMutationExpectationModel {
    pub workspace_id: Seq<char>,
    pub export: ExportIdentityModel,
    pub authority: AuthorityVersionModel,
    pub session_id: Seq<char>,
    pub server_boot_id: Seq<char>,
    pub mutation: MutationRequestIdentityModel,
    pub kind: MutationKind,
}

impl View for ExportMutationExpectation {
    type V = ExportMutationExpectationModel;

    open spec fn view(&self) -> ExportMutationExpectationModel {
        ExportMutationExpectationModel {
            workspace_id: self.workspace_id@,
            export: self.export@,
            authority: self.authority@,
            session_id: self.session_id@,
            server_boot_id: self.server_boot_id@,
            mutation: self.mutation@,
            kind: self.kind,
        }
    }
}

impl Clone for ExportMutationExpectation {
    fn clone(&self) -> (copy: Self)
        ensures
            copy@ == self@,
    {
        ExportMutationExpectation {
            workspace_id: self.workspace_id.clone(),
            export: self.export.clone(),
            authority: self.authority.clone(),
            session_id: self.session_id.clone(),
            server_boot_id: self.server_boot_id.clone(),
            mutation: self.mutation.clone(),
            kind: self.kind,
        }
    }
}

impl ExportMutationExpectation {
    /// Whether two values are equal.
    pub fn same(&self, other: &Self) -> (same: bool)
        ensures
            same == (self@ == other@),
    {
        self.workspace_id == other.workspace_id
            && self.export.same(&other.export)
            && self.authority.same(&other.authority)
            && self.session_id == other.session_id
            && self.server_boot_id == other.server_boot_id
            && self.mutation.same(&other.mutation)
            && self.kind == other.kind
    }
}

/// What is known of a mutation.
#[derive(Debug, PartialEq, Eq)]
pub enum ExportMutationLookup {
    Unknown,
    Committed(Box<ExportMutationOutcome>),
}

} // verus!
