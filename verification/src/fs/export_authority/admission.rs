//! What the export authority does with what it reads from storage.
//!
//! Each function decides one step from plain values: the caller performs the step and
//! comes back with what it found.

use super::mutation::fulfils;
use super::mutation::is_conflict;
use super::mutation::outcome_result;
use super::mutation::valid_expectation;
use super::mutation::ensure_outcome;
use super::mutation::FenceMutationConflict;
use super::records::binding_of;
use super::records::reverse_binding_for;
use super::rules::fence_record;
use super::rules::fenced;
use super::rules::mutation_result;
use super::rules::validate_mutation;
use super::rules::verdict;
use super::types::needs_durability;
use super::types::ExportAuthorityError;
use super::types::ExportAuthorityRecord;
use super::types::ExportAuthorityRecordModel;
use super::types::ExportIdentityModel;
use super::types::ExportMutationCommand;
use super::types::ExportMutationCommandModel;
use super::types::ExportMutationExpectation;
use super::types::ExportMutationLookup;
use super::types::ExportMutationOutcome;
use super::types::ExportReverseBinding;
use super::types::ExportReverseBindingModel;
use super::types::MutationFenceToken;
use crate::outside::bytes_slice;
use crate::wire::same_bytes;
use crate::wire::same_str;
use vstd::prelude::*;
use vstd::utf8::encode_utf8;

verus! {

/// Whether the standalone export-authority profile may be used. Ordinary filesystems
/// never enable it implicitly.
#[derive(Debug, Clone, Copy, PartialEq, Eq, Structural)]
pub struct ExportProfile {
    pub guard_installed: bool,
    pub enabled: bool,
}

/// What remains to be done to enable the profile.
#[derive(Debug, Clone, Copy, PartialEq, Eq, Structural)]
pub enum EnableStep {
    /// It is enabled already.
    Done,
    /// The boot row must be initialized.
    InitializeBoot,
}

impl ExportProfile {
    /// A profile without a process guard is never enabled.
    pub open spec fn wf(self) -> bool {
        self.enabled ==> self.guard_installed
    }

    pub fn new() -> (profile: Self)
        ensures
            profile.wf(),
            !profile.guard_installed,
            !profile.enabled,
    {
        ExportProfile { guard_installed: false, enabled: false }
    }

    /// Installs the process guard. It is installed once and never replaced.
    pub fn install_process_guard(&mut self) -> (result: Result<(), ExportAuthorityError>)
        requires
            old(self).wf(),
        ensures
            final(self).wf(),
            final(self).guard_installed,
            final(self).enabled == old(self).enabled,
            result == verdict(!old(self).guard_installed, ExportAuthorityError::Conflict),
    {
        if self.guard_installed {
            return Err(ExportAuthorityError::Conflict);
        }
        self.guard_installed = true;
        Ok(())
    }

    /// Says what remains to be done to enable the profile, given whether rows of the
    /// superseded layout were found.
    pub fn begin_enable(&self, legacy_found: bool) -> (result: Result<
        EnableStep,
        ExportAuthorityError,
    >)
        ensures
            result == (if !self.guard_installed {
                Err::<EnableStep, ExportAuthorityError>(ExportAuthorityError::ProfileDisabled)
            } else if self.enabled {
                Ok(EnableStep::Done)
            } else if legacy_found {
                Err(ExportAuthorityError::MigrationRequired)
            } else {
                Ok(EnableStep::InitializeBoot)
            }),
    {
        if !self.guard_installed {
            return Err(ExportAuthorityError::ProfileDisabled);
        }
        if self.enabled {
            return Ok(EnableStep::Done);
        }
        ensure_current_schema(legacy_found)?;
        Ok(EnableStep::InitializeBoot)
    }

    /// Records that the boot row was initialized.
    pub fn finish_enable(&mut self)
        requires
            old(self).guard_installed,
        ensures
            final(self).wf(),
            final(self).enabled,
            final(self).guard_installed,
    {
        self.enabled = true;
    }

    pub fn require_enabled(&self) -> (result: Result<(), ExportAuthorityError>)
        ensures
            result == verdict(self.enabled, ExportAuthorityError::ProfileDisabled),
    {
        if self.enabled {
            Ok(())
        } else {
            Err(ExportAuthorityError::ProfileDisabled)
        }
    }

    /// What every transition and mutation needs before it begins: no rows of the
    /// superseded layout, and the profile enabled.
    pub fn admit_request(&self, legacy_found: bool) -> (result: Result<(), ExportAuthorityError>)
        ensures
            result == (if legacy_found {
                Err::<(), ExportAuthorityError>(ExportAuthorityError::MigrationRequired)
            } else {
                verdict(self.enabled, ExportAuthorityError::ProfileDisabled)
            }),
    {
        ensure_current_schema(legacy_found)?;
        self.require_enabled()
    }
}

/// Rows of the superseded layout must be migrated first.
pub fn ensure_current_schema(legacy_found: bool) -> (result: Result<(), ExportAuthorityError>)
    ensures
        result == verdict(!legacy_found, ExportAuthorityError::MigrationRequired),
{
    if legacy_found {
        Err(ExportAuthorityError::MigrationRequired)
    } else {
        Ok(())
    }
}

/// The boot row names this process.
pub open spec fn owns_boot(boot: Option<Seq<u8>>, server_boot_id: Seq<char>) -> bool {
    boot == Some(encode_utf8(server_boot_id))
}

/// The bytes of an optional value.
pub open spec fn bytes_view(bytes: Option<&[u8]>) -> Option<Seq<u8>> {
    match bytes {
        Some(bytes) => Some(bytes@),
        None => None,
    }
}

/// Whether the boot row names this process.
pub fn boot_is_own(boot: Option<&[u8]>, server_boot_id: &str) -> (own: bool)
    ensures
        own == owns_boot(bytes_view(boot), server_boot_id@),
{
    match boot {
        Some(boot) => same_bytes(boot, server_boot_id.as_bytes()),
        None => false,
    }
}

/// Whether a mutation may be prepared: the boot row still names this process, and the
/// token is current.
pub open spec fn admission_result(
    boot: Option<Seq<u8>>,
    current: Option<ExportAuthorityRecordModel>,
    token: super::types::MutationFenceTokenModel,
    now: u64,
    server_boot_id: Seq<char>,
) -> Result<(), ExportAuthorityError> {
    if owns_boot(boot, server_boot_id) {
        mutation_result(current, token, now, server_boot_id)
    } else {
        Err(ExportAuthorityError::StaleMutation)
    }
}

pub fn validate_admission(
    boot: Option<&[u8]>,
    current: Option<&ExportAuthorityRecord>,
    token: &MutationFenceToken,
    now: u64,
    server_boot_id: &str,
) -> (result: Result<(), ExportAuthorityError>)
    ensures
        result == admission_result(
            bytes_view(boot),
            match current {
                Some(record) => Some(record@),
                None => None,
            },
            token@,
            now,
            server_boot_id@,
        ),
{
    if !boot_is_own(boot, server_boot_id) {
        return Err(ExportAuthorityError::StaleMutation);
    }
    validate_mutation(current, token, now, server_boot_id)
}

/// The view of an optional binding.
pub open spec fn binding_view(binding: Option<ExportReverseBinding>) -> Option<
    ExportReverseBindingModel,
> {
    match binding {
        Some(binding) => Some(binding@),
        None => None,
    }
}

/// The two reverse rows of a record are both there and say what it says, or, before its
/// binding was initialized, are both absent.
pub open spec fn reverse_rows_agree(
    record: ExportAuthorityRecordModel,
    by_name: Option<ExportReverseBindingModel>,
    by_inode: Option<ExportReverseBindingModel>,
) -> bool {
    if record.binding_initialized {
        by_name == Some(binding_of(record)) && by_inode == Some(binding_of(record))
    } else {
        by_name is None && by_inode is None
    }
}

/// The session of a record, if there is one, was opened by this process.
pub open spec fn session_is_own(record: ExportAuthorityRecordModel, server_boot_id: Seq<char>) -> bool {
    record.active_session matches Some(session) ==> session.server_boot_id == server_boot_id
}

/// What a process sees of a durable record. The session of another process counts as
/// fenced, and so does every session once the boot row names another process.
pub open spec fn durable_result(
    record: Option<ExportAuthorityRecordModel>,
    by_name: Option<ExportReverseBindingModel>,
    by_inode: Option<ExportReverseBindingModel>,
    boot: Option<Seq<u8>>,
    server_boot_id: Seq<char>,
) -> Result<Option<ExportAuthorityRecordModel>, ExportAuthorityError> {
    match record {
        None => Ok(None),
        Some(record) => if !reverse_rows_agree(record, by_name, by_inode) {
            Err(ExportAuthorityError::Corrupt)
        } else if owns_boot(boot, server_boot_id) && session_is_own(record, server_boot_id) {
            Ok(Some(record))
        } else {
            Ok(Some(fenced(record)))
        },
    }
}

/// What this process sees of a durable record, its reverse rows and the boot row.
pub fn durable_view(
    record: Option<ExportAuthorityRecord>,
    by_name: Option<ExportReverseBinding>,
    by_inode: Option<ExportReverseBinding>,
    boot: Option<&[u8]>,
    server_boot_id: &str,
) -> (result: Result<Option<ExportAuthorityRecord>, ExportAuthorityError>)
    ensures
        match durable_result(
            super::rules::record_view(record),
            binding_view(by_name),
            binding_view(by_inode),
            bytes_view(boot),
            server_boot_id@,
        ) {
            Ok(seen) => result matches Ok(r) && super::rules::record_view(r) == seen,
            Err(error) => result matches Err(e) && e == error,
        },
{
    let record = match record {
        Some(record) => record,
        None => {
            return Ok(None);
        },
    };
    let binding = reverse_binding_for(&record);
    let agree: bool = match (record.binding_initialized, &by_name, &by_inode) {
        (true, Some(name), Some(inode)) => name.same(&binding) && inode.same(&binding),
        (false, None, None) => true,
        _ => false,
    };
    if !agree {
        return Err(ExportAuthorityError::Corrupt);
    }
    let foreign_session: bool = match &record.active_session {
        Some(session) => !same_str(&session.server_boot_id, server_boot_id),
        None => false,
    };
    if !boot_is_own(boot, server_boot_id) || foreign_session {
        return Ok(Some(fence_record(record)));
    }
    Ok(Some(record))
}

/// What to do with a mutation, once the outcome stored under its key was read.
pub enum CommitStep {
    /// Nothing is stored: admit, prepare and commit it.
    Prepare,
    /// It was committed before and needs no more.
    Replay(ExportMutationOutcome),
    /// It was committed before and must be durable before it is acknowledged.
    MakeDurable(ExportMutationOutcome),
    /// Its operation was used for something else: fence the session, then report the
    /// conflict.
    Fence(FenceMutationConflict),
}

/// Decides what to do with a mutation from the outcome stored under its key.
pub fn commit_step(
    current: Option<ExportMutationOutcome>,
    expected: ExportMutationExpectation,
) -> (result: Result<CommitStep, ExportAuthorityError>)
    ensures
        match current {
            None => result matches Ok(CommitStep::Prepare),
            Some(outcome) => if valid_expectation(expected@) && fulfils(outcome@, expected@) {
                if needs_durability(expected@.kind) {
                    result matches Ok(CommitStep::MakeDurable(o)) && o@ == outcome@
                } else {
                    result matches Ok(CommitStep::Replay(o)) && o@ == outcome@
                }
            } else if is_conflict(outcome@, expected@) {
                result matches Ok(CommitStep::Fence(conflict)) && conflict.committed_view()
                    == outcome@ && conflict.attempted_view() == expected@
            } else {
                result matches Err(e) && e == ExportAuthorityError::Corrupt
            },
        },
{
    let outcome = match current {
        Some(outcome) => outcome,
        None => {
            return Ok(CommitStep::Prepare);
        },
    };
    if ensure_outcome(&outcome, &expected).is_err() {
        let conflict = FenceMutationConflict::new(outcome, expected)?;
        return Ok(CommitStep::Fence(conflict));
    }
    if !expected.kind.requires_durability() {
        return Ok(CommitStep::Replay(outcome));
    }
    Ok(CommitStep::MakeDurable(outcome))
}

/// Accepts the outcome that was read back after a commit or a durability barrier. It
/// must be there and be the one expected.
pub fn confirm_outcome(
    found: Option<ExportMutationOutcome>,
    expected: &ExportMutationExpectation,
) -> (result: Result<ExportMutationOutcome, ExportAuthorityError>)
    ensures
        match found {
            None => result matches Err(e) && e == ExportAuthorityError::Corrupt,
            Some(outcome) => match outcome_result(outcome@, expected@) {
                Ok(_) => result matches Ok(o) && o@ == outcome@,
                Err(error) => result matches Err(e) && e == error,
            },
        },
{
    match found {
        Some(outcome) => {
            ensure_outcome(&outcome, expected)?;
            Ok(outcome)
        },
        None => Err(ExportAuthorityError::Corrupt),
    }
}

/// Looks for a replayed outcome among what is durable already. `None` asks for a
/// durability barrier.
pub fn durable_replay(
    durable: Option<ExportMutationOutcome>,
    expected: &ExportMutationExpectation,
) -> (result: Result<Option<ExportMutationOutcome>, ExportAuthorityError>)
    ensures
        match durable {
            None => result matches Ok(None),
            Some(outcome) => match outcome_result(outcome@, expected@) {
                Ok(_) => result matches Ok(Some(o)) && o@ == outcome@,
                Err(error) => result matches Err(e) && e == error,
            },
        },
{
    match durable {
        Some(outcome) => {
            ensure_outcome(&outcome, expected)?;
            Ok(Some(outcome))
        },
        None => Ok(None),
    }
}

/// Accepts the outcome that a durability barrier made durable: it must be the one
/// expected, and the one that was current before.
pub fn confirm_flushed(
    durable: Option<ExportMutationOutcome>,
    expected: &ExportMutationExpectation,
    current: &ExportMutationOutcome,
) -> (result: Result<ExportMutationOutcome, ExportAuthorityError>)
    ensures
        match durable {
            None => result matches Err(e) && e == ExportAuthorityError::Corrupt,
            Some(outcome) => match outcome_result(outcome@, expected@) {
                Ok(_) => if outcome@ == current@ {
                    result matches Ok(o) && o@ == outcome@
                } else {
                    result matches Err(e) && e == ExportAuthorityError::Corrupt
                },
                Err(error) => result matches Err(e) && e == error,
            },
        },
{
    let outcome = confirm_outcome(durable, expected)?;
    if !outcome.same(current) {
        return Err(ExportAuthorityError::Corrupt);
    }
    Ok(outcome)
}

/// What is known of a mutation from the outcome stored under its key.
pub fn lookup_mutation(
    found: Option<ExportMutationOutcome>,
    expected: &ExportMutationExpectation,
) -> (result: Result<ExportMutationLookup, ExportAuthorityError>)
    ensures
        if !valid_expectation(expected@) {
            result matches Err(e) && e == ExportAuthorityError::Invalid
        } else {
            match found {
                None => result matches Ok(ExportMutationLookup::Unknown),
                Some(outcome) => if fulfils(outcome@, expected@) {
                    result matches Ok(ExportMutationLookup::Committed(o)) && o@ == outcome@
                } else {
                    result matches Err(e) && e == ExportAuthorityError::Conflict
                },
            }
        },
{
    super::mutation::validate_expectation(expected)?;
    match found {
        Some(outcome) => {
            ensure_outcome(&outcome, expected)?;
            Ok(ExportMutationLookup::Committed(Box::new(outcome)))
        },
        None => Ok(ExportMutationLookup::Unknown),
    }
}

/// What was read of the file behind an export.
pub struct ExportFile {
    pub parent: Option<u64>,
    pub name: Option<Vec<u8>>,
    pub links: u32,
    pub size: u64,
}

/// The file is the one that the export names: in its directory, under its name alone,
/// with its size.
pub open spec fn file_is_export(file: ExportFile, export: ExportIdentityModel) -> bool {
    &&& file.parent == Some(export.nbd_directory_inode)
    &&& file.name matches Some(name) && name@ == export.name
    &&& file.links == 1
    &&& file.size == export.advertised_size
}

/// Checks the file that was read for an export. `None` stands for an inode that is not
/// a file or could not be read.
pub fn check_export_file(
    file: Option<&ExportFile>,
    token: &MutationFenceToken,
) -> (result: Result<(), ExportAuthorityError>)
    ensures
        result == verdict(
            file matches Some(file) && file_is_export(*file, token@.export),
            ExportAuthorityError::Invalid,
        ),
{
    let file = match file {
        Some(file) => file,
        None => {
            return Err(ExportAuthorityError::Invalid);
        },
    };
    let same_parent: bool = match file.parent {
        Some(parent) => parent == token.export.nbd_directory_inode,
        None => false,
    };
    let same_name: bool = match &file.name {
        Some(name) => same_bytes(name, &token.export.name),
        None => false,
    };
    if !same_parent || !same_name || file.links != 1 || file.size != token.export.advertised_size {
        return Err(ExportAuthorityError::Invalid);
    }
    Ok(())
}

/// The end of the extent that holds the last byte of a span that ends at `end`.
pub open spec fn extent_end(end: int, extent_size: int) -> int {
    ((end - 1) / extent_size) * extent_size + extent_size
}

/// A span ends within the addressable range, and so does the extent of its last byte.
pub open spec fn span_addressable(offset: u64, length: u32, extent_size: u64) -> bool {
    &&& offset + length <= u64::MAX
    &&& (length > 0 ==> extent_end(offset + length, extent_size as int) <= u64::MAX)
}

/// The end of a span that the extent store can address.
pub fn validate_extent_span(offset: u64, length: u32, extent_size: u64) -> (result: Result<
    u64,
    ExportAuthorityError,
>)
    requires
        extent_size > 0,
    ensures
        result == (if span_addressable(offset, length, extent_size) {
            Ok::<u64, ExportAuthorityError>((offset + length) as u64)
        } else {
            Err(ExportAuthorityError::Invalid)
        }),
{
    let end: u64 = match offset.checked_add(length as u64) {
        Some(end) => end,
        None => {
            return Err(ExportAuthorityError::Invalid);
        },
    };
    if length == 0 {
        return Ok(end);
    }
    let last: u64 = end - 1;
    assert((last / extent_size) * extent_size <= last) by (nonlinear_arith)
        requires
            extent_size > 0,
    ;
    let extent_start: u64 = (last / extent_size) * extent_size;
    match extent_start.checked_add(extent_size) {
        Some(_) => Ok(end),
        None => Err(ExportAuthorityError::Invalid),
    }
}

/// What a command does to the extents of a file.
#[derive(Debug, Clone, Copy, PartialEq, Eq, Structural)]
pub enum MutationPlan {
    /// Write the command's data at `offset`.
    Write { offset: u64 },
    /// Zero `length` bytes at `offset`.
    Zero { offset: u64, length: u64 },
    /// Touch no extent.
    Nothing,
}

/// A command of that offset and length stays within a file of `size` bytes and within
/// what the extent store can address.
pub open spec fn within_file(offset: u64, length: int, size: u64, extent_size: u64) -> bool {
    &&& length <= u32::MAX
    &&& span_addressable(offset, length as u32, extent_size)
    &&& offset + length <= size
}

pub open spec fn plan_result(
    command: ExportMutationCommandModel,
    size: u64,
    extent_size: u64,
) -> Result<MutationPlan, ExportAuthorityError> {
    match command {
        ExportMutationCommandModel::Write { offset, data, .. } => if within_file(
            offset,
            data.len() as int,
            size,
            extent_size,
        ) {
            Ok(MutationPlan::Write { offset })
        } else {
            Err(ExportAuthorityError::Invalid)
        },
        ExportMutationCommandModel::Trim { offset, length, .. }
        | ExportMutationCommandModel::WriteZeroes { offset, length, .. } => if within_file(
            offset,
            length as int,
            size,
            extent_size,
        ) {
            Ok(MutationPlan::Zero { offset, length: length as u64 })
        } else {
            Err(ExportAuthorityError::Invalid)
        },
        ExportMutationCommandModel::Flush => Ok(MutationPlan::Nothing),
    }
}

/// Decides what a command does to a file of `size` bytes. No command grows the file.
pub fn plan_mutation(command: &ExportMutationCommand, size: u64, extent_size: u64) -> (result:
    Result<MutationPlan, ExportAuthorityError>)
    requires
        extent_size > 0,
    ensures
        result == plan_result(command@, size, extent_size),
{
    match command {
        ExportMutationCommand::Write { offset, data, .. } => {
            let length: usize = bytes_slice(data).len();
            if length as u64 > u32::MAX as u64 {
                return Err(ExportAuthorityError::Invalid);
            }
            let end: u64 = validate_extent_span(*offset, length as u32, extent_size)?;
            if end > size {
                return Err(ExportAuthorityError::Invalid);
            }
            Ok(MutationPlan::Write { offset: *offset })
        },
        ExportMutationCommand::Trim { offset, length, .. } => plan_zero(
            *offset,
            *length,
            size,
            extent_size,
        ),
        ExportMutationCommand::WriteZeroes { offset, length, .. } => plan_zero(
            *offset,
            *length,
            size,
            extent_size,
        ),
        ExportMutationCommand::Flush => Ok(MutationPlan::Nothing),
    }
}

fn plan_zero(offset: u64, length: u32, size: u64, extent_size: u64) -> (result: Result<
    MutationPlan,
    ExportAuthorityError,
>)
    requires
        extent_size > 0,
    ensures
        result == (if within_file(offset, length as int, size, extent_size) {
            Ok::<MutationPlan, ExportAuthorityError>(
                MutationPlan::Zero { offset, length: length as u64 },
            )
        } else {
            Err(ExportAuthorityError::Invalid)
        }),
{
    let end: u64 = validate_extent_span(offset, length, extent_size)?;
    if end > size {
        return Err(ExportAuthorityError::Invalid);
    }
    Ok(MutationPlan::Zero { offset, length: length as u64 })
}

/// A process that was superseded, and a process that sees another's session, see no
/// session: no token of it is admitted.
pub proof fn law_superseded_process_sees_no_session(
    record: ExportAuthorityRecordModel,
    by_name: Option<ExportReverseBindingModel>,
    by_inode: Option<ExportReverseBindingModel>,
    boot: Option<Seq<u8>>,
    server_boot_id: Seq<char>,
)
    requires
        !owns_boot(boot, server_boot_id) || !session_is_own(record, server_boot_id),
    ensures
        durable_result(Some(record), by_name, by_inode, boot, server_boot_id) matches Ok(Some(seen))
            ==> {
            &&& seen.active_session is None
            &&& seen.rejected_through_placement_epoch >= seen.authority.placement_epoch
            &&& seen.export == record.export
        },
{
}

/// A planned mutation lies within the file.
pub proof fn law_plan_stays_within_file(
    command: ExportMutationCommandModel,
    size: u64,
    extent_size: u64,
)
    requires
        extent_size > 0,
    ensures
        plan_result(command, size, extent_size) matches Ok(MutationPlan::Write { offset }) ==> offset
            + command.data().len() <= size,
        plan_result(command, size, extent_size) matches Ok(MutationPlan::Zero { offset, length })
            ==> offset + length <= size,
{
}

} // verus!
