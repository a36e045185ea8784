//! What the export authority lets a request do to a file, said of what goes in and what
//! comes out.

use super::admission::boot_is_own;
use super::admission::check_export_file;
use super::admission::durable_view;
use super::admission::ensure_current_schema;
use super::admission::plan_mutation;
use super::admission::validate_admission;
use super::admission::validate_extent_span;
use super::admission::EnableStep;
use super::admission::ExportFile;
use super::admission::ExportProfile;
use super::admission::MutationPlan;
use super::rules::fence_record;
use super::rules::validate_mutation;
use super::types::ExportAuthorityError;
use super::types::ExportAuthorityRecord;
use super::types::ExportMutationCommand;
use super::types::ExportReverseBinding;
use super::types::MutationFenceToken;
use crate::outside::contents;
use vstd::arithmetic::div_mod::lemma_fundamental_div_mod;
use vstd::arithmetic::div_mod::lemma_fundamental_div_mod_converse;
use vstd::prelude::*;
use vstd::utf8::encode_utf8;

verus! {

/// A planned write goes to the offset that the command names, and a planned zeroing covers
/// exactly the command's offset and length; a flush touches nothing, and nothing else
/// does that.
pub proof fn law_plan_is_where_the_command_says(
    command: &ExportMutationCommand,
    size: u64,
    extent_size: u64,
    plan: MutationPlan,
)
    requires
        call_ensures(plan_mutation, (command, size, extent_size), Ok(plan)),
    ensures
        *command matches ExportMutationCommand::Write { offset, .. } ==> plan == (
        MutationPlan::Write { offset }),
        *command matches ExportMutationCommand::Trim { offset, length, .. } ==> plan == (
        MutationPlan::Zero { offset, length: length as u64 }),
        *command matches ExportMutationCommand::WriteZeroes { offset, length, .. } ==> plan == (
        MutationPlan::Zero { offset, length: length as u64 }),
        *command is Flush ==> plan is Nothing,
{
}

/// When a command is planned: a flush always, and any other command exactly if it ends
/// within the file, has a length that four bytes can hold, and the extent that holds its last
/// byte ends at an offset. `start` is where that extent begins. Every other command is
/// invalid.
pub proof fn law_plan_is_owed_within_the_file(
    command: &ExportMutationCommand,
    size: u64,
    extent_size: u64,
    start: int,
    result: Result<MutationPlan, ExportAuthorityError>,
)
    requires
        call_ensures(plan_mutation, (command, size, extent_size), result),
        extent_size > 0,
        start % (extent_size as int) == 0,
        ({
            let end = match *command {
                ExportMutationCommand::Write { offset, data, .. } => offset + contents(data).len(),
                ExportMutationCommand::Trim { offset, length, .. } => offset + length,
                ExportMutationCommand::WriteZeroes { offset, length, .. } => offset + length,
                ExportMutationCommand::Flush => 0,
            };
            start < end <= start + extent_size || end == 0
        }),
    ensures
        *command is Flush ==> result is Ok,
        result matches Err(e) ==> e == ExportAuthorityError::Invalid,
        *command matches ExportMutationCommand::Write { offset, data, .. } ==> {
            let length = contents(data).len();
            result is Ok <==> {
                &&& length <= u32::MAX
                &&& offset + length <= size
                &&& length > 0 ==> start + extent_size <= u64::MAX
            }
        },
        *command matches ExportMutationCommand::Trim { offset, length, .. } ==> (result is Ok <==> {
            &&& offset + length <= size
            &&& length > 0 ==> start + extent_size <= u64::MAX
        }),
        *command matches ExportMutationCommand::WriteZeroes { offset, length, .. } ==> (result is Ok
            <==> {
            &&& offset + length <= size
            &&& length > 0 ==> start + extent_size <= u64::MAX
        }),
{
    let end = match *command {
        ExportMutationCommand::Write { offset, data, .. } => offset + contents(data).len(),
        ExportMutationCommand::Trim { offset, length, .. } => offset + length,
        ExportMutationCommand::WriteZeroes { offset, length, .. } => offset + length,
        ExportMutationCommand::Flush => 0,
    };
    if end > 0 {
        lemma_last_extent(end, extent_size as int, start);
    }
}

/// The extent of the last byte before `end` begins at `start`.
proof fn lemma_last_extent(end: int, extent_size: int, start: int)
    requires
        extent_size > 0,
        start % extent_size == 0,
        start < end <= start + extent_size,
    ensures
        ((end - 1) / extent_size) * extent_size == start,
{
    lemma_fundamental_div_mod(start, extent_size);
    let k = start / extent_size;
    assert(k * extent_size == extent_size * k) by (nonlinear_arith);
    lemma_fundamental_div_mod_converse(end - 1, extent_size, k, end - 1 - start);
}

/// A span ends right behind its last byte. One that cannot be addressed is invalid.
pub proof fn law_span_ends_behind_its_last_byte(
    offset: u64,
    length: u32,
    extent_size: u64,
    start: int,
    result: Result<u64, ExportAuthorityError>,
)
    requires
        call_ensures(validate_extent_span, (offset, length, extent_size), result),
        extent_size > 0,
        start % (extent_size as int) == 0,
        start < offset + length <= start + extent_size || offset + length == 0,
    ensures
        result matches Ok(end) ==> end == offset + length,
        result matches Err(e) ==> e == ExportAuthorityError::Invalid,
        result is Ok <==> offset + length <= u64::MAX && (length > 0 ==> start + extent_size
            <= u64::MAX),
{
    if offset + length > 0 {
        lemma_last_extent(offset + length, extent_size as int, start);
    }
}

/// A file is the one behind an export exactly if it lies in the export's directory, under
/// its name and no other, with its size.
pub proof fn law_export_file_is_the_named_one(
    file: Option<&ExportFile>,
    token: &MutationFenceToken,
    result: Result<(), ExportAuthorityError>,
)
    requires
        call_ensures(check_export_file, (file, token), result),
    ensures
        result is Ok <==> (file matches Some(f) && {
            &&& f.parent == Some(token.export.nbd_directory_inode)
            &&& f.name matches Some(name) && name@ == token.export.name@
            &&& f.links == 1
            &&& f.size == token.export.advertised_size
        }),
        result matches Err(e) ==> e == ExportAuthorityError::Invalid,
{
}

/// A process is current exactly if the boot row holds its name.
pub proof fn law_boot_row_names_one_process(
    boot: Option<&[u8]>,
    server_boot_id: &str,
    own: bool,
)
    requires
        call_ensures(boot_is_own, (boot, server_boot_id), own),
    ensures
        own <==> (boot matches Some(row) && row@ == encode_utf8(server_boot_id@)),
{
}

/// A mutation is admitted exactly if the boot row names this process and the token is
/// admitted by the record. A superseded process is told that its token is stale, and
/// every other refusal is the record's.
pub proof fn law_admission_needs_boot_and_token(
    boot: Option<&[u8]>,
    current: Option<&ExportAuthorityRecord>,
    token: &MutationFenceToken,
    now: u64,
    server_boot_id: &str,
    own: bool,
    fence: Result<(), ExportAuthorityError>,
    result: Result<(), ExportAuthorityError>,
)
    requires
        call_ensures(validate_admission, (boot, current, token, now, server_boot_id), result),
        call_ensures(boot_is_own, (boot, server_boot_id), own),
        call_ensures(validate_mutation, (current, token, now, server_boot_id), fence),
    ensures
        own ==> result == fence,
        !own ==> result == Err::<(), ExportAuthorityError>(ExportAuthorityError::StaleMutation),
{
}

/// What is durable is seen as it is by the process that the boot row and the session name,
/// and as fenced by every other. A record whose reverse rows do not say what it says is
/// corrupt, and no record is no record.
pub proof fn law_durable_record_is_seen_as_it_is_or_fenced(
    record: Option<ExportAuthorityRecord>,
    by_name: Option<ExportReverseBinding>,
    by_inode: Option<ExportReverseBinding>,
    boot: Option<&[u8]>,
    server_boot_id: &str,
    own: bool,
    fenced: ExportAuthorityRecord,
    result: Result<Option<ExportAuthorityRecord>, ExportAuthorityError>,
)
    requires
        call_ensures(durable_view, (record, by_name, by_inode, boot, server_boot_id), result),
        call_ensures(boot_is_own, (boot, server_boot_id), own),
        record matches Some(r) ==> call_ensures(fence_record, (r,), fenced),
    ensures
        record is None ==> (result matches Ok(None)),
        record matches Some(r) ==> {
            let says = |row: Option<ExportReverseBinding>|
                row matches Some(b) && b.workspace_id@ == r.workspace_id@ && b.actor@
                    == r.authority.actor@ && b.actor_generation == r.authority.actor_generation
                    && b.export@ == r.export@;
            let agree = if r.binding_initialized {
                says(by_name) && says(by_inode)
            } else {
                by_name is None && by_inode is None
            };
            let foreign = r.active_session matches Some(s) && s.server_boot_id@
                != server_boot_id@;
            &&& !agree ==> (result matches Err(ExportAuthorityError::Corrupt))
            &&& agree && own && !foreign ==> (result matches Ok(Some(seen)) && seen@ == r@)
            &&& agree && !(own && !foreign) ==> (result matches Ok(Some(seen)) && seen@
                == fenced@)
        },
{
}

/// A fenced record has no session and admits no placement up to its own; all else stays.
pub proof fn law_fenced_record_rejects_its_placement(
    record: ExportAuthorityRecord,
    fenced: ExportAuthorityRecord,
)
    requires
        call_ensures(fence_record, (record,), fenced),
    ensures
        fenced.active_session is None,
        fenced.rejected_through_placement_epoch >= record.rejected_through_placement_epoch,
        fenced.rejected_through_placement_epoch >= record.authority.placement_epoch,
        fenced.rejected_through_placement_epoch == record.rejected_through_placement_epoch
            || fenced.rejected_through_placement_epoch == record.authority.placement_epoch,
        fenced.workspace_id@ == record.workspace_id@,
        fenced.export@ == record.export@,
        fenced.authority@ == record.authority@,
        fenced.binding_initialized == record.binding_initialized,
{
}

/// A guard is installed once: the first time succeeds, every other is a conflict, and what
/// was enabled stays so.
pub proof fn law_guard_is_installed_once(
    profile: &mut ExportProfile,
    result: Result<(), ExportAuthorityError>,
)
    requires
        call_ensures(ExportProfile::install_process_guard, (profile,), result),
    ensures
        final(profile).guard_installed,
        final(profile).enabled == old(profile).enabled,
        result is Ok <==> !old(profile).guard_installed,
        result matches Err(e) ==> e == ExportAuthorityError::Conflict,
{
}

/// A new profile has no guard and serves nothing; finishing to enable one that has a guard
/// enables it and keeps the guard.
pub proof fn law_profile_is_enabled_explicitly(
    fresh: ExportProfile,
    profile: &mut ExportProfile,
)
    requires
        call_ensures(ExportProfile::new, (), fresh),
        call_ensures(ExportProfile::finish_enable, (profile,), ()),
    ensures
        !fresh.guard_installed && !fresh.enabled,
        final(profile).enabled && final(profile).guard_installed,
{
}

/// A profile is enabled behind a guard only, and not over rows of the superseded layout;
/// one that is enabled needs nothing more.
pub proof fn law_enabling_needs_guard_and_schema(
    profile: &ExportProfile,
    legacy_found: bool,
    result: Result<EnableStep, ExportAuthorityError>,
)
    requires
        call_ensures(ExportProfile::begin_enable, (profile, legacy_found), result),
    ensures
        (result matches Err(ExportAuthorityError::ProfileDisabled)) <==> !profile.guard_installed,
        (result matches Ok(EnableStep::Done)) <==> profile.guard_installed && profile.enabled,
        (result matches Err(ExportAuthorityError::MigrationRequired)) <==> profile.guard_installed
            && !profile.enabled && legacy_found,
        (result matches Ok(EnableStep::InitializeBoot)) <==> profile.guard_installed
            && !profile.enabled && !legacy_found,
{
}

/// A request is admitted exactly if the profile is enabled and no rows of the superseded
/// layout were found; those are told first.
pub proof fn law_request_needs_schema_and_profile(
    profile: &ExportProfile,
    legacy_found: bool,
    admitted: Result<(), ExportAuthorityError>,
    enabled: Result<(), ExportAuthorityError>,
    current: Result<(), ExportAuthorityError>,
)
    requires
        call_ensures(ExportProfile::admit_request, (profile, legacy_found), admitted),
        call_ensures(ExportProfile::require_enabled, (profile,), enabled),
        call_ensures(ensure_current_schema, (legacy_found,), current),
    ensures
        enabled is Ok <==> profile.enabled,
        enabled matches Err(e) ==> e == ExportAuthorityError::ProfileDisabled,
        current is Ok <==> !legacy_found,
        current matches Err(e) ==> e == ExportAuthorityError::MigrationRequired,
        legacy_found ==> admitted == current,
        !legacy_found ==> admitted == enabled,
{
}

} // verus!
