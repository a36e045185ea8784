//! Which calls an injected fault hits, said of what goes in and what comes out.

use crate::fault_store::is_manifest;
use crate::fault_store::kept_length;
use crate::fault_store::FaultControls;
use crate::fault_store::FaultModel;
use crate::fault_store::InjectedFault;
use vstd::prelude::*;

verus! {

/// What a counter says after one more event.
pub open spec fn one_more(before: usize, after: usize) -> bool {
    if before < usize::MAX {
        after == before + 1
    } else {
        after == 0
    }
}

/// What is left of a budget that one unit was asked of.
pub open spec fn one_fewer(before: usize, after: usize) -> bool {
    if before > 0 {
        after == before - 1
    } else {
        after == 0
    }
}

/// A manifest is what has a name that ends in `.manifest`, whatever stands before.
pub proof fn law_manifest_is_told_by_its_ending(location: &str, manifest: bool)
    requires
        call_ensures(is_manifest, (location,), manifest),
    ensures
        manifest <==> exists|before: Seq<char>| location@ == #[trigger] (before + ".manifest"@),
{
    reveal_strlit(".manifest");
    if manifest {
        let before = location@.subrange(0, location@.len() - 9);
        assert(location@ =~= before + ".manifest"@);
    }
    if exists|before: Seq<char>| location@ == #[trigger] (before + ".manifest"@) {
        let before = choose|before: Seq<char>| location@ == #[trigger] (before + ".manifest"@);
        assert(location@.subrange(before.len() as int, location@.len() as int) =~= ".manifest"@);
    }
}

/// Nothing fails and nothing is counted in new controls.
pub proof fn law_new_controls_fail_nothing(controls: FaultControls)
    requires
        call_ensures(FaultControls::new, (), controls),
    ensures
        !controls@.partition_writes,
        controls@.fail_next_gets == 0 && controls@.fail_next_puts == 0,
        controls@.fail_after_puts == 0 && controls@.fail_after_manifest_puts == 0,
        controls@.truncate_next_gets == 0 && !controls@.block_next_manifest_after_apply,
        controls@.maximum_puts == 0 && controls@.maximum_put_bytes == 0,
        controls@.gets == 0 && controls@.puts == 0,
        controls@.manifest_puts == 0 && controls@.manifest_response_losses == 0,
        controls@.attempted_put_bytes == 0 && controls@.put_locations.len() == 0,
{
}

/// Which puts are forwarded: one exactly if it is within the number and the bytes that are
/// allowed, no partition holds and no failure is due. A put that fails says why, and the
/// limits are asked before the faults.
pub proof fn law_put_is_forwarded_within_limits(
    controls: &mut FaultControls,
    location: &str,
    bytes: usize,
    manifest: bool,
    result: Result<bool, InjectedFault>,
)
    requires
        call_ensures(FaultControls::begin_put, (controls, location, bytes), result),
        call_ensures(is_manifest, (location,), manifest),
        old(controls)@.puts < usize::MAX,
    ensures
        ({
            let before = old(controls)@;
            let too_many = before.maximum_puts > 0 && before.puts + 1 > before.maximum_puts;
            let total = before.attempted_put_bytes + bytes;
            let too_large = before.maximum_put_bytes > 0 && total > before.maximum_put_bytes;
            &&& too_many ==> (result matches Err(InjectedFault::PutCountLimit))
            &&& !too_many && total > usize::MAX ==> (result matches Err(
                InjectedFault::PutByteOverflow,
            ))
            &&& !too_many && total <= usize::MAX && too_large ==> (result matches Err(
                InjectedFault::PutByteLimit,
            ))
            &&& !too_many && total <= usize::MAX && !too_large && (before.partition_writes
                || before.fail_next_puts > 0) ==> (result matches Err(InjectedFault::Put))
            &&& !too_many && total <= usize::MAX && !too_large && !before.partition_writes
                && before.fail_next_puts == 0 ==> result == Ok::<bool, InjectedFault>(manifest)
        }),
{
}

/// What a put leaves behind: it is counted and noted with its place whether or not it is
/// forwarded, its bytes are charged unless there are too many puts, a manifest is counted
/// once it is within the limits, and a failure that was due is spent. Nothing else changes.
pub proof fn law_put_is_counted(
    controls: &mut FaultControls,
    location: &str,
    bytes: usize,
    manifest: bool,
    result: Result<bool, InjectedFault>,
)
    requires
        call_ensures(FaultControls::begin_put, (controls, location, bytes), result),
        call_ensures(is_manifest, (location,), manifest),
    ensures
        ({
            let before = old(controls)@;
            let after = final(controls)@;
            let counted_out = result matches Err(InjectedFault::PutCountLimit);
            let overflowed = result matches Err(InjectedFault::PutByteOverflow);
            let charged = !counted_out && !overflowed;
            let within = charged && !(result matches Err(InjectedFault::PutByteLimit));
            &&& one_more(before.puts, after.puts)
            &&& after.put_locations == before.put_locations.push("put_opts "@ + location@)
            &&& charged ==> after.attempted_put_bytes == before.attempted_put_bytes + bytes
            &&& !charged ==> after.attempted_put_bytes == before.attempted_put_bytes
            &&& within && manifest ==> one_more(before.manifest_puts, after.manifest_puts)
            &&& !(within && manifest) ==> after.manifest_puts == before.manifest_puts
            &&& within && !before.partition_writes ==> one_fewer(
                before.fail_next_puts,
                after.fail_next_puts,
            )
            &&& !within || before.partition_writes ==> after.fail_next_puts
                == before.fail_next_puts
            &&& after == (FaultModel {
                puts: after.puts,
                put_locations: after.put_locations,
                attempted_put_bytes: after.attempted_put_bytes,
                manifest_puts: after.manifest_puts,
                fail_next_puts: after.fail_next_puts,
                ..before
            })
        }),
{
}

/// A put that was applied loses its reply exactly if a loss is due, of any put or, for a
/// manifest, of a manifest. Each loss that is due is spent by one reply, and a loss on the
/// manifests' budget is counted.
pub proof fn law_reply_is_lost_if_due(
    controls: &mut FaultControls,
    manifest: bool,
    result: Result<(), InjectedFault>,
)
    requires
        call_ensures(FaultControls::finish_put, (controls, manifest), result),
    ensures
        ({
            let before = old(controls)@;
            let after = final(controls)@;
            let of_manifest = manifest && before.fail_after_manifest_puts > 0;
            &&& result is Err <==> before.fail_after_puts > 0 || of_manifest
            &&& result matches Err(fault) ==> fault is PutResponse
            &&& one_fewer(before.fail_after_puts, after.fail_after_puts)
            &&& manifest ==> one_fewer(
                before.fail_after_manifest_puts,
                after.fail_after_manifest_puts,
            )
            &&& !manifest ==> after.fail_after_manifest_puts == before.fail_after_manifest_puts
            &&& of_manifest ==> one_more(
                before.manifest_response_losses,
                after.manifest_response_losses,
            )
            &&& !of_manifest ==> after.manifest_response_losses
                == before.manifest_response_losses
            &&& after == (FaultModel {
                fail_after_puts: after.fail_after_puts,
                fail_after_manifest_puts: after.fail_after_manifest_puts,
                manifest_response_losses: after.manifest_response_losses,
                ..before
            })
        }),
{
}

/// A manifest is held once, the next one after it was asked for; nothing else is.
pub proof fn law_one_manifest_is_held(controls: &mut FaultControls, manifest: bool, held: bool)
    requires
        call_ensures(FaultControls::take_manifest_block, (controls, manifest), held),
    ensures
        held <==> manifest && old(controls)@.block_next_manifest_after_apply,
        held ==> !final(controls)@.block_next_manifest_after_apply,
        !held ==> final(controls)@ == old(controls)@,
        final(controls)@ == (FaultModel {
            block_next_manifest_after_apply:
                final(controls)@.block_next_manifest_after_apply,
            ..old(controls)@
        }),
{
}

/// A read fails exactly if a failure is due, which it spends, and is counted either way.
pub proof fn law_read_fails_if_due(controls: &mut FaultControls, result: Result<(), InjectedFault>)
    requires
        call_ensures(FaultControls::begin_get, (controls,), result),
    ensures
        result is Err <==> old(controls)@.fail_next_gets > 0,
        result matches Err(fault) ==> fault is Get,
        one_more(old(controls)@.gets, final(controls)@.gets),
        one_fewer(old(controls)@.fail_next_gets, final(controls)@.fail_next_gets),
        final(controls)@ == (FaultModel {
            gets: final(controls)@.gets,
            fail_next_gets: final(controls)@.fail_next_gets,
            ..old(controls)@
        }),
{
}

/// A read of a body is cut short exactly if that is due, by as much as was asked for, and
/// spends it; a read of the metadata never is. What is kept of a body and what is cut add
/// up to it, unless more is cut than there is.
pub proof fn law_body_is_cut_short_if_due(
    controls: &mut FaultControls,
    head: bool,
    cut: Option<usize>,
    length: usize,
    by: usize,
    kept: usize,
)
    requires
        call_ensures(FaultControls::take_truncation, (controls, head), cut),
        call_ensures(kept_length, (length, by), kept),
    ensures
        cut is Some <==> !head && old(controls)@.truncate_next_gets > 0,
        cut matches Some(n) ==> n == old(controls)@.truncate_bytes,
        head ==> final(controls)@ == old(controls)@,
        !head ==> one_fewer(
            old(controls)@.truncate_next_gets,
            final(controls)@.truncate_next_gets,
        ),
        final(controls)@ == (FaultModel {
            truncate_next_gets: final(controls)@.truncate_next_gets,
            ..old(controls)@
        }),
        by <= length ==> kept + by == length,
        by > length ==> kept == 0,
{
}

/// Deletions, copies and uploads in parts fail exactly while a partition holds, and an
/// upload in parts also while the number of puts is limited.
pub proof fn law_partition_stops_every_write(
    controls: &FaultControls,
    deleted: Result<(), InjectedFault>,
    copied: Result<(), InjectedFault>,
    multipart: Result<(), InjectedFault>,
)
    requires
        call_ensures(FaultControls::check_delete, (controls,), deleted),
        call_ensures(FaultControls::check_copy, (controls,), copied),
        call_ensures(FaultControls::begin_multipart, (controls,), multipart),
    ensures
        deleted is Err <==> controls@.partition_writes,
        copied is Err <==> controls@.partition_writes,
        multipart is Err <==> controls@.partition_writes || controls@.maximum_puts > 0,
        deleted matches Err(fault) ==> fault is Delete,
        copied matches Err(fault) ==> fault is Copy,
        multipart matches Err(fault) ==> (if controls@.maximum_puts > 0 {
            fault is MultipartBudget
        } else {
            fault is PutMultipart
        }),
{
}

/// Each control sets what it names, and nothing else.
pub proof fn law_each_control_sets_its_own(
    a: &mut FaultControls,
    b: &mut FaultControls,
    c: &mut FaultControls,
    d: &mut FaultControls,
    e: &mut FaultControls,
    on: bool,
    n: usize,
)
    requires
        call_ensures(FaultControls::partition_writes, (a, on), ()),
        call_ensures(FaultControls::fail_gets, (b, n), ()),
        call_ensures(FaultControls::fail_puts, (c, n), ()),
        call_ensures(FaultControls::fail_puts_after_apply, (d, n), ()),
        call_ensures(FaultControls::fail_manifest_puts_after_apply, (e, n), ()),
    ensures
        final(a)@ == (FaultModel { partition_writes: on, ..old(a)@ }),
        final(b)@ == (FaultModel { fail_next_gets: n, ..old(b)@ }),
        final(c)@ == (FaultModel { fail_next_puts: n, ..old(c)@ }),
        final(d)@ == (FaultModel { fail_after_puts: n, ..old(d)@ }),
        final(e)@ == (FaultModel { fail_after_manifest_puts: n, ..old(e)@ }),
{
}

/// The controls of more than one value set those, and nothing else.
pub proof fn law_limits_and_cuts_are_set_together(
    a: &mut FaultControls,
    b: &mut FaultControls,
    c: &mut FaultControls,
    n: usize,
    bytes: usize,
)
    requires
        call_ensures(FaultControls::truncate_gets, (a, n, bytes), ()),
        call_ensures(FaultControls::set_put_limits, (b, n, bytes), ()),
        call_ensures(FaultControls::block_manifest_after_apply, (c,), ()),
    ensures
        final(a)@ == (FaultModel { truncate_next_gets: n, truncate_bytes: bytes, ..old(a)@ }),
        final(b)@ == (FaultModel { maximum_puts: n, maximum_put_bytes: bytes, ..old(b)@ }),
        final(c)@ == (FaultModel { block_next_manifest_after_apply: true, ..old(c)@ }),
{
}

/// Each counter is told as it stands.
pub proof fn law_counters_are_told_as_they_stand(
    controls: &FaultControls,
    gets: usize,
    puts: usize,
    manifests: usize,
    losses: usize,
    locations: &Vec<String>,
)
    requires
        call_ensures(FaultControls::get_count, (controls,), gets),
        call_ensures(FaultControls::put_count, (controls,), puts),
        call_ensures(FaultControls::manifest_put_count, (controls,), manifests),
        call_ensures(FaultControls::manifest_response_loss_count, (controls,), losses),
        call_ensures(FaultControls::put_locations, (controls,), locations),
    ensures
        gets == controls@.gets,
        puts == controls@.puts,
        manifests == controls@.manifest_puts,
        losses == controls@.manifest_response_losses,
        locations@.len() == controls@.put_locations.len(),
        forall|i: int|
            0 <= i < locations@.len() ==> (#[trigger] locations@[i])@
                == controls@.put_locations[i],
{
    let told = locations@.map_values(|location: String| location@);
    assert forall|i: int| 0 <= i < locations@.len() implies (#[trigger] locations@[i])@
        == controls@.put_locations[i] by {
        assert(told[i] == locations@[i]@);
    }
}

} // verus!
