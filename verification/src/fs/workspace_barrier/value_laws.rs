//! What tells two heads, commands or receipts apart.

use super::types::BarrierCommand;
use super::types::BarrierDurabilityReceipt;
use super::types::BarrierGenesis;
use super::types::WorkspaceHead;
use super::types::WorkspaceHeadRecord;
use crate::outside::contents;
use vstd::prelude::*;

verus! {

/// Two values of `WorkspaceHead` are the same exactly if every field is.
pub proof fn law_workspace_head_is_its_fields(left: WorkspaceHead, right: WorkspaceHead, same: bool)
    requires
        call_ensures(WorkspaceHead::same, (&left, &right), same),
    ensures
        left@ == right@ <==> {
            &&& left.workspace_id@ == right.workspace_id@
            &&& left.base_root_digest@ == right.base_root_digest@
            &&& left.base_root_position == right.base_root_position
            &&& left.committed_tail_position == right.committed_tail_position
            &&& left.tail_chain_digest@ == right.tail_chain_digest@
            &&& left.workspace_version == right.workspace_version
            &&& left.object_lineage@ == right.object_lineage@
        },
        same == (left@ == right@),
{
}

/// Two values of `WorkspaceHeadRecord` are the same exactly if every field is.
pub proof fn law_workspace_head_record_is_its_fields(left: WorkspaceHeadRecord, right: WorkspaceHeadRecord, same: bool)
    requires
        call_ensures(WorkspaceHeadRecord::same, (&left, &right), same),
    ensures
        left@ == right@ <==> {
            &&& left.head@ == right.head@
            &&& left.last_barrier_request_id is Some == right.last_barrier_request_id is Some
            &&& left.last_barrier_request_id matches Some(x) ==> (right.last_barrier_request_id matches Some(y) && x@ == y@)
            &&& left.last_barrier_request_digest is Some == right.last_barrier_request_digest is Some
            &&& left.last_barrier_request_digest matches Some(x) ==> (right.last_barrier_request_digest matches Some(y) && x@ == y@)
        },
        same == (left@ == right@),
{
}

/// Two values of `BarrierGenesis` are the same exactly if every field is.
pub proof fn law_barrier_genesis_is_its_fields(left: BarrierGenesis, right: BarrierGenesis)
    ensures
        left@ == right@ <==> {
            &&& left.workspace_id@ == right.workspace_id@
            &&& left.actor@ == right.actor@
            &&& left.actor_generation == right.actor_generation
            &&& left.home_cell@ == right.home_cell@
            &&& left.object_lineage@ == right.object_lineage@
            &&& left.storage_shard_id@ == right.storage_shard_id@
            &&& left.storage_routing_revision == right.storage_routing_revision
            &&& left.root_digest@ == right.root_digest@
            &&& left.export@ == right.export@
        },
{
}

/// Two values of `BarrierCommand` are the same exactly if every field is.
pub proof fn law_barrier_command_is_its_fields(left: BarrierCommand, right: BarrierCommand)
    ensures
        left@ == right@ <==> {
            &&& left.operation@ == right.operation@
            &&& left.request_digest@ == right.request_digest@
            &&& left.token@ == right.token@
            &&& left.expected_head_digest@ == right.expected_head_digest@
            &&& left.storage_shard_id@ == right.storage_shard_id@
            &&& left.storage_routing_revision == right.storage_routing_revision
        },
{
}

/// Two values of `BarrierDurabilityReceipt` are the same exactly if every field is.
pub proof fn law_barrier_durability_receipt_is_its_fields(left: BarrierDurabilityReceipt, right: BarrierDurabilityReceipt, same: bool)
    requires
        call_ensures(BarrierDurabilityReceipt::same, (&left, &right), same),
    ensures
        left@ == right@ <==> {
            &&& left.workspace_id@ == right.workspace_id@
            &&& left.request_id@ == right.request_id@
            &&& left.request_digest@ == right.request_digest@
            &&& contents(left.effect_claim) == contents(right.effect_claim)
            &&& left.token@ == right.token@
            &&& left.expected_head_digest@ == right.expected_head_digest@
            &&& left.head@ == right.head@
            &&& left.barrier_id@ == right.barrier_id@
            &&& left.included_write_sequence == right.included_write_sequence
            &&& left.zerofs_writer_epoch == right.zerofs_writer_epoch
            &&& left.zerofs_manifest_id == right.zerofs_manifest_id
            &&& left.zerofs_durable_sequence == right.zerofs_durable_sequence
            &&& left.storage_shard_id@ == right.storage_shard_id@
            &&& left.storage_routing_revision == right.storage_routing_revision
            &&& left.committed_at_unix_seconds == right.committed_at_unix_seconds
            &&& left.committed_at_nanos == right.committed_at_nanos
            &&& left.receipt_digest@ == right.receipt_digest@
        },
        same == (left@ == right@),
{
}

} // verus!
