//! What tells two genesis commands, records or receipts apart.

use super::types::GenesisCommand;
use super::types::GenesisDomainRecord;
use super::types::GenesisDurabilityReceipt;
use crate::outside::contents;
use vstd::prelude::*;

verus! {

/// Two values of `GenesisCommand` are the same exactly if every field is.
pub proof fn law_genesis_command_is_its_fields(left: GenesisCommand, right: GenesisCommand)
    ensures
        left@ == right@ <==> {
            &&& left.operation@ == right.operation@
            &&& left.request_digest@ == right.request_digest@
            &&& left.actor@ == right.actor@
            &&& left.actor_generation == right.actor_generation
            &&& left.export_name@ == right.export_name@
            &&& left.advertised_size == right.advertised_size
            &&& left.root_digest@ == right.root_digest@
            &&& contents(left.root_bytes) == contents(right.root_bytes)
        },
{
}

/// Two values of `GenesisDomainRecord` are the same exactly if every field is.
pub proof fn law_genesis_domain_record_is_its_fields(left: GenesisDomainRecord, right: GenesisDomainRecord, same: bool)
    requires
        call_ensures(GenesisDomainRecord::same, (&left, &right), same),
    ensures
        left@ == right@ <==> {
            &&& left.workspace_id@ == right.workspace_id@
            &&& left.actor@ == right.actor@
            &&& left.actor_generation == right.actor_generation
            &&& left.request_digest@ == right.request_digest@
            &&& left.root_digest@ == right.root_digest@
            &&& left.root_object_key@ == right.root_object_key@
            &&& left.export@ == right.export@
        },
        same == (left@ == right@),
{
}

/// Two values of `GenesisDurabilityReceipt` are the same exactly if every field is.
pub proof fn law_genesis_durability_receipt_is_its_fields(left: GenesisDurabilityReceipt, right: GenesisDurabilityReceipt)
    ensures
        left@ == right@ <==> {
            &&& left.record@ == right.record@
            &&& left.writer_epoch == right.writer_epoch
            &&& left.durable_seq == right.durable_seq
        },
{
}

} // verus!
