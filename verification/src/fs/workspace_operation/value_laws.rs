//! What tells two operations apart.

use super::types::WorkspaceOperationKey;
use super::types::WorkspaceOperationRecord;
use vstd::prelude::*;

verus! {

/// Two values of `WorkspaceOperationKey` are the same exactly if every field is.
pub proof fn law_workspace_operation_key_is_its_fields(left: WorkspaceOperationKey, right: WorkspaceOperationKey)
    ensures
        left@ == right@ <==> {
            &&& left.workspace_id@ == right.workspace_id@
            &&& left.kind == right.kind
            &&& left.request_id@ == right.request_id@
        },
{
}

/// Two values of `WorkspaceOperationRecord` are the same exactly if every field is.
pub proof fn law_workspace_operation_record_is_its_fields(left: WorkspaceOperationRecord, right: WorkspaceOperationRecord, same: bool)
    requires
        call_ensures(WorkspaceOperationRecord::same, (&left, &right), same),
    ensures
        left@ == right@ <==> {
            &&& left.request_digest@ == right.request_digest@
            &&& left.state@ == right.state@
        },
        same == (left@ == right@),
{
}

} // verus!
