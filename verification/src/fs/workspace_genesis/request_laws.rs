//! When a genesis is valid, what it plans and what it does with each answer it gets.

use super::codec::content_object_key;
use super::codec::decode_record;
use super::codec::encode_record;
use super::codec::validate_id;
use super::codec::validate_record;
use super::laws::law_genesis_roundtrips;
use super::laws::lemma_same_payload;
use super::run::GenesisAction;
use super::run::GenesisEvent;
use super::run::GenesisPhaseModel;
use super::run::GenesisRun;
use super::store::check_object_readback;
use super::store::encoded_reverse_bindings;
use super::store::plan_record;
use super::store::read_record_current;
use super::store::reverse_binding;
use super::store::validate_activation_genesis;
use super::store::validate_command;
use super::store::VerifiedGenesisInput;
use super::store::VerifiedGenesisTerminal;
use super::store::WorkspaceGenesisRequest;
use super::store::WorkspaceGenesisStore;
use super::types::ContentDigest;
use super::types::GenesisCommand;
use super::types::GenesisDomainRecord;
use super::types::GenesisDurabilityReceipt;
use super::types::GenesisError;
use super::types::GenesisMaterializeModel;
use super::types::GenesisMaterializeResult;
use crate::fs::export_authority::records::encode_reverse_binding;
use crate::fs::export_authority::records::reverse_binding_keys;
use crate::fs::export_authority::rule_laws::is_identifier;
use crate::fs::export_authority::rule_laws::lemma_identifiers;
use crate::fs::export_authority::types::ExportAuthorityError;
use crate::fs::export_authority::types::ExportIdentity;
use crate::fs::export_authority::types::ExportReverseBinding;
use crate::fs::key_codec::KeyCodec;
use crate::fs::key_laws::law_barrier_keys_are_distinct;
use crate::fs::workspace_operation::ledger::LedgerStep;
use crate::fs::workspace_operation::ledger::WorkspaceOperationLedger;
use crate::fs::workspace_operation::ledger_laws::same_step;
use crate::fs::workspace_operation::types::WorkspaceOperationError;
use crate::fs::workspace_operation::types::WorkspaceOperationRecord;
use crate::fs::workspace_operation::types::WorkspaceTerminalOutcome;
use crate::outside::contents;
use crate::outside::sha256;
use crate::text::hex;
use bytes::Bytes;
use vstd::prelude::*;

verus! {

/// A failure of the ledger is told as the genesis failure of its kind.
pub proof fn law_ledger_failures_keep_their_kind(
    error: WorkspaceOperationError,
    told: GenesisError,
)
    requires
        call_ensures(<GenesisError as From<WorkspaceOperationError>>::from, (error,), told),
    ensures
        told is Invalid <==> error is InvalidIdentity,
        told is Conflict <==> error is RequestConflict || error is TerminalImmutable,
        told is Corrupt <==> error is CorruptRecord,
        told is CommitOutcomeUnknown <==> error is CommitOutcomeUnknown,
        told is Storage <==> error is Storage,
{
}

/// Identifiers are valid exactly if they have between one and 1024 bytes, none of them zero.
pub proof fn law_identifiers_are_short_and_without_zero(
    value: &str,
    result: Result<(), GenesisError>,
)
    requires
        call_ensures(validate_id, (value,), result),
    ensures
        result is Ok <==> is_identifier(value@),
        result matches Err(e) ==> e == GenesisError::Invalid,
{
    lemma_identifiers();
}

/// A root object lies under a key that is made of its digest alone.
pub proof fn law_root_object_lies_under_its_digest(digest: ContentDigest, key: String)
    requires
        call_ensures(content_object_key, (digest,), key),
    ensures
        key@ == "rhizome/workspace-genesis/sha256/"@ + hex(digest@),
{
}

/// A command is valid exactly if it names its operation and actor, asks for a positive
/// number of whole sectors under a file name that is neither `.` nor `..`, and brings a
/// root object that has its digest.
pub proof fn law_commands_bring_their_root(
    command: &GenesisCommand,
    result: Result<(), GenesisError>,
)
    requires
        call_ensures(validate_command, (command,), result),
    ensures
        result is Ok <==> {
            &&& is_identifier(command.operation.workspace_id@)
            &&& is_identifier(command.operation.request_id@)
            &&& command.operation.kind > 0
            &&& is_identifier(command.actor@)
            &&& command.actor_generation > 0
            &&& 0 < command.export_name@.len() <= 255
            &&& command.export_name@ != seq![46u8]
            &&& command.export_name@ != seq![46u8, 46u8]
            &&& command.advertised_size > 0
            &&& command.advertised_size % 512 == 0
            &&& contents(command.root_bytes).len() > 0
            &&& sha256(contents(command.root_bytes))@ == command.root_digest@
        },
        result matches Err(e) ==> e == GenesisError::Invalid,
{
    lemma_identifiers();
}

/// A record is valid exactly if it names workspace and actor, its export has both inodes, a
/// name and whole sectors, and its root object lies under its digest's key. Only a valid
/// record is stored.
pub proof fn law_records_have_an_export_and_a_root(
    key: &[u8],
    record: &GenesisDomainRecord,
    object_key: String,
    valid: Result<(), GenesisError>,
    stored: Result<Bytes, GenesisError>,
)
    requires
        call_ensures(content_object_key, (record.root_digest,), object_key),
        call_ensures(validate_record, (record,), valid),
        call_ensures(encode_record, (key, record), stored),
    ensures
        valid is Ok <==> {
            &&& is_identifier(record.workspace_id@)
            &&& is_identifier(record.actor@)
            &&& record.actor_generation > 0
            &&& record.export.nbd_directory_inode > 0
            &&& record.export.inode > 0
            &&& 0 < record.export.name@.len() <= 255
            &&& record.export.advertised_size > 0
            &&& record.export.advertised_size % 512 == 0
            &&& record.root_object_key@ == object_key@
        },
        valid matches Err(e) ==> e == GenesisError::Invalid,
        stored is Ok <==> valid is Ok,
        stored matches Err(e) ==> e == GenesisError::Invalid,
{
    lemma_identifiers();
}

/// A valid record that was stored under its workspace's key is read back as it is; under
/// another workspace's key nothing is read.
pub proof fn law_stored_genesis_is_read_back(
    codec: &KeyCodec,
    workspace_id: &str,
    key: Bytes,
    at: &[u8],
    record: &GenesisDomainRecord,
    stored: Bytes,
    bytes: &[u8],
    read: Result<GenesisDomainRecord, GenesisError>,
)
    requires
        call_ensures(KeyCodec::workspace_genesis_key, (codec, workspace_id), key),
        at@ == contents(key),
        call_ensures(encode_record, (at, record), Ok(stored)),
        bytes@ == contents(stored),
        call_ensures(decode_record, (at, bytes), read),
        record.request_digest@.len() == 32 && record.root_digest@.len() == 32,
        is_identifier(workspace_id@),
    ensures
        record.workspace_id@ == workspace_id@ ==> (read matches Ok(r) && r@ == record@),
        read matches Ok(r) ==> record.workspace_id@ == workspace_id@,
        read matches Err(e) ==> e == GenesisError::Corrupt,
{
    lemma_identifiers();
    if let Ok(r) = read {
        lemma_same_payload(at@, at@, record@, r@);
        law_barrier_keys_are_distinct(
            record.workspace_id@,
            workspace_id@,
            0,
            0,
            workspace_id@,
            workspace_id@,
        );
    } else if record.workspace_id@ == workspace_id@ {
        law_genesis_roundtrips(record@, record@);
    }
}

/// What a genesis plans: the command's workspace, actor, request, root and export, which
/// has no inodes yet.
pub proof fn law_plan_is_the_command_s(
    command: &GenesisCommand,
    request: WorkspaceGenesisRequest,
    object_key: String,
)
    requires
        call_ensures(plan_record, (command,), request),
        call_ensures(content_object_key, (command.root_digest,), object_key),
    ensures
        request.record.workspace_id@ == command.operation.workspace_id@,
        request.record.actor@ == command.actor@,
        request.record.actor_generation == command.actor_generation,
        request.record.request_digest@ == command.request_digest@,
        request.record.root_digest@ == command.root_digest@,
        request.record.root_object_key@ == object_key@,
        request.record.export.name@ == command.export_name@,
        request.record.export.advertised_size == command.advertised_size,
        request.record.export.nbd_directory_inode == 0,
        request.record.export.inode == 0,
{
}

/// The object that was read back is accepted exactly if it is the one that was put, to the
/// byte, and has its digest. Another object is a conflict, and none leaves its outcome
/// unknown.
pub proof fn law_readback_is_exact(
    digest: &[u8; 32],
    bytes: &[u8],
    read: Option<&[u8]>,
    result: Result<(), GenesisError>,
)
    requires
        call_ensures(check_object_readback, (digest, bytes, read), result),
    ensures
        read is None ==> (result matches Err(GenesisError::ObjectOutcomeUnknown)),
        read matches Some(found) ==> {
            &&& found@ == bytes@ && sha256(found@)@ == digest@ ==> result is Ok
            &&& found@ != bytes@ || sha256(found@)@ != digest@ ==> (result matches Err(
                GenesisError::Conflict,
            ))
        },
{
}

/// An activation is admitted exactly for what the genesis created.
pub proof fn law_activation_is_of_what_was_created(
    record: &GenesisDomainRecord,
    workspace_id: &str,
    actor: &str,
    actor_generation: u64,
    export: &ExportIdentity,
    result: Result<(), GenesisError>,
)
    requires
        call_ensures(
            validate_activation_genesis,
            (record, workspace_id, actor, actor_generation, export),
            result,
        ),
    ensures
        result is Ok <==> {
            &&& record.workspace_id@ == workspace_id@
            &&& record.actor@ == actor@
            &&& record.actor_generation == actor_generation
            &&& record.export@ == export@
        },
        result matches Err(e) ==> e == GenesisError::Conflict,
{
}

/// The binding of a genesis says what its record says, and is stored under both keys of the
/// export.
pub proof fn law_binding_is_stored_under_both_keys(
    record: &GenesisDomainRecord,
    payload: &[u8],
    binding: ExportReverseBinding,
    keys: (Bytes, Bytes),
    by_name: Result<Bytes, ExportAuthorityError>,
    by_inode: Result<Bytes, ExportAuthorityError>,
    result: Result<((Bytes, Bytes), (Bytes, Bytes)), GenesisError>,
)
    requires
        call_ensures(reverse_binding, (record,), binding),
        call_ensures(reverse_binding_keys, (&binding,), keys),
        call_ensures(encode_reverse_binding, (&binding, &keys.0, payload), by_name),
        call_ensures(encode_reverse_binding, (&binding, &keys.1, payload), by_inode),
        call_ensures(encoded_reverse_bindings, (record, payload), result),
    ensures
        binding.workspace_id@ == record.workspace_id@,
        binding.actor@ == record.actor@,
        binding.actor_generation == record.actor_generation,
        binding.export@ == record.export@,
        result is Ok <==> by_name is Ok && by_inode is Ok,
        result matches Err(e) ==> e == GenesisError::Corrupt,
        result matches Ok(rows) ==> {
            let (name_key, name_value) = rows.0;
            let (inode_key, inode_value) = rows.1;
            &&& contents(name_key) == contents(keys.0)
            &&& contents(inode_key) == contents(keys.1)
            &&& by_name matches Ok(value) && contents(name_value) == contents(value)
            &&& by_inode matches Ok(value) && contents(inode_value) == contents(value)
        },
{
}

/// The record of a workspace is what its key stores, read as that; nothing stored is no
/// record, and a workspace without a name is invalid.
pub proof fn law_record_is_read_under_its_own_key(
    store: &WorkspaceGenesisStore,
    codec: &KeyCodec,
    workspace_id: &str,
    stored: Option<&[u8]>,
    key: Bytes,
    told_key: Result<Bytes, GenesisError>,
    current: Result<Option<GenesisDomainRecord>, GenesisError>,
    durable: Result<Option<GenesisDomainRecord>, GenesisError>,
)
    requires
        call_ensures(KeyCodec::workspace_genesis_key, (codec, workspace_id), key),
        call_ensures(WorkspaceGenesisStore::record_key, (store, workspace_id), told_key),
        call_ensures(read_record_current, (workspace_id, stored), current),
        call_ensures(
            WorkspaceGenesisStore::lookup_record_durable,
            (store, workspace_id, stored),
            durable,
        ),
    ensures
        is_identifier(workspace_id@) ==> (told_key matches Ok(k) && contents(k) == contents(key)),
        !is_identifier(workspace_id@) ==> {
            &&& told_key matches Err(GenesisError::Invalid)
            &&& current matches Err(GenesisError::Invalid)
            &&& durable matches Err(GenesisError::Invalid)
        },
        is_identifier(workspace_id@) && stored is None ==> (current matches Ok(None)) && (
        durable matches Ok(None)),
        is_identifier(workspace_id@) && stored is Some ==> {
            &&& current matches Ok(found) ==> (found matches Some(r) && r.workspace_id@
                == workspace_id@)
            &&& durable matches Ok(found) ==> (found matches Some(r) && r.workspace_id@
                == workspace_id@)
            &&& current matches Err(e) ==> e == GenesisError::Corrupt
            &&& durable matches Err(e) ==> e == GenesisError::Corrupt
        },
{
    lemma_identifiers();
    if is_identifier(workspace_id@) && stored is Some {
        if let Ok(Some(r)) = current {
            law_barrier_keys_are_distinct(
            r.workspace_id@,
            workspace_id@,
            0,
            0,
            workspace_id@,
            workspace_id@,
        );
        }
        if let Ok(Some(r)) = durable {
            law_barrier_keys_are_distinct(
            r.workspace_id@,
            workspace_id@,
            0,
            0,
            workspace_id@,
            workspace_id@,
        );
        }
    }
}

/// A request begins with its operation. One that has its outcome is the answer, and any
/// other has its root object put.
pub proof fn law_genesis_goes_by_its_operation(
    input: VerifiedGenesisInput,
    run: GenesisRun,
    reply: Result<WorkspaceOperationRecord, GenesisError>,
    next: GenesisRun,
)
    requires
        call_ensures(GenesisRun::start, (input,), run),
        call_ensures(GenesisRun::advance, (run, GenesisEvent::Begun(reply)), next),
    ensures
        run.command_view() == input@ && run.phase_view() is Begin,
        reply matches Err(e) ==> next.phase_view() == GenesisPhaseModel::Done(Err(e)),
        reply matches Ok(record) ==> {
            let terminal = record.state is Succeeded || record.state is Failed
                || record.state is NotCommitted;
            &&& terminal ==> next.phase_view() == GenesisPhaseModel::Done(
                Ok(GenesisMaterializeModel::AlreadyTerminal(record@)),
            )
            &&& !terminal ==> next.phase_view() is PutObject
        },
{
}

/// A request is committed exactly if its root object was read back as it was put.
pub proof fn law_genesis_commits_over_its_root(
    run: GenesisRun,
    command: &GenesisCommand,
    read: Option<Bytes>,
    next: GenesisRun,
)
    requires
        run.phase_view() is PutObject,
        command@ == run.command_view(),
        call_ensures(GenesisRun::advance, (run, GenesisEvent::ReadBack(read)), next),
    ensures
        read is None ==> next.phase_view() == GenesisPhaseModel::Done(
            Err(GenesisError::ObjectOutcomeUnknown),
        ),
        read matches Some(found) ==> {
            let exact = contents(found) == contents(command.root_bytes) && sha256(
                contents(found),
            )@ == command.root_digest@;
            &&& exact ==> next.phase_view() is Commit
            &&& !exact ==> next.phase_view() == GenesisPhaseModel::Done(
                Err(GenesisError::Conflict),
            )
        },
{
}

/// What the writer replies is the answer of a request that was committed. No event changes a
/// request's command, one that it does not wait for leaves it where it is, and it has an
/// answer exactly once it is done.
pub proof fn law_genesis_ends_with_the_writer_s_reply(
    run: GenesisRun,
    reply: Result<GenesisDurabilityReceipt, GenesisError>,
    event: GenesisEvent,
    committed: GenesisRun,
    next: GenesisRun,
    told: Option<Result<GenesisMaterializeResult, GenesisError>>,
)
    requires
        call_ensures(GenesisRun::advance, (run, GenesisEvent::Committed(reply)), committed),
        call_ensures(GenesisRun::advance, (run, event), next),
        call_ensures(GenesisRun::into_result, (run,), told),
    ensures
        run.phase_view() is Commit ==> {
            &&& reply matches Ok(receipt) ==> committed.phase_view() == GenesisPhaseModel::Done(
                Ok(GenesisMaterializeModel::Materialized(receipt@)),
            )
            &&& reply matches Err(e) ==> committed.phase_view() == GenesisPhaseModel::Done(Err(e))
        },
        next.command_view() == run.command_view(),
        ({
            let awaited = match event {
                GenesisEvent::Begun(_) => run.phase_view() is Begin,
                GenesisEvent::ReadBack(_) => run.phase_view() is PutObject,
                GenesisEvent::Committed(_) => run.phase_view() is Commit,
            };
            !awaited ==> next.phase_view() == run.phase_view()
        }),
        told is Some <==> run.phase_view() is Done,
        told matches Some(Ok(result)) ==> run.phase_view() == GenesisPhaseModel::Done(Ok(result@)),
        told matches Some(Err(e)) ==> run.phase_view() == GenesisPhaseModel::Done(Err(e)),
{
}

/// A request asks for what it waits for: its root object under the key of its digest, and
/// the commit of exactly what it plans.
pub proof fn law_genesis_asks_for_what_it_waits_for(
    run: GenesisRun,
    command: &GenesisCommand,
    object_key: String,
    plan: WorkspaceGenesisRequest,
    action: GenesisAction,
)
    requires
        command@ == run.command_view(),
        call_ensures(content_object_key, (command.root_digest,), object_key),
        call_ensures(plan_record, (command,), plan),
        call_ensures(GenesisRun::action, (&run,), action),
    ensures
        action is Begin <==> run.phase_view() is Begin,
        action is PutObject <==> run.phase_view() is PutObject,
        action is Commit <==> run.phase_view() is Commit,
        action is Finish <==> run.phase_view() is Done,
        action matches GenesisAction::PutObject { object_key: key } ==> key@ == object_key@,
        action matches GenesisAction::Commit(request) ==> request.record@ == plan.record@,
{
}

/// A command is sealed exactly if it is valid, and an outcome exactly if it has bytes. Each
/// holds what it was made of.
pub proof fn law_sealed_inputs_are_valid(
    command: GenesisCommand,
    bytes: Bytes,
    valid: Result<(), GenesisError>,
    input: Result<VerifiedGenesisInput, GenesisError>,
    terminal: Result<VerifiedGenesisTerminal, GenesisError>,
)
    requires
        call_ensures(validate_command, (&command,), valid),
        call_ensures(VerifiedGenesisInput::for_test, (command,), input),
        call_ensures(VerifiedGenesisTerminal::for_test, (bytes,), terminal),
    ensures
        valid matches Err(e) ==> (input matches Err(error) && error == e),
        valid is Ok ==> (input matches Ok(sealed) && sealed@ == command@),
        contents(bytes).len() == 0 ==> (terminal matches Err(GenesisError::Invalid)),
        contents(bytes).len() > 0 ==> (terminal matches Ok(sealed) && sealed@ == contents(bytes)),
{
}

/// The operation of a genesis begins as the ledger begins it, under the command's own key and
/// digest; a failure of the ledger is told as the genesis's.
pub proof fn law_genesis_begins_in_the_ledger(
    store: &WorkspaceGenesisStore,
    verified: &VerifiedGenesisInput,
    command: &GenesisCommand,
    stored: Option<&[u8]>,
    begun: Result<LedgerStep, WorkspaceOperationError>,
    told: GenesisError,
    result: Result<LedgerStep, GenesisError>,
)
    requires
        command@ == verified@,
        call_ensures(WorkspaceGenesisStore::materialize, (store, verified, stored), result),
        call_ensures(
            WorkspaceOperationLedger::begin,
            (&store.ledger(), &command.operation, command.request_digest, stored),
            begun,
        ),
        begun matches Err(e) ==> call_ensures(
            <GenesisError as From<WorkspaceOperationError>>::from,
            (e,),
            told,
        ),
    ensures
        begun matches Ok(step) ==> (result matches Ok(s) && same_step(step, s)),
        begun is Err ==> (result matches Err(error) && error == told),
{
}

/// A genesis is completed as the ledger completes it, with its own outcome as success.
pub proof fn law_genesis_completes_in_the_ledger(
    store: &WorkspaceGenesisStore,
    verified: &VerifiedGenesisInput,
    command: &GenesisCommand,
    terminal: VerifiedGenesisTerminal,
    bytes: Bytes,
    stored: Option<&[u8]>,
    completed: Result<LedgerStep, WorkspaceOperationError>,
    told: GenesisError,
    result: Result<LedgerStep, GenesisError>,
)
    requires
        command@ == verified@,
        contents(bytes) == terminal@,
        call_ensures(
            WorkspaceGenesisStore::complete,
            (store, verified, terminal, stored),
            result,
        ),
        call_ensures(
            WorkspaceOperationLedger::complete,
            (
                &store.ledger(),
                &command.operation,
                command.request_digest,
                WorkspaceTerminalOutcome::Succeeded(bytes),
                stored,
            ),
            completed,
        ),
        completed matches Err(e) ==> call_ensures(
            <GenesisError as From<WorkspaceOperationError>>::from,
            (e,),
            told,
        ),
    ensures
        completed matches Ok(step) ==> (result matches Ok(s) && same_step(step, s)),
        completed is Err ==> (result matches Err(error) && error == told),
{
}

} // verus!
