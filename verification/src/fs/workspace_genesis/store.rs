//! What a genesis reads and writes, decided row by row.

use super::codec::content_object_key;
use super::codec::decode_record;
use super::codec::object_key;
use super::codec::stores_genesis;
use super::codec::validate_id;
use super::types::genesis_error;
use super::types::GenesisCommand;
use super::types::GenesisCommandModel;
use super::types::GenesisDomainRecord;
use super::types::GenesisDomainRecordModel;
use super::types::GenesisError;
use crate::fs::export_authority::records::encode_reverse_binding;
use crate::fs::export_authority::records::export_envelope;
use crate::fs::export_authority::records::fits_record;
use crate::fs::export_authority::records::inode_key_of;
use crate::fs::export_authority::records::name_key_of;
use crate::fs::export_authority::records::reverse_binding_keys;
use crate::fs::export_authority::records::REVERSE_BINDING_MAGIC;
use crate::fs::export_authority::rules::valid_id;
use crate::fs::export_authority::rules::valid_reverse_binding;
use crate::fs::export_authority::types::ExportIdentity;
use crate::fs::export_authority::types::ExportIdentityModel;
use crate::fs::export_authority::types::ExportReverseBinding;
use crate::fs::export_authority::types::ExportReverseBindingModel;
use crate::fs::envelope::envelope;
use crate::fs::key_codec::workspace_genesis_key_bytes;
use crate::fs::key_codec::KeyCodec;
use crate::fs::workspace_operation::ledger::is_step;
use crate::fs::workspace_operation::ledger::stored_verdict;
use crate::fs::workspace_operation::ledger::stored_view;
use crate::fs::workspace_operation::ledger::LedgerRequest;
use crate::fs::workspace_operation::ledger::LedgerStep;
use crate::fs::workspace_operation::ledger::LedgerVerdict;
use crate::fs::workspace_operation::ledger::WorkspaceOperationLedger;
use crate::fs::workspace_operation::types::StateModel;
use crate::fs::workspace_operation::types::WorkspaceOperationError;
use crate::fs::workspace_operation::types::WorkspaceOperationKeyModel;
use crate::fs::workspace_operation::types::WorkspaceTerminalOutcome;
use crate::fs::NAME_MAX;
use crate::outside::bytes_slice;
use crate::outside::contents;
use crate::outside::sha256;
use crate::outside::sha256_digest;
use crate::wire::same_bytes;
use crate::wire::same_str;
use bytes::Bytes;
use vstd::prelude::*;

verus! {

/// A name that may stand in a directory: not empty, not too long, neither `.` nor `..`.
pub open spec fn valid_file_name(name: Seq<u8>) -> bool {
    &&& 0 < name.len() <= NAME_MAX
    &&& name != seq![0x2eu8]
    &&& name != seq![0x2eu8, 0x2eu8]
}

/// A command names its operation and actor, asks for whole sectors under a file name,
/// and brings the root object of its digest.
pub open spec fn valid_command(command: GenesisCommandModel) -> bool {
    &&& valid_id(command.operation.workspace_id)
    &&& valid_id(command.operation.request_id)
    &&& command.operation.kind > 0
    &&& valid_id(command.actor)
    &&& command.actor_generation != 0
    &&& valid_file_name(command.export_name)
    &&& command.advertised_size != 0
    &&& command.advertised_size % 512 == 0
    &&& command.root_bytes.len() > 0
    &&& sha256(command.root_bytes)@ == command.root_digest
}

fn is_dots(name: &[u8]) -> (dots: bool)
    ensures
        dots == (name@ == seq![0x2eu8] || name@ == seq![0x2eu8, 0x2eu8]),
{
    let dot: [u8; 1] = [0x2e];
    let dot_dot: [u8; 2] = [0x2e, 0x2e];
    assert(dot@ =~= seq![0x2eu8]);
    assert(dot_dot@ =~= seq![0x2eu8, 0x2eu8]);
    same_bytes(name, &dot) || same_bytes(name, &dot_dot)
}

pub fn validate_command(command: &GenesisCommand) -> (result: Result<(), GenesisError>)
    ensures
        result == (if valid_command(command@) {
            Ok::<(), GenesisError>(())
        } else {
            Err(GenesisError::Invalid)
        }),
{
    validate_id(&command.operation.workspace_id)?;
    validate_id(&command.operation.request_id)?;
    validate_id(&command.actor)?;
    let root_digest = sha256_digest(bytes_slice(&command.root_bytes));
    if command.operation.kind <= 0 || command.actor_generation == 0 || command.export_name.len()
        == 0 || command.export_name.len() > NAME_MAX || is_dots(&command.export_name)
        || command.advertised_size == 0 || command.advertised_size % 512 != 0 || bytes_slice(
        &command.root_bytes,
    ).len() == 0 || !same_bytes(&root_digest, command.root_digest.as_bytes()) {
        return Err(GenesisError::Invalid);
    }
    Ok(())
}

/// A command that has been verified: it is valid.
#[derive(Debug)]
pub struct VerifiedGenesisInput(GenesisCommand);

impl View for VerifiedGenesisInput {
    type V = GenesisCommandModel;

    closed spec fn view(&self) -> GenesisCommandModel {
        self.0@
    }
}

impl Clone for VerifiedGenesisInput {
    fn clone(&self) -> (copy: Self)
        ensures
            copy@ == self@,
    {
        proof {
            use_type_invariant(self);
        }
        VerifiedGenesisInput(self.0.clone())
    }
}

impl VerifiedGenesisInput {
    #[verifier::type_invariant]
    spec fn inv(self) -> bool {
        valid_command(self.0@)
    }

    /// Seals a valid command, for tests and deterministic simulation.
    pub fn for_test(command: GenesisCommand) -> (result: Result<Self, GenesisError>)
        ensures
            if valid_command(command@) {
                result matches Ok(input) && input@ == command@
            } else {
                result matches Err(e) && e == GenesisError::Invalid
            },
    {
        validate_command(&command)?;
        Ok(VerifiedGenesisInput(command))
    }

    pub fn command(&self) -> (command: &GenesisCommand)
        ensures
            command@ == self@,
            valid_command(self@),
    {
        proof {
            use_type_invariant(self);
        }
        &self.0
    }
}

/// The exact signed bytes of a genesis outcome. They are not empty.
pub struct VerifiedGenesisTerminal {
    bytes: Bytes,
}

impl View for VerifiedGenesisTerminal {
    type V = Seq<u8>;

    closed spec fn view(&self) -> Seq<u8> {
        contents(self.bytes)
    }
}

impl VerifiedGenesisTerminal {
    #[verifier::type_invariant]
    spec fn inv(self) -> bool {
        contents(self.bytes).len() > 0
    }

    /// Seals terminal bytes, for tests and deterministic simulation.
    pub fn for_test(bytes: Bytes) -> (result: Result<Self, GenesisError>)
        ensures
            if contents(bytes).len() > 0 {
                result matches Ok(terminal) && terminal@ == contents(bytes)
            } else {
                result matches Err(e) && e == GenesisError::Invalid
            },
    {
        if bytes_slice(&bytes).len() == 0 {
            return Err(GenesisError::Invalid);
        }
        Ok(VerifiedGenesisTerminal { bytes })
    }
}

/// Asks the writer to commit a genesis record, filling in the inodes of its export.
pub struct WorkspaceGenesisRequest {
    pub record: GenesisDomainRecord,
}

/// The record that a genesis commits, before its export has inodes.
pub open spec fn planned_record(command: GenesisCommandModel) -> GenesisDomainRecordModel {
    GenesisDomainRecordModel {
        workspace_id: command.operation.workspace_id,
        actor: command.actor,
        actor_generation: command.actor_generation,
        request_digest: command.request_digest,
        root_digest: command.root_digest,
        root_object_key: object_key(command.root_digest),
        export: ExportIdentityModel {
            nbd_directory_inode: 0,
            name: command.export_name,
            inode: 0,
            advertised_size: command.advertised_size,
        },
    }
}

/// The request that a genesis commits.
pub fn plan_record(command: &GenesisCommand) -> (request: WorkspaceGenesisRequest)
    ensures
        request.record@ == planned_record(command@),
{
    let record = GenesisDomainRecord {
        workspace_id: command.operation.workspace_id.clone(),
        actor: command.actor.clone(),
        actor_generation: command.actor_generation,
        request_digest: command.request_digest,
        root_digest: command.root_digest,
        root_object_key: content_object_key(command.root_digest),
        export: ExportIdentity {
            nbd_directory_inode: 0,
            name: command.export_name.clone(),
            inode: 0,
            advertised_size: command.advertised_size,
        },
    };
    assert(record@.export.name =~= command@.export_name);
    WorkspaceGenesisRequest { record }
}

/// `result` is the step that the ledger's verdict asks for, or its error as a genesis
/// reports it.
pub open spec fn is_genesis_step(
    result: Result<LedgerStep, GenesisError>,
    key: WorkspaceOperationKeyModel,
    verdict: LedgerVerdict,
) -> bool {
    match verdict {
        LedgerVerdict::Refuse(fault) => result matches Err(e) && e == genesis_error(fault),
        _ => match result {
            Ok(step) => is_step(Ok::<LedgerStep, WorkspaceOperationError>(step), key, verdict),
            Err(e) => verdict matches LedgerVerdict::Write(record) && record.state.payload().len()
                > u32::MAX && e == GenesisError::Corrupt,
        },
    }
}

/// What a readback of the root object says: the object is there, it is not the one that
/// was put, or nobody knows.
pub open spec fn readback_result(
    digest: Seq<u8>,
    bytes: Seq<u8>,
    read: Option<Seq<u8>>,
) -> Result<(), GenesisError> {
    match read {
        None => Err(GenesisError::ObjectOutcomeUnknown),
        Some(found) => if found == bytes && sha256(found)@ == digest {
            Ok(())
        } else {
            Err(GenesisError::Conflict)
        },
    }
}

/// Accepts the object read back only if it is exactly the one that was put. Whether the
/// put itself was acknowledged does not matter.
pub fn check_object_readback(digest: &[u8; 32], bytes: &[u8], read: Option<&[u8]>) -> (result:
    Result<(), GenesisError>)
    ensures
        result == readback_result(digest@, bytes@, stored_view(read)),
{
    match read {
        None => Err(GenesisError::ObjectOutcomeUnknown),
        Some(found) => {
            let found_digest = sha256_digest(found);
            if found.len() != bytes.len() || !same_bytes(&found_digest, digest) || !same_bytes(
                found,
                bytes,
            ) {
                return Err(GenesisError::Conflict);
            }
            Ok(())
        },
    }
}

fn ledger_result(result: Result<LedgerStep, WorkspaceOperationError>) -> (mapped: Result<
    LedgerStep,
    GenesisError,
>)
    ensures
        match result {
            Ok(step) => mapped == Ok::<LedgerStep, GenesisError>(step),
            Err(e) => mapped == Err::<LedgerStep, GenesisError>(genesis_error(e@)),
        },
{
    match result {
        Ok(step) => Ok(step),
        Err(e) => Err(GenesisError::from(e)),
    }
}

/// The genesis decisions of one filesystem, over its operation ledger.
pub struct WorkspaceGenesisStore {
    operations: WorkspaceOperationLedger,
}

impl WorkspaceGenesisStore {
    pub fn new(operations: WorkspaceOperationLedger) -> (store: Self)
        ensures
            store.ledger() == operations,
    {
        WorkspaceGenesisStore { operations }
    }

    pub closed spec fn ledger(self) -> WorkspaceOperationLedger {
        self.operations
    }

    /// Begins the operation of a genesis, given what the ledger stores of it.
    pub fn materialize(&self, verified: &VerifiedGenesisInput, stored: Option<&[u8]>) -> (result:
        Result<LedgerStep, GenesisError>)
        ensures
            is_genesis_step(
                result,
                verified@.operation,
                stored_verdict(
                    verified@.operation,
                    stored_view(stored),
                    verified@.request_digest,
                    LedgerRequest::Begin,
                ),
            ),
    {
        let command = verified.command();
        validate_command(command)?;
        ledger_result(self.operations.begin(&command.operation, command.request_digest, stored))
    }

    /// Completes the operation with its signed outcome, given what the ledger stores.
    pub fn complete(
        &self,
        verified: &VerifiedGenesisInput,
        terminal: VerifiedGenesisTerminal,
        stored: Option<&[u8]>,
    ) -> (result: Result<LedgerStep, GenesisError>)
        ensures
            is_genesis_step(
                result,
                verified@.operation,
                stored_verdict(
                    verified@.operation,
                    stored_view(stored),
                    verified@.request_digest,
                    LedgerRequest::Complete(StateModel::Succeeded(terminal@)),
                ),
            ),
    {
        let command = verified.command();
        ledger_result(
            self.operations.complete(
                &command.operation,
                command.request_digest,
                WorkspaceTerminalOutcome::Succeeded(terminal.bytes),
                stored,
            ),
        )
    }

    /// The key under which a workspace's record is stored.
    pub fn record_key(&self, workspace_id: &str) -> (result: Result<Bytes, GenesisError>)
        ensures
            if valid_id(workspace_id@) {
                result matches Ok(key) && contents(key) == workspace_genesis_key_bytes(
                    workspace_id@,
                )
            } else {
                result matches Err(e) && e == GenesisError::Invalid
            },
    {
        validate_id(workspace_id)?;
        Ok(KeyCodec::new().workspace_genesis_key(workspace_id))
    }

    /// The record of a workspace, given the durable bytes stored under its key.
    pub fn lookup_record_durable(&self, workspace_id: &str, stored: Option<&[u8]>) -> (result:
        Result<Option<GenesisDomainRecord>, GenesisError>)
        ensures
            is_stored_record(result, workspace_id@, stored_view(stored)),
    {
        read_record_current(workspace_id, stored)
    }
}

/// `result` is the record stored for a workspace, if there is one.
pub open spec fn is_stored_record(
    result: Result<Option<GenesisDomainRecord>, GenesisError>,
    workspace_id: Seq<char>,
    stored: Option<Seq<u8>>,
) -> bool {
    if !valid_id(workspace_id) {
        result matches Err(e) && e == GenesisError::Invalid
    } else {
        let key = workspace_genesis_key_bytes(workspace_id);
        match stored {
            None => result matches Ok(None),
            Some(bytes) => match result {
                Ok(Some(record)) => stores_genesis(key, bytes, record@),
                Ok(None) => false,
                Err(e) => e == GenesisError::Corrupt && forall|record: GenesisDomainRecordModel|
                    !#[trigger] stores_genesis(key, bytes, record),
            },
        }
    }
}

/// The record of a workspace, given the bytes currently stored under its key.
pub fn read_record_current(workspace_id: &str, stored: Option<&[u8]>) -> (result: Result<
    Option<GenesisDomainRecord>,
    GenesisError,
>)
    ensures
        is_stored_record(result, workspace_id@, stored_view(stored)),
{
    validate_id(workspace_id)?;
    let key = KeyCodec::new().workspace_genesis_key(workspace_id);
    match stored {
        None => Ok(None),
        Some(bytes) => {
            let record = decode_record(bytes_slice(&key), bytes)?;
            Ok(Some(record))
        },
    }
}

/// An activation is admitted only for the exact binding that the genesis created.
pub fn validate_activation_genesis(
    record: &GenesisDomainRecord,
    workspace_id: &str,
    actor: &str,
    actor_generation: u64,
    export: &ExportIdentity,
) -> (result: Result<(), GenesisError>)
    ensures
        result == (if record@.workspace_id == workspace_id@ && record@.actor == actor@
            && record@.actor_generation == actor_generation && record@.export == export@ {
            Ok::<(), GenesisError>(())
        } else {
            Err(GenesisError::Conflict)
        }),
{
    if same_str(&record.workspace_id, workspace_id) && same_str(&record.actor, actor)
        && record.actor_generation == actor_generation && record.export.same(export) {
        Ok(())
    } else {
        Err(GenesisError::Conflict)
    }
}

/// The binding by which the export of a genesis is found.
pub open spec fn genesis_binding(record: GenesisDomainRecordModel) -> ExportReverseBindingModel {
    ExportReverseBindingModel {
        workspace_id: record.workspace_id,
        actor: record.actor,
        actor_generation: record.actor_generation,
        export: record.export,
    }
}

pub fn reverse_binding(record: &GenesisDomainRecord) -> (binding: ExportReverseBinding)
    ensures
        binding@ == genesis_binding(record@),
{
    ExportReverseBinding {
        workspace_id: record.workspace_id.clone(),
        actor: record.actor.clone(),
        actor_generation: record.actor_generation,
        export: record.export.clone(),
    }
}

/// The two rows of a genesis's binding, each a key and a value. `payload` is the
/// serialized binding.
pub fn encoded_reverse_bindings(record: &GenesisDomainRecord, payload: &[u8]) -> (result: Result<
    ((Bytes, Bytes), (Bytes, Bytes)),
    GenesisError,
>)
    requires
        record@.export.name.len() <= 0xFFFF,
    ensures
        ({
            let binding = genesis_binding(record@);
            if valid_reverse_binding(binding) && fits_record(payload@) {
                result matches Ok(rows) && contents(rows.0.0) == name_key_of(binding) && contents(
                    rows.0.1,
                ) == envelope(
                    export_envelope(REVERSE_BINDING_MAGIC),
                    name_key_of(binding),
                    payload@,
                ) && contents(rows.1.0) == inode_key_of(binding) && contents(rows.1.1) == envelope(
                    export_envelope(REVERSE_BINDING_MAGIC),
                    inode_key_of(binding),
                    payload@,
                )
            } else {
                result matches Err(e) && e == GenesisError::Corrupt
            }
        }),
{
    let binding = reverse_binding(record);
    let (name_key, inode_key) = reverse_binding_keys(&binding);
    let name_value = match encode_reverse_binding(&binding, &name_key, payload) {
        Ok(value) => value,
        Err(_) => {
            return Err(GenesisError::Corrupt);
        },
    };
    let inode_value = match encode_reverse_binding(&binding, &inode_key, payload) {
        Ok(value) => value,
        Err(_) => {
            return Err(GenesisError::Corrupt);
        },
    };
    Ok(((name_key, name_value), (inode_key, inode_value)))
}

} // verus!
