//! Fenced mutations of an export: how a request is bound to what it asks for, and how
//! its outcome is recognized.

use super::rules::valid_authority;
use super::rules::valid_export;
use super::rules::valid_id;
use super::rules::validate_authority;
use super::rules::validate_export;
use super::rules::validate_id;
use super::rules::verdict;
use super::types::AuthorityVersion;
use super::types::AuthorityVersionModel;
use super::types::CommandDigest;
use super::types::DataChecksum;
use super::types::ExportAuthorityError;
use super::types::ExportMutationCommand;
use super::types::ExportMutationCommandModel;
use super::types::ExportMutationExpectation;
use super::types::ExportMutationExpectationModel;
use super::types::ExportMutationOutcome;
use super::types::ExportMutationOutcomeModel;
use super::types::MutationFenceToken;
use super::types::MutationFenceTokenModel;
use super::types::MutationKind;
use super::types::MutationRequestIdentity;
use super::types::MutationRequestIdentityModel;
use super::types::OperationId;
use crate::fs::key_codec::be8;
use crate::fs::key_codec::export_rows;
use crate::fs::key_codec::fits16;
use crate::fs::key_codec::session_scope;
use crate::fs::key_codec::ExportMutationKey;
use crate::fs::key_codec::KeyCodec;
use crate::outside::bytes_slice;
use crate::outside::contents;
use crate::outside::sha256;
use crate::outside::sha256_digest;
use crate::wire::be_bytes;
use crate::wire::long_field;
use crate::wire::long_text;
use crate::wire::put_be;
use crate::wire::put_bytes;
use crate::wire::put_long_field;
use crate::wire::put_long_text;
use bytes::Bytes;
use vstd::prelude::*;
use vstd::utf8::encode_utf8;

verus! {

/// What the digest of a command is computed over, before its fields.
pub open spec fn command_digest_domain() -> Seq<u8> {
    encode_utf8("rhizome.export-mutation-command.v2\0"@)
}

/// What the checksum of written data is computed over, before the data.
pub open spec fn data_checksum_domain() -> Seq<u8> {
    encode_utf8("rhizome.export-mutation-data.v1\0"@)
}

/// The digest of `bytes` with their length, in a domain of its own.
pub open spec fn domain_digest(domain: Seq<u8>, bytes: Seq<u8>) -> Seq<u8> {
    sha256(domain + long_field(bytes))@
}

/// The fields of an authority, for a digest.
pub open spec fn authority_fields(authority: AuthorityVersionModel) -> Seq<u8> {
    long_text(authority.actor) + (be8(authority.actor_generation) + (long_text(authority.home_cell)
        + (be8(authority.home_revision) + (be8(authority.authority_epoch) + (be8(
        authority.placement_epoch,
    ) + be8(authority.assignment_revision))))))
}

/// The fields of a session's token after its export and authority, for a digest.
pub open spec fn session_fields(token: MutationFenceTokenModel) -> Seq<u8> {
    long_text(token.session_id) + (long_text(token.capability_id) + (be8(
        token.expires_at_unix_millis,
    ) + (long_text(token.node_incarnation_id) + (long_text(token.runtime_id) + long_text(
        token.server_boot_id,
    )))))
}

/// One byte for a flag.
pub open spec fn flag(set: bool) -> u8 {
    if set {
        1
    } else {
        0
    }
}

/// A command's kind and arguments, for a digest. Written data is represented by its
/// length here and by its checksum after it.
pub open spec fn command_fields(command: ExportMutationCommandModel) -> Seq<u8> {
    match command {
        ExportMutationCommandModel::Write { offset, data, fua } => seq![1, flag(fua)] + (be8(offset)
            + be_bytes(data.len(), 8)),
        ExportMutationCommandModel::Flush => seq![2, 0],
        ExportMutationCommandModel::Trim { offset, length, fua } => seq![3, flag(fua)] + (be8(
            offset,
        ) + be_bytes(length as nat, 4)),
        ExportMutationCommandModel::WriteZeroes { offset, length, fua } => seq![4, flag(fua)] + (
        be8(offset) + be_bytes(length as nat, 4)),
    }
}

/// What the digest of a command is computed over.
pub open spec fn command_preimage(
    token: MutationFenceTokenModel,
    operation_id: Seq<u8>,
    command: ExportMutationCommandModel,
    data_checksum: Seq<u8>,
) -> Seq<u8> {
    command_digest_domain() + (long_text(token.workspace_id) + (long_field(token.export.name) + (
    be8(token.export.inode) + (authority_fields(token.authority) + (session_fields(token) + (
    operation_id + (command_fields(command) + data_checksum)))))))
}

fn domain_hash(domain: &str, bytes: &[u8]) -> (digest: [u8; 32])
    ensures
        digest@ == domain_digest(encode_utf8(domain@), bytes@),
{
    let mut preimage: Vec<u8> = Vec::new();
    put_bytes(&mut preimage, domain.as_bytes());
    put_long_field(&mut preimage, bytes);
    assert(preimage@ =~= encode_utf8(domain@) + long_field(bytes@));
    sha256_digest(&preimage)
}

/// Appends the fields of an authority.
pub fn put_authority_fields(out: &mut Vec<u8>, authority: &AuthorityVersion)
    ensures
        final(out)@ == old(out)@ + authority_fields(authority@),
{
    put_long_text(out, &authority.actor);
    put_be(out, authority.actor_generation, 8);
    put_long_text(out, &authority.home_cell);
    put_be(out, authority.home_revision, 8);
    put_be(out, authority.authority_epoch, 8);
    put_be(out, authority.placement_epoch, 8);
    put_be(out, authority.assignment_revision, 8);
    assert(out@ =~= old(out)@ + authority_fields(authority@));
}

/// Appends the fields of a session's token after its export and authority.
pub fn put_session_fields(out: &mut Vec<u8>, token: &MutationFenceToken)
    ensures
        final(out)@ == old(out)@ + session_fields(token@),
{
    put_long_text(out, &token.session_id);
    put_long_text(out, &token.capability_id);
    put_be(out, token.expires_at_unix_millis, 8);
    put_long_text(out, &token.node_incarnation_id);
    put_long_text(out, &token.runtime_id);
    put_long_text(out, &token.server_boot_id);
    assert(out@ =~= old(out)@ + session_fields(token@));
}

fn flag_byte(set: bool) -> (byte: u8)
    ensures
        byte == flag(set),
{
    if set {
        1
    } else {
        0
    }
}

fn put_command_fields(out: &mut Vec<u8>, command: &ExportMutationCommand)
    ensures
        final(out)@ == old(out)@ + command_fields(command@),
{
    match command {
        ExportMutationCommand::Write { offset, data, fua } => {
            out.push(1);
            out.push(flag_byte(*fua));
            put_be(out, *offset, 8);
            put_be(out, bytes_slice(data).len() as u64, 8);
        },
        ExportMutationCommand::Flush => {
            out.push(2);
            out.push(0);
        },
        ExportMutationCommand::Trim { offset, length, fua } => {
            out.push(3);
            out.push(flag_byte(*fua));
            put_be(out, *offset, 8);
            put_be(out, *length as u64, 4);
        },
        ExportMutationCommand::WriteZeroes { offset, length, fua } => {
            out.push(4);
            out.push(flag_byte(*fua));
            put_be(out, *offset, 8);
            put_be(out, *length as u64, 4);
        },
    }
    assert(out@ =~= old(out)@ + command_fields(command@));
}

/// The digest that binds a command to its token, operation and data.
pub fn command_digest(
    token: &MutationFenceToken,
    operation_id: [u8; 32],
    command: &ExportMutationCommand,
    data_checksum: &DataChecksum,
) -> (digest: [u8; 32])
    ensures
        digest@ == sha256(
            command_preimage(token@, operation_id@, command@, data_checksum@),
        )@,
{
    let mut preimage: Vec<u8> = Vec::new();
    put_bytes(&mut preimage, "rhizome.export-mutation-command.v2\0".as_bytes());
    put_long_text(&mut preimage, &token.workspace_id);
    put_long_field(&mut preimage, &token.export.name);
    put_be(&mut preimage, token.export.inode, 8);
    put_authority_fields(&mut preimage, &token.authority);
    put_session_fields(&mut preimage, token);
    put_bytes(&mut preimage, &operation_id);
    put_command_fields(&mut preimage, command);
    put_bytes(&mut preimage, &data_checksum.0);
    assert(preimage@ =~= command_preimage(token@, operation_id@, command@, data_checksum@));
    sha256_digest(&preimage)
}

impl ExportMutationCommand {
    /// The checksum of the bytes that the command writes.
    pub fn data_checksum(&self) -> (checksum: DataChecksum)
        ensures
            checksum@ == domain_digest(data_checksum_domain(), self@.data()),
    {
        match self {
            ExportMutationCommand::Write { data, .. } => DataChecksum(
                domain_hash("rhizome.export-mutation-data.v1\0", bytes_slice(data)),
            ),
            _ => {
                let empty: Vec<u8> = Vec::new();
                assert(empty@ =~= self@.data());
                DataChecksum(domain_hash("rhizome.export-mutation-data.v1\0", &empty))
            },
        }
    }
}

/// A fenced mutation that is ready to be presented.
pub struct ExportMutation {
    pub kind: MutationKind,
    pub token: MutationFenceToken,
    pub identity: MutationRequestIdentity,
    pub command: ExportMutationCommand,
}

/// Every part of a token is well formed, its process included.
pub open spec fn complete_token(token: MutationFenceTokenModel) -> bool {
    super::rules::well_formed_token(token) && valid_id(token.server_boot_id)
}

/// An identifier of 32 zero bytes names no operation.
pub open spec fn is_zero(digest: Seq<u8>) -> bool {
    forall|i: int| 0 <= i < digest.len() ==> digest[i] == 0
}

/// What a request says of its mutation.
pub open spec fn request_identity(
    token: MutationFenceTokenModel,
    operation_id: Seq<u8>,
    command: ExportMutationCommandModel,
) -> MutationRequestIdentityModel {
    let checksum = domain_digest(data_checksum_domain(), command.data());
    MutationRequestIdentityModel {
        operation_id,
        command_digest: sha256(command_preimage(token, operation_id, command, checksum))@,
        data_checksum: checksum,
    }
}

/// The outcome that a mutation expects to find.
pub open spec fn expectation_of(
    token: MutationFenceTokenModel,
    identity: MutationRequestIdentityModel,
    kind: MutationKind,
) -> ExportMutationExpectationModel {
    ExportMutationExpectationModel {
        workspace_id: token.workspace_id,
        export: token.export,
        authority: token.authority,
        session_id: token.session_id,
        server_boot_id: token.server_boot_id,
        mutation: identity,
        kind,
    }
}

/// Whether every byte of `digest` is zero.
pub fn all_zero(digest: &[u8]) -> (zero: bool)
    ensures
        zero == is_zero(digest@),
{
    let mut i: usize = 0;
    while i < digest.len()
        invariant
            i <= digest@.len(),
            forall|k: int| 0 <= k < i ==> digest@[k] == 0,
        decreases digest@.len() - i,
    {
        if digest[i] != 0 {
            return false;
        }
        i += 1;
    }
    true
}

/// Makes mutations.
pub struct ExportMutationBuilder;

impl ExportMutationBuilder {
    /// Binds a command to the token and operation that it is presented with.
    pub fn build(
        token: MutationFenceToken,
        operation_id: [u8; 32],
        command: ExportMutationCommand,
    ) -> (result: Result<ExportMutation, ExportAuthorityError>)
        ensures
            complete_token(token@) && !is_zero(operation_id@) ==> (result matches Ok(mutation) && {
                &&& mutation.kind == command@.kind()
                &&& mutation.token@ == token@
                &&& mutation.identity@ == request_identity(token@, operation_id@, command@)
                &&& mutation.command@ == command@
            }),
            !complete_token(token@) || is_zero(operation_id@) ==> (result matches Err(e)
                && e == ExportAuthorityError::Invalid),
    {
        validate_id(&token.workspace_id)?;
        validate_export(&token.export)?;
        validate_authority(&token.authority)?;
        validate_id(&token.session_id)?;
        validate_id(&token.capability_id)?;
        validate_id(&token.node_incarnation_id)?;
        validate_id(&token.runtime_id)?;
        validate_id(&token.server_boot_id)?;
        if all_zero(&operation_id) {
            return Err(ExportAuthorityError::Invalid);
        }
        let kind = command.kind();
        let data_checksum = command.data_checksum();
        let digest = command_digest(&token, operation_id, &command, &data_checksum);
        let identity = MutationRequestIdentity {
            operation_id: OperationId(operation_id),
            command_digest: CommandDigest(digest),
            data_checksum,
        };
        Ok(ExportMutation { kind, token, identity, command })
    }
}

impl ExportMutation {
    /// The outcome that this mutation expects to find.
    pub fn expectation(&self) -> (expected: ExportMutationExpectation)
        ensures
            expected@ == expectation_of(self.token@, self.identity@, self.kind),
    {
        ExportMutationExpectation {
            workspace_id: self.token.workspace_id.clone(),
            export: self.token.export.clone(),
            authority: self.token.authority.clone(),
            session_id: self.token.session_id.clone(),
            server_boot_id: self.token.server_boot_id.clone(),
            mutation: self.identity.clone(),
            kind: self.kind,
        }
    }
}

pub open spec fn valid_expectation(expected: ExportMutationExpectationModel) -> bool {
    &&& valid_id(expected.workspace_id)
    &&& valid_export(expected.export)
    &&& valid_authority(expected.authority)
    &&& valid_id(expected.session_id)
    &&& valid_id(expected.server_boot_id)
    &&& !is_zero(expected.mutation.operation_id)
}

/// The parts of an outcome that are valid in themselves.
pub open spec fn well_formed_outcome(outcome: ExportMutationOutcomeModel) -> bool {
    &&& valid_id(outcome.workspace_id)
    &&& valid_export(outcome.export)
    &&& valid_authority(outcome.authority)
    &&& valid_id(outcome.session_id)
    &&& valid_id(outcome.server_boot_id)
}

/// A recorded mutation names its operation and has a sequence number.
pub open spec fn valid_outcome(outcome: ExportMutationOutcomeModel) -> bool {
    &&& well_formed_outcome(outcome)
    &&& !is_zero(outcome.mutation.operation_id)
    &&& outcome.mutation.sequence != 0
}

/// How an invalid outcome is refused.
pub open spec fn outcome_fault(outcome: ExportMutationOutcomeModel) -> ExportAuthorityError {
    if !well_formed_outcome(outcome) {
        ExportAuthorityError::Invalid
    } else {
        ExportAuthorityError::Corrupt
    }
}

/// An outcome is the one expected: it differs from it in nothing but the sequence
/// number that it was given.
pub open spec fn fulfils(
    outcome: ExportMutationOutcomeModel,
    expected: ExportMutationExpectationModel,
) -> bool {
    &&& outcome.workspace_id == expected.workspace_id
    &&& outcome.export == expected.export
    &&& outcome.authority == expected.authority
    &&& outcome.session_id == expected.session_id
    &&& outcome.server_boot_id == expected.server_boot_id
    &&& outcome.mutation.operation_id == expected.mutation.operation_id
    &&& outcome.mutation.command_digest == expected.mutation.command_digest
    &&& outcome.mutation.data_checksum == expected.mutation.data_checksum
    &&& outcome.kind == expected.kind
}

/// Whether `outcome` is the one expected.
pub open spec fn outcome_result(
    outcome: ExportMutationOutcomeModel,
    expected: ExportMutationExpectationModel,
) -> Result<(), ExportAuthorityError> {
    if !valid_expectation(expected) {
        Err(ExportAuthorityError::Invalid)
    } else if fulfils(outcome, expected) {
        Ok(())
    } else {
        Err(ExportAuthorityError::Conflict)
    }
}

pub fn validate_expectation(expected: &ExportMutationExpectation) -> (result: Result<
    (),
    ExportAuthorityError,
>)
    ensures
        result == verdict(valid_expectation(expected@), ExportAuthorityError::Invalid),
{
    validate_id(&expected.workspace_id)?;
    validate_export(&expected.export)?;
    validate_authority(&expected.authority)?;
    validate_id(&expected.session_id)?;
    validate_id(&expected.server_boot_id)?;
    if all_zero(&expected.mutation.operation_id.0) {
        return Err(ExportAuthorityError::Invalid);
    }
    Ok(())
}

pub fn validate_outcome(outcome: &ExportMutationOutcome) -> (result: Result<
    (),
    ExportAuthorityError,
>)
    ensures
        result == verdict(valid_outcome(outcome@), outcome_fault(outcome@)),
{
    validate_id(&outcome.workspace_id)?;
    validate_export(&outcome.export)?;
    validate_authority(&outcome.authority)?;
    validate_id(&outcome.session_id)?;
    validate_id(&outcome.server_boot_id)?;
    if all_zero(&outcome.mutation.operation_id.0) || outcome.mutation.sequence == 0 {
        return Err(ExportAuthorityError::Corrupt);
    }
    Ok(())
}

/// Accepts the outcome that was expected; any other is a conflict.
pub fn ensure_outcome(
    outcome: &ExportMutationOutcome,
    expected: &ExportMutationExpectation,
) -> (result: Result<(), ExportAuthorityError>)
    ensures
        result == outcome_result(outcome@, expected@),
{
    validate_expectation(expected)?;
    if outcome.workspace_id == expected.workspace_id && outcome.export.same(&expected.export)
        && outcome.authority.same(&expected.authority) && outcome.session_id == expected.session_id
        && outcome.server_boot_id == expected.server_boot_id && outcome.mutation.operation_id.same(
        &expected.mutation.operation_id,
    ) && outcome.mutation.command_digest.same(&expected.mutation.command_digest)
        && outcome.mutation.data_checksum.same(&expected.mutation.data_checksum) && outcome.kind
        == expected.kind {
        Ok(())
    } else {
        Err(ExportAuthorityError::Conflict)
    }
}

/// The key under which the expected outcome is stored.
pub open spec fn outcome_key_bytes(
    workspace_id: Seq<char>,
    authority: AuthorityVersionModel,
    session_id: Seq<char>,
    server_boot_id: Seq<char>,
    operation_id: Seq<u8>,
) -> Seq<u8> {
    export_rows(2) + session_scope(
        workspace_id,
        authority.actor,
        authority.actor_generation,
        authority.placement_epoch,
        session_id,
        server_boot_id,
    ) + operation_id
}

/// The key under which the outcome that `expected` describes is stored.
pub open spec fn expected_key(expected: ExportMutationExpectationModel) -> Seq<u8> {
    outcome_key_bytes(
        expected.workspace_id,
        expected.authority,
        expected.session_id,
        expected.server_boot_id,
        expected.mutation.operation_id,
    )
}

/// The key under which `outcome` is stored.
pub open spec fn stored_key(outcome: ExportMutationOutcomeModel) -> Seq<u8> {
    outcome_key_bytes(
        outcome.workspace_id,
        outcome.authority,
        outcome.session_id,
        outcome.server_boot_id,
        outcome.mutation.operation_id,
    )
}

/// The key under which the expected outcome is stored.
pub fn mutation_outcome_key(expected: &ExportMutationExpectation) -> (key: Bytes)
    requires
        fits16(expected.workspace_id@),
        fits16(expected.authority.actor@),
        fits16(expected.session_id@),
        fits16(expected.server_boot_id@),
    ensures
        contents(key) == expected_key(expected@),
{
    KeyCodec::new().export_mutation_outcome_key(
        &ExportMutationKey {
            workspace_id: expected.workspace_id.as_str(),
            actor: expected.authority.actor.as_str(),
            actor_generation: expected.authority.actor_generation,
            placement_epoch: expected.authority.placement_epoch,
            session_id: expected.session_id.as_str(),
            server_boot_id: expected.server_boot_id.as_str(),
            operation_id: expected.mutation.operation_id.0,
        },
    )
}

/// The key under which `outcome` is stored.
pub fn outcome_key(outcome: &ExportMutationOutcome) -> (key: Bytes)
    requires
        fits16(outcome.workspace_id@),
        fits16(outcome.authority.actor@),
        fits16(outcome.session_id@),
        fits16(outcome.server_boot_id@),
    ensures
        contents(key) == stored_key(outcome@),
{
    KeyCodec::new().export_mutation_outcome_key(
        &ExportMutationKey {
            workspace_id: outcome.workspace_id.as_str(),
            actor: outcome.authority.actor.as_str(),
            actor_generation: outcome.authority.actor_generation,
            placement_epoch: outcome.authority.placement_epoch,
            session_id: outcome.session_id.as_str(),
            server_boot_id: outcome.server_boot_id.as_str(),
            operation_id: outcome.mutation.operation_id.0,
        },
    )
}

/// A committed outcome and a later attempt that reuses its operation for something
/// else. It fences the session that made the attempt.
pub struct FenceMutationConflict {
    committed: ExportMutationOutcome,
    attempted: ExportMutationExpectation,
}

/// The attempt comes from the session and placement that committed the outcome, names
/// the same operation and export, and asks for something else.
pub open spec fn is_conflict(
    committed: ExportMutationOutcomeModel,
    attempted: ExportMutationExpectationModel,
) -> bool {
    &&& committed.workspace_id == attempted.workspace_id
    &&& committed.export == attempted.export
    &&& committed.authority.actor == attempted.authority.actor
    &&& committed.authority.actor_generation == attempted.authority.actor_generation
    &&& committed.authority.placement_epoch == attempted.authority.placement_epoch
    &&& committed.session_id == attempted.session_id
    &&& committed.server_boot_id == attempted.server_boot_id
    &&& committed.mutation.operation_id == attempted.mutation.operation_id
    &&& valid_expectation(attempted)
    &&& !fulfils(committed, attempted)
}

impl FenceMutationConflict {
    pub closed spec fn committed_view(self) -> ExportMutationOutcomeModel {
        self.committed@
    }

    pub closed spec fn attempted_view(self) -> ExportMutationExpectationModel {
        self.attempted@
    }

    #[verifier::type_invariant]
    closed spec fn wf(self) -> bool {
        is_conflict(self.committed@, self.attempted@)
    }

    /// A conflict of those two, if they are in conflict; otherwise the stored outcome
    /// does not belong where it was found.
    pub fn new(
        committed: ExportMutationOutcome,
        attempted: ExportMutationExpectation,
    ) -> (result: Result<Self, ExportAuthorityError>)
        ensures
            is_conflict(committed@, attempted@) ==> (result matches Ok(conflict)
                && conflict.committed_view() == committed@ && conflict.attempted_view()
                == attempted@),
            !is_conflict(committed@, attempted@) ==> (result matches Err(e) && e
                == ExportAuthorityError::Corrupt),
    {
        let conflicting: bool = match ensure_outcome(&committed, &attempted) {
            Err(ExportAuthorityError::Conflict) => true,
            _ => false,
        };
        if committed.workspace_id != attempted.workspace_id || !committed.export.same(
            &attempted.export,
        ) || committed.authority.actor != attempted.authority.actor
            || committed.authority.actor_generation != attempted.authority.actor_generation
            || committed.authority.placement_epoch != attempted.authority.placement_epoch
            || committed.session_id != attempted.session_id || committed.server_boot_id
            != attempted.server_boot_id || !committed.mutation.operation_id.same(
            &attempted.mutation.operation_id,
        ) || !conflicting {
            return Err(ExportAuthorityError::Corrupt);
        }
        Ok(FenceMutationConflict { committed, attempted })
    }

    /// Proves the conflict again from what is stored at the moment of fencing: it must
    /// be exactly the outcome that was in conflict.
    pub fn verify_current(&self, current: Option<&ExportMutationOutcome>) -> (result: Result<
        (),
        ExportAuthorityError,
    >)
        ensures
            result == verdict(
                current matches Some(current) && current@ == self.committed_view(),
                ExportAuthorityError::Corrupt,
            ),
    {
        proof {
            use_type_invariant(self);
        }
        match current {
            Some(current) => if current.same(&self.committed) {
                Ok(())
            } else {
                Err(ExportAuthorityError::Corrupt)
            },
            None => Err(ExportAuthorityError::Corrupt),
        }
    }

    /// The attempt that is in conflict.
    pub fn attempted(&self) -> (attempted: &ExportMutationExpectation)
        ensures
            attempted@ == self.attempted_view(),
    {
        &self.attempted
    }
}

} // verus!
