//! The metadata pointer extension: a mint records the address of the account
//! that holds its metadata.
use vstd::prelude::*;
use crate::{Address, MAX_MULTISIG_SIGNERS};
use crate::accounts::{AccountEntry, AccountMeta, AccountRef, ArgumentError, account_meta};
use crate::cpi::{
    Invocation, fixed_invocation, target_authority_accounts, target_authority_infos,
    target_authority_metas,
};
use crate::encode::{FieldValue, address_bytes, encode, lemma_values_bytes_one, lemma_values_bytes_two};
use crate::layout::{ExtensionDiscriminator, Variant};

verus! {

/// The instruction byte that follows the extension byte.
#[derive(Clone, Copy, Debug, PartialEq, Eq, Structural)]
pub enum InstructionDiscriminatorMetadataPointer {
    Initialize,
    Update,
}

impl InstructionDiscriminatorMetadataPointer {
    pub open spec fn spec_value(self) -> u8 {
        match self {
            InstructionDiscriminatorMetadataPointer::Initialize => 0,
            InstructionDiscriminatorMetadataPointer::Update => 1,
        }
    }

    pub fn value(&self) -> (r: u8)
        ensures
            r == self.spec_value(),
    {
        match self {
            InstructionDiscriminatorMetadataPointer::Initialize => 0,
            InstructionDiscriminatorMetadataPointer::Update => 1,
        }
    }
}

/// Payload length of `Initialize`: two discriminator bytes, the authority
/// and the metadata address.
pub const INITIALIZE_DATA_LEN: usize = 66;

/// Payload length of `Update`: two discriminator bytes and the metadata
/// address.
pub const UPDATE_DATA_LEN: usize = 34;

/// Metadata pointer extension data for mints.
#[derive(Clone, Copy, Debug, PartialEq, Eq)]
pub struct MetadataPointer {
    /// Authority that can set the metadata address
    pub authority: Address,
    /// Account address that holds the metadata
    pub metadata_address: Address,
}

/// The payload that initializes a metadata pointer.
pub open spec fn initialize_data(authority: Option<Address>, metadata_address: Option<Address>) -> Seq<u8> {
    seq![39u8, 0u8] + address_bytes(authority) + address_bytes(metadata_address)
}

/// The payload that updates a metadata pointer.
pub open spec fn update_data(new_metadata_address: Option<Address>) -> Seq<u8> {
    seq![39u8, 1u8] + address_bytes(new_metadata_address)
}

/// An `Initialize` payload reads back at its fixed offsets: the extension
/// byte at 0, the instruction byte at 1, the authority from 2..34 and the
/// metadata address from 34..66.
pub proof fn lemma_initialize_offsets(authority: Option<Address>, metadata_address: Option<Address>)
    ensures
        ({
            let data = initialize_data(authority, metadata_address);
            &&& data.len() == INITIALIZE_DATA_LEN
            &&& data[0] == ExtensionDiscriminator::MetadataPointer.spec_value()
            &&& data[1] == InstructionDiscriminatorMetadataPointer::Initialize.spec_value()
            &&& data.subrange(2, 34) == address_bytes(authority)
            &&& data.subrange(34, 66) == address_bytes(metadata_address)
        }),
{
    let data = initialize_data(authority, metadata_address);
    assert(data.subrange(2, 34) =~= address_bytes(authority));
    assert(data.subrange(34, 66) =~= address_bytes(metadata_address));
}

/// Writes the `Initialize` payload into `buffer`; an absent address is
/// written as zero bytes.
pub fn initialize_instruction_data(
    buffer: &mut [u8],
    authority: Option<Address>,
    metadata_address: Option<Address>,
) -> (r: &[u8])
    requires
        old(buffer)@.len() >= INITIALIZE_DATA_LEN,
    ensures
        r@ == initialize_data(authority, metadata_address),
{
    let values = [FieldValue::Address(authority), FieldValue::Address(metadata_address)];
    proof {
        lemma_values_bytes_two(values[0], values[1]);
        assert(values@ =~= seq![values[0], values[1]]);
    }
    let r = encode(&Variant::MetadataPointerInitialize.layout(), values.as_slice(), buffer);
    assert(r@ =~= initialize_data(authority, metadata_address));
    r
}

/// Writes the `Update` payload into `buffer`; an absent address is written
/// as zero bytes.
pub fn update_instruction_data(buffer: &mut [u8], new_metadata_address: Option<Address>) -> (r: &[u8])
    requires
        old(buffer)@.len() >= UPDATE_DATA_LEN,
    ensures
        r@ == update_data(new_metadata_address),
{
    let values = [FieldValue::Address(new_metadata_address)];
    proof {
        lemma_values_bytes_one(values[0]);
        assert(values@ =~= seq![values[0]]);
    }
    let r = encode(&Variant::MetadataPointerUpdate.layout(), values.as_slice(), buffer);
    assert(r@ =~= update_data(new_metadata_address));
    r
}

/// Initialize a new mint with a metadata pointer.
///
/// Accounts expected by this instruction:
///
///  0. `[writable]` The mint to initialize.
#[derive(Debug)]
pub struct Initialize<H> {
    /// The mint to initialize with the metadata pointer extension.
    pub mint: AccountRef<H>,
    /// Optional authority that can later update the metadata address.
    pub authority: Option<Address>,
    /// Optional initial metadata address.
    pub metadata_address: Option<Address>,
    /// Token program (Token-2022).
    pub token_program: Address,
}

impl<H: Copy> Initialize<H> {
    /// The instruction and account handles for this request.
    pub fn invocation(&self) -> (r: Invocation<H>)
        ensures
            r.holds(
                self.token_program,
                seq![account_meta(self.mint.key, true, false)],
                seq![self.mint.info],
                initialize_data(self.authority, self.metadata_address),
            ),
    {
        let entries = [AccountEntry { meta: AccountMeta::writable(&self.mint.key), info: self.mint.info }];
        let mut buffer = [0u8; INITIALIZE_DATA_LEN];
        let data = initialize_instruction_data(&mut buffer, self.authority, self.metadata_address);
        let r = fixed_invocation(&self.token_program, entries.as_slice(), data);
        assert(r.instruction.accounts@ =~= seq![account_meta(self.mint.key, true, false)]);
        assert(r.account_infos@ =~= seq![self.mint.info]);
        r
    }
}

/// Update the metadata pointer address. Only supported for mints that
/// include the `MetadataPointer` extension.
///
/// Accounts expected by this instruction:
///
///   * Single authority
///   0. `[writable]` The mint.
///   1. `[signer]` The metadata pointer authority.
///
///   * Multisignature authority
///   0. `[writable]` The mint.
///   1. `[]` The mint's metadata pointer authority.
///   2. `..2+M` `[signer]` M signer accounts.
#[derive(Debug)]
pub struct Update<'a, H> {
    /// The mint to update.
    pub mint: AccountRef<H>,
    /// The metadata pointer authority.
    pub authority: AccountRef<H>,
    /// New metadata address (use `None` to clear).
    pub new_metadata_address: Option<Address>,
    /// The signer accounts if `authority` is a multisig.
    pub signers: &'a [AccountRef<H>],
    /// Token program (Token-2022).
    pub token_program: Address,
}

impl<'a, H: Copy> Update<'a, H> {
    /// The instruction and account handles for this request; fails when
    /// there are more co-signers than a multisig allows.
    pub fn invocation(&self) -> (r: Result<Invocation<H>, ArgumentError>)
        ensures
            r is Err <==> self.signers@.len() > MAX_MULTISIG_SIGNERS,
            r is Err ==> r == Err::<Invocation<H>, _>(ArgumentError::TooManySigners),
            r matches Ok(inv) ==> inv.holds(
                self.token_program,
                target_authority_metas(self.mint, self.authority, self.signers@),
                target_authority_infos(self.mint, self.authority, self.signers@),
                update_data(self.new_metadata_address),
            ),
    {
        let accounts = target_authority_accounts(&self.mint, &self.authority, self.signers)?;
        let mut buffer = [0u8; UPDATE_DATA_LEN];
        let data = update_instruction_data(&mut buffer, self.new_metadata_address);
        Ok(Invocation::new(&self.token_program, accounts, data))
    }
}

} // verus!
