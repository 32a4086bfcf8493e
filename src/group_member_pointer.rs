//! The group member pointer extension: a mint records the address of the account
//! that holds its group membership.
use vstd::prelude::*;
use crate::{Address, MAX_MULTISIG_SIGNERS};
use crate::accounts::{AccountEntry, AccountMeta, AccountRef, ArgumentError, account_meta};
use crate::cpi::{
    Invocation, fixed_invocation, target_authority_accounts, target_authority_infos,
    target_authority_metas,
};
use crate::encode::{FieldValue, address_bytes, encode, lemma_values_bytes_one, lemma_values_bytes_two};
use crate::layout::Variant;

verus! {

/// The instruction byte that follows the extension byte.
#[derive(Clone, Copy, Debug, PartialEq, Eq, Structural)]
pub enum InstructionDiscriminatorGroupMemberPointer {
    Initialize,
    Update,
}

impl InstructionDiscriminatorGroupMemberPointer {
    pub open spec fn spec_value(self) -> u8 {
        match self {
            InstructionDiscriminatorGroupMemberPointer::Initialize => 0,
            InstructionDiscriminatorGroupMemberPointer::Update => 1,
        }
    }

    pub fn value(&self) -> (r: u8)
        ensures
            r == self.spec_value(),
    {
        match self {
            InstructionDiscriminatorGroupMemberPointer::Initialize => 0,
            InstructionDiscriminatorGroupMemberPointer::Update => 1,
        }
    }
}

/// Payload length of `Initialize`: two discriminator bytes, the authority
/// and the member address.
pub const INITIALIZE_DATA_LEN: usize = 66;

/// Payload length of `Update`: two discriminator bytes and the member
/// address.
pub const UPDATE_DATA_LEN: usize = 34;

/// Group member pointer extension data for mints.
#[derive(Clone, Copy, Debug, PartialEq, Eq)]
pub struct GroupMemberPointer {
    /// Authority that can set the member address
    pub authority: Address,
    /// Account address that holds the member
    pub member_address: Address,
}

/// The payload that initializes a group member pointer.
pub open spec fn initialize_data(authority: Option<Address>, member_address: Option<Address>) -> Seq<u8> {
    seq![41u8, 0u8] + address_bytes(authority) + address_bytes(member_address)
}

/// The payload that updates a group member pointer.
pub open spec fn update_data(member_address: Option<Address>) -> Seq<u8> {
    seq![41u8, 1u8] + address_bytes(member_address)
}

/// Writes the `Initialize` payload into `buffer`; an absent address is
/// written as zero bytes.
pub fn initialize_instruction_data(
    buffer: &mut [u8],
    authority: Option<Address>,
    member_address: Option<Address>,
) -> (r: &[u8])
    requires
        old(buffer)@.len() >= INITIALIZE_DATA_LEN,
    ensures
        r@ == initialize_data(authority, member_address),
{
    let values = [FieldValue::Address(authority), FieldValue::Address(member_address)];
    proof {
        lemma_values_bytes_two(values[0], values[1]);
        assert(values@ =~= seq![values[0], values[1]]);
    }
    let r = encode(&Variant::GroupMemberPointerInitialize.layout(), values.as_slice(), buffer);
    assert(r@ =~= initialize_data(authority, member_address));
    r
}

/// Writes the `Update` payload into `buffer`; an absent address is written
/// as zero bytes.
pub fn update_instruction_data(buffer: &mut [u8], member_address: Option<Address>) -> (r: &[u8])
    requires
        old(buffer)@.len() >= UPDATE_DATA_LEN,
    ensures
        r@ == update_data(member_address),
{
    let values = [FieldValue::Address(member_address)];
    proof {
        lemma_values_bytes_one(values[0]);
        assert(values@ =~= seq![values[0]]);
    }
    let r = encode(&Variant::GroupMemberPointerUpdate.layout(), values.as_slice(), buffer);
    assert(r@ =~= update_data(member_address));
    r
}

/// Initialize a new mint with a group member pointer.
///
/// Accounts expected by this instruction:
///
///  0. `[writable]` The mint to initialize.
#[derive(Debug)]
pub struct Initialize<H> {
    /// The mint to initialize with the group member pointer extension.
    pub mint: AccountRef<H>,
    /// Optional authority that can later update the member address.
    pub authority: Option<Address>,
    /// Optional initial member address.
    pub member_address: Option<Address>,
    /// Token program (Token-2022).
    pub token_program: Address,
}

impl<H: Copy> Initialize<H> {
    /// The instruction and account handles for this request.
    pub fn invocation(&self) -> (r: Invocation<H>)
        ensures
            r.holds(
                self.token_program,
                seq![account_meta(self.mint.key, true, false)],
                seq![self.mint.info],
                initialize_data(self.authority, self.member_address),
            ),
    {
        let entries = [AccountEntry { meta: AccountMeta::writable(&self.mint.key), info: self.mint.info }];
        let mut buffer = [0u8; INITIALIZE_DATA_LEN];
        let data = initialize_instruction_data(&mut buffer, self.authority, self.member_address);
        let r = fixed_invocation(&self.token_program, entries.as_slice(), data);
        assert(r.instruction.accounts@ =~= seq![account_meta(self.mint.key, true, false)]);
        assert(r.account_infos@ =~= seq![self.mint.info]);
        r
    }
}

/// Update the group member pointer address. Only supported for mints that
/// include the `GroupMemberPointer` extension.
///
/// Accounts expected by this instruction:
///
///   * Single authority
///   0. `[writable]` The mint.
///   1. `[signer]` The group member pointer authority.
///
///   * Multisignature authority
///   0. `[writable]` The mint.
///   1. `[]` The mint's group member pointer authority.
///   2. `..2+M` `[signer]` M signer accounts.
#[derive(Debug)]
pub struct Update<'a, H> {
    /// The mint to update.
    pub mint: AccountRef<H>,
    /// The group member pointer authority.
    pub authority: AccountRef<H>,
    /// New member address (use `None` to clear).
    pub member_address: Option<Address>,
    /// The signer accounts if `authority` is a multisig.
    pub signers: &'a [AccountRef<H>],
    /// Token program (Token-2022).
    pub token_program: Address,
}

impl<'a, H: Copy> Update<'a, H> {
    /// The instruction and account handles for this request; fails when
    /// there are more co-signers than a multisig allows.
    pub fn invocation(&self) -> (r: Result<Invocation<H>, ArgumentError>)
        ensures
            r is Err <==> self.signers@.len() > MAX_MULTISIG_SIGNERS,
            r is Err ==> r == Err::<Invocation<H>, _>(ArgumentError::TooManySigners),
            r matches Ok(inv) ==> inv.holds(
                self.token_program,
                target_authority_metas(self.mint, self.authority, self.signers@),
                target_authority_infos(self.mint, self.authority, self.signers@),
                update_data(self.member_address),
            ),
    {
        let accounts = target_authority_accounts(&self.mint, &self.authority, self.signers)?;
        let mut buffer = [0u8; UPDATE_DATA_LEN];
        let data = update_instruction_data(&mut buffer, self.member_address);
        Ok(Invocation::new(&self.token_program, accounts, data))
    }
}

} // verus!
