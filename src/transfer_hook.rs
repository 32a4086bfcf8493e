//! The transfer hook extension: a mint names a program that must approve
//! each transfer.
use vstd::prelude::*;
use crate::{Address, MAX_MULTISIG_SIGNERS};
use crate::accounts::{AccountEntry, AccountMeta, AccountRef, ArgumentError, account_meta};
use crate::cpi::{
    Invocation, fixed_invocation, target_authority_accounts, target_authority_infos,
    target_authority_metas,
};
use crate::encode::{FieldValue, address_bytes, encode, lemma_values_bytes_one, lemma_values_bytes_two};
use crate::layout::Variant;

verus! {

/// The instruction byte that follows the extension byte.
#[derive(Clone, Copy, Debug, PartialEq, Eq, Structural)]
pub enum TransferHookInstruction {
    Initialize,
    Update,
}

impl TransferHookInstruction {
    pub open spec fn spec_value(self) -> u8 {
        match self {
            TransferHookInstruction::Initialize => 0,
            TransferHookInstruction::Update => 1,
        }
    }

    pub fn value(&self) -> (r: u8)
        ensures
            r == self.spec_value(),
    {
        match self {
            TransferHookInstruction::Initialize => 0,
            TransferHookInstruction::Update => 1,
        }
    }
}

/// Payload length of `InitializeTransferHook`: two discriminator bytes, the
/// authority and the hook program id.
pub const INITIALIZE_DATA_LEN: usize = 66;

/// Payload length of `UpdateTransferHook`: two discriminator bytes and the
/// hook program id.
pub const UPDATE_DATA_LEN: usize = 34;

/// Transfer hook extension data for mints.
#[derive(Clone, Copy, Debug, PartialEq, Eq)]
pub struct TransferHook {
    /// Authority that can set the transfer hook program id
    pub authority: Address,
    /// Program that authorizes the transfer
    pub program_id: Address,
}

impl Default for TransferHook {
    fn default() -> (r: Self)
        ensures
            r.authority@ == Seq::new(32, |i: int| 0u8),
            r.program_id@ == Seq::new(32, |i: int| 0u8),
    {
        let r = TransferHook { authority: [0u8; 32], program_id: [0u8; 32] };
        assert(r.authority@ =~= Seq::new(32, |i: int| 0u8));
        assert(r.program_id@ =~= Seq::new(32, |i: int| 0u8));
        r
    }
}

/// The payload that initializes a transfer hook.
pub open spec fn initialize_data(authority: Option<Address>, program_id: Option<Address>) -> Seq<u8> {
    seq![36u8, 0u8] + address_bytes(authority) + address_bytes(program_id)
}

/// The payload that updates a transfer hook.
pub open spec fn update_data(program_id: Option<Address>) -> Seq<u8> {
    seq![36u8, 1u8] + address_bytes(program_id)
}

/// Writes the `Initialize` payload into `buffer`; an absent address is
/// written as zero bytes.
pub fn initialize_instruction_data(
    buffer: &mut [u8],
    authority: Option<Address>,
    program_id: Option<Address>,
) -> (r: &[u8])
    requires
        old(buffer)@.len() >= INITIALIZE_DATA_LEN,
    ensures
        r@ == initialize_data(authority, program_id),
{
    let values = [FieldValue::Address(authority), FieldValue::Address(program_id)];
    proof {
        lemma_values_bytes_two(values[0], values[1]);
        assert(values@ =~= seq![values[0], values[1]]);
    }
    let r = encode(&Variant::TransferHookInitialize.layout(), values.as_slice(), buffer);
    assert(r@ =~= initialize_data(authority, program_id));
    r
}

/// Writes the `Update` payload into `buffer`; an absent address is written
/// as zero bytes.
pub fn update_instruction_data(buffer: &mut [u8], program_id: Option<Address>) -> (r: &[u8])
    requires
        old(buffer)@.len() >= UPDATE_DATA_LEN,
    ensures
        r@ == update_data(program_id),
{
    let values = [FieldValue::Address(program_id)];
    proof {
        lemma_values_bytes_one(values[0]);
        assert(values@ =~= seq![values[0]]);
    }
    let r = encode(&Variant::TransferHookUpdate.layout(), values.as_slice(), buffer);
    assert(r@ =~= update_data(program_id));
    r
}

/// Initialize the transfer hook extension on a new mint.
///
/// Accounts expected by this instruction:
///
///  0. `[writable]` The mint to initialize.
#[derive(Debug)]
pub struct InitializeTransferHook<H> {
    /// Mint Account to initialize.
    pub mint_account: AccountRef<H>,
    /// Optional authority that can set the transfer hook program id
    pub authority: Option<Address>,
    /// Program that authorizes the transfer
    pub program_id: Option<Address>,
    /// Token Program
    pub token_program: Address,
}

impl<H: Copy> InitializeTransferHook<H> {
    /// The instruction and account handles for this request.
    pub fn invocation(&self) -> (r: Invocation<H>)
        ensures
            r.holds(
                self.token_program,
                seq![account_meta(self.mint_account.key, true, false)],
                seq![self.mint_account.info],
                initialize_data(self.authority, self.program_id),
            ),
    {
        let entries = [AccountEntry { meta: AccountMeta::writable(&self.mint_account.key), info: self.mint_account.info }];
        let mut buffer = [0u8; INITIALIZE_DATA_LEN];
        let data = initialize_instruction_data(&mut buffer, self.authority, self.program_id);
        let r = fixed_invocation(&self.token_program, entries.as_slice(), data);
        assert(r.instruction.accounts@ =~= seq![account_meta(self.mint_account.key, true, false)]);
        assert(r.account_infos@ =~= seq![self.mint_account.info]);
        r
    }
}

/// Update the program that the transfer hook of a mint calls.
///
/// Accounts expected by this instruction:
///
///   * Single authority
///   0. `[writable]` The mint.
///   1. `[signer]` The transfer hook authority.
///
///   * Multisignature authority
///   0. `[writable]` The mint.
///   1. `[]` The mint's transfer hook authority.
///   2. `..2+M` `[signer]` M signer accounts.
#[derive(Debug)]
pub struct UpdateTransferHook<'a, H> {
    /// Mint Account to update.
    pub mint_account: AccountRef<H>,
    /// Authority Account.
    pub authority: AccountRef<H>,
    /// Signer Accounts (for multisig support)
    pub signers: &'a [AccountRef<H>],
    /// Program that authorizes the transfer
    pub program_id: Option<Address>,
    /// Token Program
    pub token_program: Address,
}

impl<'a, H: Copy> UpdateTransferHook<'a, H> {
    /// The instruction and account handles for this request; fails when
    /// there are more co-signers than a multisig allows.
    pub fn invocation(&self) -> (r: Result<Invocation<H>, ArgumentError>)
        ensures
            r is Err <==> self.signers@.len() > MAX_MULTISIG_SIGNERS,
            r is Err ==> r == Err::<Invocation<H>, _>(ArgumentError::TooManySigners),
            r matches Ok(inv) ==> inv.holds(
                self.token_program,
                target_authority_metas(self.mint_account, self.authority, self.signers@),
                target_authority_infos(self.mint_account, self.authority, self.signers@),
                update_data(self.program_id),
            ),
    {
        let accounts = target_authority_accounts(&self.mint_account, &self.authority, self.signers)?;
        let mut buffer = [0u8; UPDATE_DATA_LEN];
        let data = update_instruction_data(&mut buffer, self.program_id);
        Ok(Invocation::new(&self.token_program, accounts, data))
    }
}

} // verus!
