//! The permanent delegate extension: a mint names a delegate that may
//! transfer or burn any of its tokens.
use vstd::prelude::*;
use crate::Address;
use crate::accounts::{AccountEntry, AccountMeta, AccountRef, account_meta};
use crate::cpi::{Invocation, fixed_invocation};
use crate::encode::{FieldValue, encode, lemma_values_bytes_one};
use crate::layout::Variant;

verus! {

/// Payload length of `InitializePermanentDelegate`: the extension byte and
/// the delegate.
pub const INITIALIZE_DATA_LEN: usize = 33;

/// Permanent delegate extension data for mints.
#[derive(Clone, Copy, Debug, PartialEq, Eq)]
pub struct PermanentDelegate {
    /// Optional permanent delegate for transferring or burning tokens
    pub delegate: Address,
}

/// The payload that initializes a permanent delegate.
pub open spec fn initialize_data(delegate: Address) -> Seq<u8> {
    seq![35u8] + delegate@
}

/// Writes the `InitializePermanentDelegate` payload into `buffer`.
pub fn initialize_instruction_data<'a>(buffer: &'a mut [u8], delegate: &Address) -> (r: &'a [u8])
    requires
        old(buffer)@.len() >= INITIALIZE_DATA_LEN,
    ensures
        r@ == initialize_data(*delegate),
{
    let values = [FieldValue::Address(Some(*delegate))];
    proof {
        lemma_values_bytes_one(values[0]);
        assert(values@ =~= seq![values[0]]);
    }
    let r = encode(&Variant::PermanentDelegateInitialize.layout(), values.as_slice(), buffer);
    assert(r@ =~= initialize_data(*delegate));
    r
}

/// Initialize the permanent delegate on a new mint.
///
/// Fails if the mint has already been initialized, so must be called before
/// `InitializeMint`.
///
/// The mint must have exactly enough space allocated for the base mint (82
/// bytes), plus 83 bytes of padding, 1 byte reserved for the account type,
/// then space required for this extension, plus any others.
///
/// Accounts expected by this instruction:
///
///   0. `[writable]` The mint to initialize.
///
/// Data expected by this instruction:
///   Pubkey for the permanent delegate
#[derive(Debug)]
pub struct InitializePermanentDelegate<H> {
    /// The mint to initialize the permanent delegate
    pub mint: AccountRef<H>,
    /// The public key for the account that can close the mint
    pub delegate: Address,
    /// Token Program
    pub token_program: Address,
}

impl<H: Copy> InitializePermanentDelegate<H> {
    /// The instruction and account handles for this request.
    pub fn invocation(&self) -> (r: Invocation<H>)
        ensures
            r.holds(
                self.token_program,
                seq![account_meta(self.mint.key, true, false)],
                seq![self.mint.info],
                initialize_data(self.delegate),
            ),
    {
        let entries = [AccountEntry { meta: AccountMeta::writable(&self.mint.key), info: self.mint.info }];
        let mut buffer = [0u8; INITIALIZE_DATA_LEN];
        let data = initialize_instruction_data(&mut buffer, &self.delegate);
        let r = fixed_invocation(&self.token_program, entries.as_slice(), data);
        assert(r.instruction.accounts@ =~= seq![account_meta(self.mint.key, true, false)]);
        assert(r.account_infos@ =~= seq![self.mint.info]);
        r
    }
}

} // verus!
