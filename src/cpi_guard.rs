//! The CPI guard extension: while it is on, a token account refuses certain
//! actions when they come through a cross-program invocation.
use vstd::prelude::*;
use crate::{Address, MAX_MULTISIG_SIGNERS};
use crate::accounts::{AccountRef, ArgumentError};
use crate::cpi::{Invocation, target_authority_accounts, target_authority_infos, target_authority_metas};
use crate::encode::encode;
use crate::layout::Variant;

verus! {

/// The instruction byte of `DisableCpiGuard`.
pub const DISABLE_DISCRIMINATOR: u8 = 1;

/// Payload length of `DisableCpiGuard`: the two discriminator bytes.
pub const DISABLE_DATA_LEN: usize = 2;

/// The payload that disables the CPI guard.
pub open spec fn disable_data() -> Seq<u8> {
    seq![34u8, 1u8]
}

/// Disable the CPI Guard extension on a token account.
///
/// Expected accounts:
///
/// **Single authority**
/// 0. `[writable]` The token account to disable cpi-guard on.
/// 1. `[signer]` The owner of the token account.
///
/// **Multisignature authority**
/// 0. `[writable]` The token account to disable cpi-guard on.
/// 1. `[readonly]` The multisig account that owns the token account.
/// 2. `[signer]` M signer accounts (as required by the multisig).
#[derive(Debug)]
pub struct DisableCpiGuard<'a, H> {
    /// The token account to disable the CPI guard on.
    pub token_account: AccountRef<H>,
    /// The owner of the token account (single or multisig).
    pub authority: AccountRef<H>,
    /// Signer accounts if the authority is a multisig.
    pub signers: &'a [AccountRef<H>],
    /// Token program (Token-2022).
    pub token_program: Address,
}

impl<'a, H: Copy> DisableCpiGuard<'a, H> {
    /// The instruction and account handles for this request; fails when
    /// there are more co-signers than a multisig allows.
    pub fn invocation(&self) -> (r: Result<Invocation<H>, ArgumentError>)
        ensures
            r is Err <==> self.signers@.len() > MAX_MULTISIG_SIGNERS,
            r is Err ==> r == Err::<Invocation<H>, _>(ArgumentError::TooManySigners),
            r matches Ok(inv) ==> inv.holds(
                self.token_program,
                target_authority_metas(self.token_account, self.authority, self.signers@),
                target_authority_infos(self.token_account, self.authority, self.signers@),
                disable_data(),
            ),
    {
        let accounts = target_authority_accounts(&self.token_account, &self.authority, self.signers)?;
        let mut buffer = [0u8; DISABLE_DATA_LEN];
        let no_values: [crate::encode::FieldValue; 0] = [];
        assert(no_values@ =~= Seq::<crate::encode::FieldValue>::empty());
        let data = encode(&Variant::CpiGuardDisable.layout(), no_values.as_slice(), &mut buffer);
        assert(data@ =~= disable_data());
        Ok(Invocation::new(&self.token_program, accounts, data))
    }
}

} // verus!
