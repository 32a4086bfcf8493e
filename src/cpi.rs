//! Packaging of a cross-program invocation: one instruction value, and the
//! account handles that the runtime needs to carry it out.
use vstd::prelude::*;
use crate::Address;
use crate::accounts::{
    AccountEntry, AccountList, AccountMeta, AccountRef, ArgumentError, authority_list_infos,
    authority_list_metas, build_account_list, fixed_account_list,
};
use crate::MAX_MULTISIG_SIGNERS;

verus! {

/// An instruction for the callee: its program, the accounts it touches, and
/// its payload.
#[derive(Debug, PartialEq, Eq)]
pub struct Instruction {
    pub program_id: Address,
    pub accounts: Vec<AccountMeta>,
    pub data: Vec<u8>,
}

/// An instruction together with the handles of its accounts, index-aligned
/// with `instruction.accounts`: what the runtime's invoke primitive takes,
/// less the signer seeds, which the caller passes through untouched.
#[derive(Debug)]
pub struct Invocation<H> {
    pub instruction: Instruction,
    pub account_infos: Vec<H>,
}

impl<H> Invocation<H> {
    /// Packages `program_id`, the active entries of `accounts` and `data`.
    pub fn new(program_id: &Address, accounts: AccountList<H>, data: &[u8]) -> (r: Self)
        requires
            accounts.wf(),
        ensures
            r.instruction.program_id == *program_id,
            r.instruction.accounts@ == accounts.metas_view(),
            r.instruction.data@ == data@,
            r.account_infos@ == accounts.infos_view(),
    {
        let (metas, infos) = accounts.into_parts();
        Invocation {
            instruction: Instruction {
                program_id: *program_id,
                accounts: metas,
                data: vstd::slice::slice_to_vec(data),
            },
            account_infos: infos,
        }
    }

    /// The invocation holds exactly `metas` and `infos` for `program_id`,
    /// with `data` as its payload.
    pub open spec fn holds(self, program_id: Address, metas: Seq<AccountMeta>, infos: Seq<H>, data: Seq<u8>) -> bool {
        &&& self.instruction.program_id == program_id
        &&& self.instruction.accounts@ == metas
        &&& self.account_infos@ == infos
        &&& self.instruction.data@ == data
    }
}

/// The metadata of the accounts in `fixed`.
pub open spec fn entry_metas<H>(fixed: Seq<AccountEntry<H>>) -> Seq<AccountMeta> {
    fixed.map_values(|e: AccountEntry<H>| e.meta)
}

/// The handles of the accounts in `fixed`.
pub open spec fn entry_infos<H>(fixed: Seq<AccountEntry<H>>) -> Seq<H> {
    fixed.map_values(|e: AccountEntry<H>| e.info)
}

/// Packages an instruction whose accounts are the fixed `entries` alone.
pub fn fixed_invocation<H: Copy>(program_id: &Address, entries: &[AccountEntry<H>], data: &[u8]) -> (r: Invocation<H>)
    ensures
        r.holds(*program_id, entry_metas(entries@), entry_infos(entries@), data@),
{
    let list = fixed_account_list(entries);
    Invocation::new(program_id, list, data)
}

/// The single writable account that an authority-checked instruction
/// changes.
pub open spec fn target_entry<H>(target: AccountRef<H>) -> AccountEntry<H> {
    AccountEntry {
        meta: AccountMeta { pubkey: target.key, is_writable: true, is_signer: false },
        info: target.info,
    }
}

/// The account metadata of an instruction that changes `target` on the
/// word of `authority`, which `signers` may co-sign as a multisig.
pub open spec fn target_authority_metas<H>(target: AccountRef<H>, authority: AccountRef<H>, signers: Seq<AccountRef<H>>) -> Seq<AccountMeta> {
    authority_list_metas(seq![target_entry(target)], authority, signers)
}

/// The handles that go with `target_authority_metas`.
pub open spec fn target_authority_infos<H>(target: AccountRef<H>, authority: AccountRef<H>, signers: Seq<AccountRef<H>>) -> Seq<H> {
    authority_list_infos(seq![target_entry(target)], authority, signers)
}

/// The account list of an instruction that changes `target`, writable, on
/// the word of `authority`, which up to `MAX_MULTISIG_SIGNERS` co-signers may
/// sign for. Fails when there are more co-signers than that.
pub fn target_authority_accounts<H: Copy>(
    target: &AccountRef<H>,
    authority: &AccountRef<H>,
    signers: &[AccountRef<H>],
) -> (r: Result<AccountList<H>, ArgumentError>)
    ensures
        r is Err <==> signers@.len() > MAX_MULTISIG_SIGNERS,
        r is Err ==> r == Err::<AccountList<H>, _>(ArgumentError::TooManySigners),
        r matches Ok(list) ==> {
            &&& list.wf()
            &&& list.active_count() == 2 + signers@.len()
            &&& list.metas_view() == target_authority_metas(*target, *authority, signers@)
            &&& list.infos_view() == target_authority_infos(*target, *authority, signers@)
        },
{
    let fixed = [AccountEntry { meta: AccountMeta::writable(&target.key), info: target.info }];
    assert(fixed@ =~= seq![target_entry(*target)]);
    build_account_list(fixed.as_slice(), authority, signers, MAX_MULTISIG_SIGNERS)
}

} // verus!
