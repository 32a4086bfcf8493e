//! The bounded account-list builder: account metadata for the instruction and
//! the parallel list of account handles for the call, index-aligned.
use vstd::prelude::*;
use crate::Address;

verus! {

/// How the instruction refers to one account: its address and whether the
/// callee may write it and must see it sign.
#[derive(Clone, Copy, Debug, PartialEq, Eq)]
pub struct AccountMeta {
    pub pubkey: Address,
    pub is_writable: bool,
    pub is_signer: bool,
}

impl AccountMeta {
    pub fn new(pubkey: &Address, is_writable: bool, is_signer: bool) -> (r: Self)
        ensures
            r == (AccountMeta { pubkey: *pubkey, is_writable, is_signer }),
    {
        AccountMeta { pubkey: *pubkey, is_writable, is_signer }
    }

    /// A read-only account that need not sign.
    pub fn readonly(pubkey: &Address) -> (r: Self)
        ensures
            r == (AccountMeta { pubkey: *pubkey, is_writable: false, is_signer: false }),
    {
        AccountMeta { pubkey: *pubkey, is_writable: false, is_signer: false }
    }

    /// A writable account that need not sign.
    pub fn writable(pubkey: &Address) -> (r: Self)
        ensures
            r == (AccountMeta { pubkey: *pubkey, is_writable: true, is_signer: false }),
    {
        AccountMeta { pubkey: *pubkey, is_writable: true, is_signer: false }
    }

    /// A read-only account that must sign.
    pub fn readonly_signer(pubkey: &Address) -> (r: Self)
        ensures
            r == (AccountMeta { pubkey: *pubkey, is_writable: false, is_signer: true }),
    {
        AccountMeta { pubkey: *pubkey, is_writable: false, is_signer: true }
    }

    /// A writable account that must sign.
    pub fn writable_signer(pubkey: &Address) -> (r: Self)
        ensures
            r == (AccountMeta { pubkey: *pubkey, is_writable: true, is_signer: true }),
    {
        AccountMeta { pubkey: *pubkey, is_writable: true, is_signer: true }
    }
}

/// A live account as handed to the program: its address, and the handle
/// through which the runtime reaches its data.
#[derive(Clone, Copy, Debug)]
pub struct AccountRef<H> {
    pub key: Address,
    pub info: H,
}

/// An account that the instruction names, with the flags it is named with.
#[derive(Clone, Copy, Debug)]
pub struct AccountEntry<H> {
    pub meta: AccountMeta,
    pub info: H,
}

/// The metadata of the account at `key` with the given flags.
pub open spec fn account_meta(key: Address, is_writable: bool, is_signer: bool) -> AccountMeta {
    AccountMeta { pubkey: key, is_writable, is_signer }
}

/// The one validated precondition: more co-signers than the cap allows.
#[derive(Clone, Copy, Debug, PartialEq, Eq, Structural)]
pub enum ArgumentError {
    TooManySigners,
}

/// The authority's slot: read-only; a signer when it signs alone, a plain
/// reference to the multisig configuration when co-signers sign for it.
pub open spec fn authority_meta(key: Address, multisig: bool) -> AccountMeta {
    AccountMeta { pubkey: key, is_writable: false, is_signer: !multisig }
}

/// The co-signers' slots: read-only signers, in the order given.
pub open spec fn signer_metas<H>(signers: Seq<AccountRef<H>>) -> Seq<AccountMeta> {
    signers.map_values(
        |a: AccountRef<H>| AccountMeta { pubkey: a.key, is_writable: false, is_signer: true },
    )
}

/// The account metadata of fixed accounts, then the authority, then the
/// co-signers.
pub open spec fn authority_list_metas<H>(
    fixed: Seq<AccountEntry<H>>,
    authority: AccountRef<H>,
    signers: Seq<AccountRef<H>>,
) -> Seq<AccountMeta> {
    fixed.map_values(|e: AccountEntry<H>| e.meta).push(
        authority_meta(authority.key, signers.len() > 0),
    ) + signer_metas(signers)
}

/// The account handles in the same order as `authority_list_metas`.
pub open spec fn authority_list_infos<H>(
    fixed: Seq<AccountEntry<H>>,
    authority: AccountRef<H>,
    signers: Seq<AccountRef<H>>,
) -> Seq<H> {
    fixed.map_values(|e: AccountEntry<H>| e.info).push(authority.info) + signers.map_values(
        |a: AccountRef<H>| a.info,
    )
}

/// A bounded list of accounts: metadata and handles, index-aligned, never
/// more than the capacity it was made with. Only the active entries exist.
pub struct AccountList<H> {
    metas: Vec<AccountMeta>,
    infos: Vec<H>,
    capacity: usize,
}

impl<H> AccountList<H> {
    /// The metadata of the active entries.
    pub closed spec fn metas_view(&self) -> Seq<AccountMeta> {
        self.metas@
    }

    /// The handles of the active entries.
    pub closed spec fn infos_view(&self) -> Seq<H> {
        self.infos@
    }

    pub closed spec fn capacity_view(&self) -> nat {
        self.capacity as nat
    }

    /// The number of active entries.
    pub open spec fn active_count(&self) -> nat {
        self.metas_view().len()
    }

    pub open spec fn wf(&self) -> bool {
        &&& self.metas_view().len() == self.infos_view().len()
        &&& self.metas_view().len() <= self.capacity_view()
    }

    /// An empty list that holds at most `capacity` entries.
    pub fn with_capacity(capacity: usize) -> (r: Self)
        ensures
            r.wf(),
            r.metas_view() == Seq::<AccountMeta>::empty(),
            r.infos_view() == Seq::<H>::empty(),
            r.capacity_view() == capacity,
    {
        AccountList { metas: Vec::with_capacity(capacity), infos: Vec::with_capacity(capacity), capacity }
    }

    /// Appends one entry.
    pub fn push(&mut self, meta: AccountMeta, info: H)
        requires
            old(self).wf(),
            old(self).active_count() < old(self).capacity_view(),
        ensures
            final(self).wf(),
            final(self).metas_view() == old(self).metas_view().push(meta),
            final(self).infos_view() == old(self).infos_view().push(info),
            final(self).capacity_view() == old(self).capacity_view(),
    {
        self.metas.push(meta);
        self.infos.push(info);
    }

    /// The number of active entries.
    pub fn len(&self) -> (r: usize)
        requires
            self.wf(),
        ensures
            r == self.active_count(),
    {
        self.metas.len()
    }

    /// The metadata of the active entries, and nothing past them.
    pub fn metas(&self) -> (r: &[AccountMeta])
        ensures
            r@ == self.metas_view(),
    {
        self.metas.as_slice()
    }

    /// The handles of the active entries, and nothing past them.
    pub fn infos(&self) -> (r: &[H])
        ensures
            r@ == self.infos_view(),
    {
        self.infos.as_slice()
    }

    /// Splits the list into its metadata and its handles.
    pub fn into_parts(self) -> (r: (Vec<AccountMeta>, Vec<H>))
        ensures
            r.0@ == self.metas_view(),
            r.1@ == self.infos_view(),
    {
        (self.metas, self.infos)
    }
}

impl<H: Copy> AccountList<H> {
    /// Appends `entries` in order.
    pub fn extend_from_entries(&mut self, entries: &[AccountEntry<H>])
        requires
            old(self).wf(),
            old(self).active_count() + entries@.len() <= old(self).capacity_view(),
        ensures
            final(self).wf(),
            final(self).metas_view() == old(self).metas_view() + entries@.map_values(
                |e: AccountEntry<H>| e.meta,
            ),
            final(self).infos_view() == old(self).infos_view() + entries@.map_values(
                |e: AccountEntry<H>| e.info,
            ),
            final(self).capacity_view() == old(self).capacity_view(),
    {
        let ghost metas0 = self.metas_view();
        let ghost infos0 = self.infos_view();
        let mut i: usize = 0;
        while i < entries.len()
            invariant
                self.wf(),
                i <= entries@.len(),
                metas0.len() + entries@.len() <= self.capacity_view(),
                self.capacity_view() == old(self).capacity_view(),
                self.metas_view() == metas0 + entries@.take(i as int).map_values(
                    |e: AccountEntry<H>| e.meta,
                ),
                self.infos_view() == infos0 + entries@.take(i as int).map_values(
                    |e: AccountEntry<H>| e.info,
                ),
            decreases entries@.len() - i,
        {
            let e = entries[i];
            self.push(e.meta, e.info);
            proof {
                assert(entries@.take(i + 1) =~= entries@.take(i as int).push(e));
            }
            i = i + 1;
            assert(self.metas_view() =~= metas0 + entries@.take(i as int).map_values(
                |e: AccountEntry<H>| e.meta,
            ));
            assert(self.infos_view() =~= infos0 + entries@.take(i as int).map_values(
                |e: AccountEntry<H>| e.info,
            ));
        }
        assert(entries@.take(i as int) =~= entries@);
    }
}

/// Builds the account list of an instruction whose authority may be a
/// multisig: the fixed accounts as given, then the authority, then each
/// co-signer as a read-only signer in the order given. Fails, before anything
/// is built, when there are more than `max_signers` co-signers.
pub fn build_account_list<H: Copy>(
    fixed: &[AccountEntry<H>],
    authority: &AccountRef<H>,
    signers: &[AccountRef<H>],
    max_signers: usize,
) -> (r: Result<AccountList<H>, ArgumentError>)
    requires
        fixed@.len() + 1 + max_signers <= usize::MAX,
    ensures
        r is Err <==> signers@.len() > max_signers,
        r is Err ==> r == Err::<AccountList<H>, _>(ArgumentError::TooManySigners),
        r matches Ok(list) ==> {
            &&& list.wf()
            &&& list.capacity_view() == fixed@.len() + 1 + max_signers
            &&& list.active_count() == fixed@.len() + 1 + signers@.len()
            &&& list.metas_view() == authority_list_metas(fixed@, *authority, signers@)
            &&& list.infos_view() == authority_list_infos(fixed@, *authority, signers@)
        },
{
    if signers.len() > max_signers {
        return Err(ArgumentError::TooManySigners);
    }
    let mut list = AccountList::with_capacity(fixed.len() + 1 + max_signers);
    list.extend_from_entries(fixed);
    let multisig = signers.len() > 0;
    list.push(AccountMeta::new(&authority.key, false, !multisig), authority.info);
    let ghost head = list.metas_view();
    let ghost head_infos = list.infos_view();
    let mut j: usize = 0;
    while j < signers.len()
        invariant
            list.wf(),
            j <= signers@.len(),
            signers@.len() <= max_signers,
            list.capacity_view() == fixed@.len() + 1 + max_signers,
            head.len() == fixed@.len() + 1,
            list.metas_view() == head + signer_metas(signers@.take(j as int)),
            list.infos_view() == head_infos + signers@.take(j as int).map_values(
                |a: AccountRef<H>| a.info,
            ),
        decreases signers@.len() - j,
    {
        let s = signers[j];
        list.push(AccountMeta::readonly_signer(&s.key), s.info);
        proof {
            assert(signers@.take(j + 1) =~= signers@.take(j as int).push(s));
        }
        j = j + 1;
        assert(list.metas_view() =~= head + signer_metas(signers@.take(j as int)));
        assert(list.infos_view() =~= head_infos + signers@.take(j as int).map_values(
            |a: AccountRef<H>| a.info,
        ));
    }
    assert(signers@.take(j as int) =~= signers@);
    assert(list.metas_view() =~= authority_list_metas(fixed@, *authority, signers@));
    assert(list.infos_view() =~= authority_list_infos(fixed@, *authority, signers@));
    Ok(list)
}

/// Builds the account list of an instruction with only fixed accounts.
pub fn fixed_account_list<H: Copy>(fixed: &[AccountEntry<H>]) -> (r: AccountList<H>)
    ensures
        r.wf(),
        r.capacity_view() == fixed@.len(),
        r.metas_view() == fixed@.map_values(|e: AccountEntry<H>| e.meta),
        r.infos_view() == fixed@.map_values(|e: AccountEntry<H>| e.info),
{
    let mut list = AccountList::with_capacity(fixed.len());
    list.extend_from_entries(fixed);
    assert(list.metas_view() =~= fixed@.map_values(|e: AccountEntry<H>| e.meta));
    assert(list.infos_view() =~= fixed@.map_values(|e: AccountEntry<H>| e.info));
    list
}

} // verus!

verus! {

/// The account list holds exactly one slot per fixed account, one for the
/// authority and one per co-signer, metadata and handles alike.
pub proof fn lemma_authority_list_len<H>(
    fixed: Seq<AccountEntry<H>>,
    authority: AccountRef<H>,
    signers: Seq<AccountRef<H>>,
)
    ensures
        authority_list_metas(fixed, authority, signers).len() == fixed.len() + 1 + signers.len(),
        authority_list_infos(fixed, authority, signers).len() == fixed.len() + 1 + signers.len(),
{
}

/// Authority mode: with no co-signers the authority's slot is a signer;
/// with co-signers it is not, and every co-signer's slot is a read-only
/// signer holding that co-signer's address, in the order given.
pub proof fn lemma_authority_mode<H>(
    fixed: Seq<AccountEntry<H>>,
    authority: AccountRef<H>,
    signers: Seq<AccountRef<H>>,
)
    ensures
        ({
            let metas = authority_list_metas(fixed, authority, signers);
            &&& metas[fixed.len() as int].pubkey == authority.key
            &&& !metas[fixed.len() as int].is_writable
            &&& metas[fixed.len() as int].is_signer <==> signers.len() == 0
            &&& forall|i: int|
                0 <= i < signers.len() ==> {
                    let m = #[trigger] metas[fixed.len() + 1 + i];
                    &&& m.pubkey == signers[i].key
                    &&& m.is_signer
                    &&& !m.is_writable
                }
        }),
{
}

} // verus!
