//! The token group interface: groups of mints, each with a maximum size and
//! an update authority. Its instructions open with an eight-byte
//! little-endian discriminator instead of an extension byte.
use vstd::prelude::*;
use vstd::bytes::spec_u64_to_le_bytes;
use crate::Address;
use crate::accounts::{AccountEntry, AccountMeta, AccountRef, account_meta};
use crate::cpi::{Invocation, fixed_invocation};
use crate::encode::{
    FieldValue, address_bytes, encode, lemma_values_bytes_one, lemma_values_bytes_two,
};
use crate::layout::Variant;

verus! {

/// The eight-byte discriminators of the token group instructions.
#[derive(Clone, Copy, Debug, PartialEq, Eq, Structural)]
pub enum InstructionDiscriminatorTokenGroup {
    InitializeGroup,
    UpdateGroupMaxSize,
    UpdateGroupAuthority,
    InitializeMember,
}

impl InstructionDiscriminatorTokenGroup {
    pub open spec fn spec_value(self) -> u64 {
        match self {
            InstructionDiscriminatorTokenGroup::InitializeGroup => 288286683834380665,
            InstructionDiscriminatorTokenGroup::UpdateGroupMaxSize => 7931435946663945580,
            InstructionDiscriminatorTokenGroup::UpdateGroupAuthority => 14688734194668431777,
            InstructionDiscriminatorTokenGroup::InitializeMember => 9688630243381616792,
        }
    }

    /// The discriminator as an integer; on the wire it is little-endian.
    pub fn value(&self) -> (r: u64)
        ensures
            r == self.spec_value(),
    {
        match self {
            InstructionDiscriminatorTokenGroup::InitializeGroup => 288286683834380665,
            InstructionDiscriminatorTokenGroup::UpdateGroupMaxSize => 7931435946663945580,
            InstructionDiscriminatorTokenGroup::UpdateGroupAuthority => 14688734194668431777,
            InstructionDiscriminatorTokenGroup::InitializeMember => 9688630243381616792,
        }
    }
}

/// Payload length of `InitializeGroup`: the discriminator, the update
/// authority and the maximum size.
pub const INITIALIZE_GROUP_DATA_LEN: usize = 48;

/// Payload length of `UpdateGroupMaxSize`: the discriminator and the
/// maximum size.
pub const UPDATE_MAX_SIZE_DATA_LEN: usize = 16;

/// Payload length of `UpdateGroupAuthority`: the discriminator and the new
/// authority.
pub const UPDATE_AUTHORITY_DATA_LEN: usize = 40;

/// Payload length of `InitializeMember`: the discriminator alone.
pub const INITIALIZE_MEMBER_DATA_LEN: usize = 8;

/// Data struct for a `TokenGroup`
#[derive(Clone, Copy, Debug, PartialEq, Eq)]
pub struct TokenGroup {
    /// The authority that can sign to update the group
    pub update_authority: Address,
    /// The associated mint, used to counter spoofing to be sure that group
    /// belongs to a particular mint
    pub mint: Address,
    /// The current number of group members
    pub size: u64,
    /// The maximum number of group members
    pub max_size: u64,
}

/// The wire bytes of the discriminator `d`.
pub open spec fn discriminator_bytes(d: InstructionDiscriminatorTokenGroup) -> Seq<u8> {
    spec_u64_to_le_bytes(d.spec_value())
}

/// The payload that initializes a group.
pub open spec fn initialize_group_data(update_authority: Option<Address>, max_size: u64) -> Seq<u8> {
    discriminator_bytes(InstructionDiscriminatorTokenGroup::InitializeGroup) + address_bytes(
        update_authority,
    ) + spec_u64_to_le_bytes(max_size)
}

/// The payload that changes a group's maximum size.
pub open spec fn update_group_max_size_data(max_size: u64) -> Seq<u8> {
    discriminator_bytes(InstructionDiscriminatorTokenGroup::UpdateGroupMaxSize)
        + spec_u64_to_le_bytes(max_size)
}

/// The payload that changes a group's update authority.
pub open spec fn update_group_authority_data(new_authority: Option<Address>) -> Seq<u8> {
    discriminator_bytes(InstructionDiscriminatorTokenGroup::UpdateGroupAuthority) + address_bytes(
        new_authority,
    )
}

/// The payload that initializes a group member.
pub open spec fn initialize_member_data() -> Seq<u8> {
    discriminator_bytes(InstructionDiscriminatorTokenGroup::InitializeMember)
}

/// An `InitializeGroup` payload reads back at its fixed offsets: the
/// discriminator from bytes 0..8, the update authority from 8..40 and the
/// maximum size from 40..48, the integers little-endian.
pub proof fn lemma_initialize_group_offsets(update_authority: Option<Address>, max_size: u64)
    ensures
        ({
            let data = initialize_group_data(update_authority, max_size);
            &&& data.len() == INITIALIZE_GROUP_DATA_LEN
            &&& vstd::bytes::spec_u64_from_le_bytes(data.subrange(0, 8))
                == InstructionDiscriminatorTokenGroup::InitializeGroup.spec_value()
            &&& data.subrange(8, 40) == address_bytes(update_authority)
            &&& vstd::bytes::spec_u64_from_le_bytes(data.subrange(40, 48)) == max_size
        }),
{
    vstd::bytes::lemma_auto_spec_u64_to_from_le_bytes();
    let d = discriminator_bytes(InstructionDiscriminatorTokenGroup::InitializeGroup);
    let a = address_bytes(update_authority);
    let m = spec_u64_to_le_bytes(max_size);
    let data = initialize_group_data(update_authority, max_size);
    assert(data.subrange(0, 8) =~= d);
    assert(data.subrange(8, 40) =~= a);
    assert(data.subrange(40, 48) =~= m);
}

/// Writes the `InitializeGroup` payload into `buffer`; an absent update
/// authority is written as zero bytes.
pub fn initialize_group_instruction_data(
    buffer: &mut [u8],
    update_authority: Option<Address>,
    max_size: u64,
) -> (r: &[u8])
    requires
        old(buffer)@.len() >= INITIALIZE_GROUP_DATA_LEN,
    ensures
        r@ == initialize_group_data(update_authority, max_size),
{
    let values = [FieldValue::Address(update_authority), FieldValue::U64(max_size)];
    proof {
        lemma_values_bytes_two(values[0], values[1]);
        assert(values@ =~= seq![values[0], values[1]]);
        vstd::bytes::lemma_auto_spec_u64_to_from_le_bytes();
    }
    let r = encode(&Variant::InitializeGroup.layout(), values.as_slice(), buffer);
    assert(r@ =~= initialize_group_data(update_authority, max_size));
    r
}

/// Writes the `UpdateGroupMaxSize` payload into `buffer`.
pub fn update_group_max_size_instruction_data(buffer: &mut [u8], max_size: u64) -> (r: &[u8])
    requires
        old(buffer)@.len() >= UPDATE_MAX_SIZE_DATA_LEN,
    ensures
        r@ == update_group_max_size_data(max_size),
{
    let values = [FieldValue::U64(max_size)];
    proof {
        lemma_values_bytes_one(values[0]);
        assert(values@ =~= seq![values[0]]);
        vstd::bytes::lemma_auto_spec_u64_to_from_le_bytes();
    }
    let r = encode(&Variant::UpdateGroupMaxSize.layout(), values.as_slice(), buffer);
    assert(r@ =~= update_group_max_size_data(max_size));
    r
}

/// Writes the `UpdateGroupAuthority` payload into `buffer`; an absent new
/// authority is written as zero bytes.
pub fn update_group_authority_instruction_data(
    buffer: &mut [u8],
    new_authority: Option<Address>,
) -> (r: &[u8])
    requires
        old(buffer)@.len() >= UPDATE_AUTHORITY_DATA_LEN,
    ensures
        r@ == update_group_authority_data(new_authority),
{
    let values = [FieldValue::Address(new_authority)];
    proof {
        lemma_values_bytes_one(values[0]);
        assert(values@ =~= seq![values[0]]);
        vstd::bytes::lemma_auto_spec_u64_to_from_le_bytes();
    }
    let r = encode(&Variant::UpdateGroupAuthority.layout(), values.as_slice(), buffer);
    assert(r@ =~= update_group_authority_data(new_authority));
    r
}

/// Writes the `InitializeMember` payload into `buffer`.
pub fn initialize_member_instruction_data(buffer: &mut [u8]) -> (r: &[u8])
    requires
        old(buffer)@.len() >= INITIALIZE_MEMBER_DATA_LEN,
    ensures
        r@ == initialize_member_data(),
{
    let values: [FieldValue; 0] = [];
    proof {
        assert(values@ =~= Seq::<FieldValue>::empty());
        vstd::bytes::lemma_auto_spec_u64_to_from_le_bytes();
    }
    let r = encode(&Variant::InitializeMember.layout(), values.as_slice(), buffer);
    assert(r@ =~= initialize_member_data());
    r
}

/// Initialize a new `Group`
///
/// Assumes one has already initialized a mint for the group.
///
/// Accounts expected by this instruction:
///
///   0. `[writable]` Group
///   1. `[]` Mint
///   2. `[signer]` Mint authority
#[derive(Debug)]
pub struct InitializeGroup<H> {
    /// Group Account
    pub group: AccountRef<H>,
    /// Mint Account
    pub mint: AccountRef<H>,
    /// Mint authority
    pub mint_authority: AccountRef<H>,
    /// Update authority for the group
    pub update_authority: Option<Address>,
    /// The maximum number of group members
    pub max_size: u64,
    /// Token Group Program
    pub program_id: Address,
}

impl<H: Copy> InitializeGroup<H> {
    /// The instruction and account handles for this request.
    pub fn invocation(&self) -> (r: Invocation<H>)
        ensures
            r.holds(
                self.program_id,
                seq![
                    account_meta(self.group.key, true, false),
                    account_meta(self.mint.key, false, false),
                    account_meta(self.mint_authority.key, false, true),
                ],
                seq![self.group.info, self.mint.info, self.mint_authority.info],
                initialize_group_data(self.update_authority, self.max_size),
            ),
    {
        let entries = [
            AccountEntry { meta: AccountMeta::writable(&self.group.key), info: self.group.info },
            AccountEntry { meta: AccountMeta::readonly(&self.mint.key), info: self.mint.info },
            AccountEntry {
                meta: AccountMeta::readonly_signer(&self.mint_authority.key),
                info: self.mint_authority.info,
            },
        ];
        let mut buffer = [0u8; INITIALIZE_GROUP_DATA_LEN];
        let data = initialize_group_instruction_data(&mut buffer, self.update_authority, self.max_size);
        let r = fixed_invocation(&self.program_id, entries.as_slice(), data);
        assert(r.instruction.accounts@ =~= seq![
            account_meta(self.group.key, true, false),
            account_meta(self.mint.key, false, false),
            account_meta(self.mint_authority.key, false, true),
        ]);
        assert(r.account_infos@ =~= seq![self.group.info, self.mint.info, self.mint_authority.info]);
        r
    }
}

/// Initialize a new `Member` of a `Group`
///
/// Assumes the `Group` has already been initialized,
/// as well as the mint for the member.
///
/// Accounts expected by this instruction:
///
///   0. `[writable]` Member
///   1. `[]` Member mint
///   2. `[signer]` Member mint authority
///   3. `[writable]` Group
///   4. `[signer]` Group update authority
#[derive(Debug)]
pub struct InitializeMember<H> {
    /// Member Account
    pub member: AccountRef<H>,
    /// Member mint
    pub member_mint: AccountRef<H>,
    /// Member mint authority
    pub member_mint_authority: AccountRef<H>,
    /// Group Account
    pub group: AccountRef<H>,
    /// Group update authority
    pub group_update_authority: AccountRef<H>,
    /// Token Group Program
    pub program_id: Address,
}

impl<H: Copy> InitializeMember<H> {
    /// The instruction and account handles for this request.
    pub fn invocation(&self) -> (r: Invocation<H>)
        ensures
            r.holds(
                self.program_id,
                seq![
                    account_meta(self.member.key, true, false),
                    account_meta(self.member_mint.key, false, false),
                    account_meta(self.member_mint_authority.key, false, true),
                    account_meta(self.group.key, true, false),
                    account_meta(self.group_update_authority.key, false, true),
                ],
                seq![
                    self.member.info,
                    self.member_mint.info,
                    self.member_mint_authority.info,
                    self.group.info,
                    self.group_update_authority.info,
                ],
                initialize_member_data(),
            ),
    {
        let entries = [
            AccountEntry { meta: AccountMeta::writable(&self.member.key), info: self.member.info },
            AccountEntry {
                meta: AccountMeta::readonly(&self.member_mint.key),
                info: self.member_mint.info,
            },
            AccountEntry {
                meta: AccountMeta::readonly_signer(&self.member_mint_authority.key),
                info: self.member_mint_authority.info,
            },
            AccountEntry { meta: AccountMeta::writable(&self.group.key), info: self.group.info },
            AccountEntry {
                meta: AccountMeta::readonly_signer(&self.group_update_authority.key),
                info: self.group_update_authority.info,
            },
        ];
        let mut buffer = [0u8; INITIALIZE_MEMBER_DATA_LEN];
        let data = initialize_member_instruction_data(&mut buffer);
        let r = fixed_invocation(&self.program_id, entries.as_slice(), data);
        assert(r.instruction.accounts@ =~= seq![
            account_meta(self.member.key, true, false),
            account_meta(self.member_mint.key, false, false),
            account_meta(self.member_mint_authority.key, false, true),
            account_meta(self.group.key, true, false),
            account_meta(self.group_update_authority.key, false, true),
        ]);
        assert(r.account_infos@ =~= seq![
            self.member.info,
            self.member_mint.info,
            self.member_mint_authority.info,
            self.group.info,
            self.group_update_authority.info,
        ]);
        r
    }
}

/// Update the authority of a `Group`
///
/// Accounts expected by this instruction:
///
///   0. `[writable]` Group
///   1. `[signer]` Current update authority
#[derive(Debug)]
pub struct UpdateGroupAuthority<H> {
    /// Group Account
    pub group: AccountRef<H>,
    /// Current update authority
    pub current_authority: AccountRef<H>,
    /// New authority for the group, or None to unset
    pub new_authority: Option<Address>,
    /// Token Group Program
    pub program_id: Address,
}

impl<H: Copy> UpdateGroupAuthority<H> {
    /// The instruction and account handles for this request.
    pub fn invocation(&self) -> (r: Invocation<H>)
        ensures
            r.holds(
                self.program_id,
                seq![
                    account_meta(self.group.key, true, false),
                    account_meta(self.current_authority.key, false, true),
                ],
                seq![self.group.info, self.current_authority.info],
                update_group_authority_data(self.new_authority),
            ),
    {
        let entries = [
            AccountEntry { meta: AccountMeta::writable(&self.group.key), info: self.group.info },
            AccountEntry {
                meta: AccountMeta::readonly_signer(&self.current_authority.key),
                info: self.current_authority.info,
            },
        ];
        let mut buffer = [0u8; UPDATE_AUTHORITY_DATA_LEN];
        let data = update_group_authority_instruction_data(&mut buffer, self.new_authority);
        let r = fixed_invocation(&self.program_id, entries.as_slice(), data);
        assert(r.instruction.accounts@ =~= seq![
            account_meta(self.group.key, true, false),
            account_meta(self.current_authority.key, false, true),
        ]);
        assert(r.account_infos@ =~= seq![self.group.info, self.current_authority.info]);
        r
    }
}

/// Update the max size of a `Group`
///
/// Accounts expected by this instruction:
///
///   0. `[writable]` Group
///   1. `[signer]` Update authority
#[derive(Debug)]
pub struct UpdateGroupMaxSize<H> {
    /// Group Account
    pub group: AccountRef<H>,
    /// Update authority
    pub update_authority: AccountRef<H>,
    /// New max size for the group
    pub max_size: u64,
    /// Token Group Program
    pub program_id: Address,
}

impl<H: Copy> UpdateGroupMaxSize<H> {
    /// The instruction and account handles for this request.
    pub fn invocation(&self) -> (r: Invocation<H>)
        ensures
            r.holds(
                self.program_id,
                seq![
                    account_meta(self.group.key, true, false),
                    account_meta(self.update_authority.key, false, true),
                ],
                seq![self.group.info, self.update_authority.info],
                update_group_max_size_data(self.max_size),
            ),
    {
        let entries = [
            AccountEntry { meta: AccountMeta::writable(&self.group.key), info: self.group.info },
            AccountEntry {
                meta: AccountMeta::readonly_signer(&self.update_authority.key),
                info: self.update_authority.info,
            },
        ];
        let mut buffer = [0u8; UPDATE_MAX_SIZE_DATA_LEN];
        let data = update_group_max_size_instruction_data(&mut buffer, self.max_size);
        let r = fixed_invocation(&self.program_id, entries.as_slice(), data);
        assert(r.instruction.accounts@ =~= seq![
            account_meta(self.group.key, true, false),
            account_meta(self.update_authority.key, false, true),
        ]);
        assert(r.account_infos@ =~= seq![self.group.info, self.update_authority.info]);
        r
    }
}

} // verus!
