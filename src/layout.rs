//! The layout table: for each instruction variant, the discriminator prefix
//! and the ordered list of fixed-width fields that follow it.
use vstd::prelude::*;
use crate::cpi_guard::DISABLE_DISCRIMINATOR;
use crate::group_member_pointer::InstructionDiscriminatorGroupMemberPointer;
use crate::group_pointer::InstructionDiscriminatorGroupPointer;
use crate::metadata_pointer::InstructionDiscriminatorMetadataPointer;
use crate::token_group::InstructionDiscriminatorTokenGroup;
use crate::transfer_hook::TransferHookInstruction;

verus! {

/// The byte that identifies a token extension on the wire.
#[derive(Clone, Copy, Debug, PartialEq, Eq, Structural)]
pub enum ExtensionDiscriminator {
    /// Default Account State extension
    DefaultAccountState,
    /// Memo Transfer extension
    MemoTransfer,
    /// Interest-Bearing Mint extension
    InterestBearingMint,
    /// CPI Guard extension
    CpiGuard,
    /// Permanent Delegate extension
    PermanentDelegate,
    /// Transfer Hook extension
    TransferHook,
    /// Metadata Pointer extension
    MetadataPointer,
    /// Group Pointer extension
    GroupPointer,
    /// Group Member Pointer extension
    GroupMemberPointer,
    /// Scaled UI Amount extension
    ScaledUiAmount,
    /// Pausable extension
    Pausable,
}

impl ExtensionDiscriminator {
    pub open spec fn spec_value(self) -> u8 {
        match self {
            ExtensionDiscriminator::DefaultAccountState => 28,
            ExtensionDiscriminator::MemoTransfer => 30,
            ExtensionDiscriminator::InterestBearingMint => 33,
            ExtensionDiscriminator::CpiGuard => 34,
            ExtensionDiscriminator::PermanentDelegate => 35,
            ExtensionDiscriminator::TransferHook => 36,
            ExtensionDiscriminator::MetadataPointer => 39,
            ExtensionDiscriminator::GroupPointer => 40,
            ExtensionDiscriminator::GroupMemberPointer => 41,
            ExtensionDiscriminator::ScaledUiAmount => 43,
            ExtensionDiscriminator::Pausable => 44,
        }
    }

    /// The wire byte of this extension.
    pub fn value(&self) -> (r: u8)
        ensures
            r == self.spec_value(),
    {
        match self {
            ExtensionDiscriminator::DefaultAccountState => 28,
            ExtensionDiscriminator::MemoTransfer => 30,
            ExtensionDiscriminator::InterestBearingMint => 33,
            ExtensionDiscriminator::CpiGuard => 34,
            ExtensionDiscriminator::PermanentDelegate => 35,
            ExtensionDiscriminator::TransferHook => 36,
            ExtensionDiscriminator::MetadataPointer => 39,
            ExtensionDiscriminator::GroupPointer => 40,
            ExtensionDiscriminator::GroupMemberPointer => 41,
            ExtensionDiscriminator::ScaledUiAmount => 43,
            ExtensionDiscriminator::Pausable => 44,
        }
    }
}

/// The discriminator prefix that opens a payload.
#[derive(Clone, Copy, Debug, PartialEq, Eq, Structural)]
pub enum Prefix {
    /// A single extension byte.
    Extension(u8),
    /// An extension byte followed by an instruction byte.
    ExtensionInstruction(u8, u8),
    /// An eight-byte little-endian instruction discriminator, with no
    /// separate extension byte.
    Interface(u64),
}

impl Prefix {
    /// The bytes of this prefix on the wire.
    pub open spec fn bytes(self) -> Seq<u8> {
        match self {
            Prefix::Extension(e) => seq![e],
            Prefix::ExtensionInstruction(e, i) => seq![e, i],
            Prefix::Interface(d) => vstd::bytes::spec_u64_to_le_bytes(d),
        }
    }

    pub open spec fn spec_len(self) -> nat {
        match self {
            Prefix::Extension(_) => 1,
            Prefix::ExtensionInstruction(_, _) => 2,
            Prefix::Interface(_) => 8,
        }
    }

    pub proof fn lemma_len(self)
        ensures
            self.bytes().len() == self.spec_len(),
    {
        vstd::bytes::lemma_auto_spec_u64_to_from_le_bytes();
    }

    /// The number of bytes in this prefix.
    pub fn len(&self) -> (r: usize)
        ensures
            r == self.spec_len(),
    {
        match self {
            Prefix::Extension(_) => 1,
            Prefix::ExtensionInstruction(_, _) => 2,
            Prefix::Interface(_) => 8,
        }
    }
}

/// The kind of a fixed-width field of a payload.
#[derive(Clone, Copy, Debug, PartialEq, Eq, Structural)]
pub enum FieldKind {
    /// A 32-byte address, which may be absent.
    Address,
    /// A little-endian `u64`, always present.
    U64,
}

/// The width in bytes of a field of kind `k`.
pub open spec fn field_width(k: FieldKind) -> nat {
    match k {
        FieldKind::Address => 32,
        FieldKind::U64 => 8,
    }
}

/// The total width of the fields `ks`, laid out back to back.
pub open spec fn fields_width(ks: Seq<FieldKind>) -> nat
    decreases ks.len(),
{
    if ks.len() == 0 {
        0
    } else {
        fields_width(ks.drop_last()) + field_width(ks.last())
    }
}

pub proof fn lemma_fields_width_take(ks: Seq<FieldKind>, i: int)
    requires
        0 <= i <= ks.len(),
    ensures
        fields_width(ks.take(i)) <= fields_width(ks),
        i < ks.len() ==> fields_width(ks.take(i + 1)) == fields_width(ks.take(i)) + field_width(
            ks[i],
        ),
    decreases ks.len(),
{
    if i < ks.len() {
        assert(ks.take(i + 1).drop_last() =~= ks.take(i));
        lemma_fields_width_take(ks.drop_last(), i);
        assert(ks.drop_last().take(i) =~= ks.take(i));
    } else {
        assert(ks.take(i) =~= ks);
    }
}

/// A layout descriptor: a prefix, then the fields in declaration order,
/// contiguous and without padding.
pub struct Layout {
    pub prefix: Prefix,
    pub fields: Vec<FieldKind>,
}

impl Layout {
    /// The number of bytes a payload of this layout takes.
    pub open spec fn spec_len(&self) -> nat {
        self.prefix.spec_len() + fields_width(self.fields@)
    }
}

} // verus!

verus! {

/// Every instruction variant that this library encodes.
#[derive(Clone, Copy, Debug, PartialEq, Eq, Structural)]
pub enum Variant {
    MetadataPointerInitialize,
    MetadataPointerUpdate,
    GroupPointerInitialize,
    GroupPointerUpdate,
    GroupMemberPointerInitialize,
    GroupMemberPointerUpdate,
    TransferHookInitialize,
    TransferHookUpdate,
    PermanentDelegateInitialize,
    CpiGuardDisable,
    InitializeGroup,
    UpdateGroupMaxSize,
    UpdateGroupAuthority,
    InitializeMember,
}

impl Variant {
    /// The discriminator prefix of this variant.
    pub open spec fn spec_prefix(self) -> Prefix {
        match self {
            Variant::MetadataPointerInitialize => Prefix::ExtensionInstruction(
                ExtensionDiscriminator::MetadataPointer.spec_value(),
                InstructionDiscriminatorMetadataPointer::Initialize.spec_value(),
            ),
            Variant::MetadataPointerUpdate => Prefix::ExtensionInstruction(
                ExtensionDiscriminator::MetadataPointer.spec_value(),
                InstructionDiscriminatorMetadataPointer::Update.spec_value(),
            ),
            Variant::GroupPointerInitialize => Prefix::ExtensionInstruction(
                ExtensionDiscriminator::GroupPointer.spec_value(),
                InstructionDiscriminatorGroupPointer::Initialize.spec_value(),
            ),
            Variant::GroupPointerUpdate => Prefix::ExtensionInstruction(
                ExtensionDiscriminator::GroupPointer.spec_value(),
                InstructionDiscriminatorGroupPointer::Update.spec_value(),
            ),
            Variant::GroupMemberPointerInitialize => Prefix::ExtensionInstruction(
                ExtensionDiscriminator::GroupMemberPointer.spec_value(),
                InstructionDiscriminatorGroupMemberPointer::Initialize.spec_value(),
            ),
            Variant::GroupMemberPointerUpdate => Prefix::ExtensionInstruction(
                ExtensionDiscriminator::GroupMemberPointer.spec_value(),
                InstructionDiscriminatorGroupMemberPointer::Update.spec_value(),
            ),
            Variant::TransferHookInitialize => Prefix::ExtensionInstruction(
                ExtensionDiscriminator::TransferHook.spec_value(),
                TransferHookInstruction::Initialize.spec_value(),
            ),
            Variant::TransferHookUpdate => Prefix::ExtensionInstruction(
                ExtensionDiscriminator::TransferHook.spec_value(),
                TransferHookInstruction::Update.spec_value(),
            ),
            Variant::PermanentDelegateInitialize => Prefix::Extension(
                ExtensionDiscriminator::PermanentDelegate.spec_value(),
            ),
            Variant::CpiGuardDisable => Prefix::ExtensionInstruction(
                ExtensionDiscriminator::CpiGuard.spec_value(),
                DISABLE_DISCRIMINATOR,
            ),
            Variant::InitializeGroup => Prefix::Interface(
                InstructionDiscriminatorTokenGroup::InitializeGroup.spec_value(),
            ),
            Variant::UpdateGroupMaxSize => Prefix::Interface(
                InstructionDiscriminatorTokenGroup::UpdateGroupMaxSize.spec_value(),
            ),
            Variant::UpdateGroupAuthority => Prefix::Interface(
                InstructionDiscriminatorTokenGroup::UpdateGroupAuthority.spec_value(),
            ),
            Variant::InitializeMember => Prefix::Interface(
                InstructionDiscriminatorTokenGroup::InitializeMember.spec_value(),
            ),
        }
    }

    /// The fields that follow the prefix, in order.
    pub open spec fn spec_fields(self) -> Seq<FieldKind> {
        match self {
            Variant::MetadataPointerInitialize
            | Variant::GroupPointerInitialize
            | Variant::GroupMemberPointerInitialize
            | Variant::TransferHookInitialize => seq![FieldKind::Address, FieldKind::Address],
            Variant::MetadataPointerUpdate
            | Variant::GroupPointerUpdate
            | Variant::GroupMemberPointerUpdate
            | Variant::TransferHookUpdate
            | Variant::PermanentDelegateInitialize
            | Variant::UpdateGroupAuthority => seq![FieldKind::Address],
            Variant::CpiGuardDisable | Variant::InitializeMember => seq![],
            Variant::InitializeGroup => seq![FieldKind::Address, FieldKind::U64],
            Variant::UpdateGroupMaxSize => seq![FieldKind::U64],
        }
    }

    /// The number of bytes of this variant's payload.
    pub open spec fn spec_len(self) -> nat {
        match self {
            Variant::MetadataPointerInitialize
            | Variant::GroupPointerInitialize
            | Variant::GroupMemberPointerInitialize
            | Variant::TransferHookInitialize => 66,
            Variant::MetadataPointerUpdate
            | Variant::GroupPointerUpdate
            | Variant::GroupMemberPointerUpdate
            | Variant::TransferHookUpdate => 34,
            Variant::PermanentDelegateInitialize => 33,
            Variant::CpiGuardDisable => 2,
            Variant::InitializeGroup => 48,
            Variant::UpdateGroupMaxSize => 16,
            Variant::UpdateGroupAuthority => 40,
            Variant::InitializeMember => 8,
        }
    }

    /// The length of the payload is that of its prefix and its fields.
    pub proof fn lemma_len(self)
        ensures
            self.spec_len() == self.spec_prefix().spec_len() + fields_width(self.spec_fields()),
    {
        reveal_with_fuel(fields_width, 3);
    }

    /// The layout descriptor of this variant.
    pub fn layout(&self) -> (r: Layout)
        ensures
            r.prefix == self.spec_prefix(),
            r.fields@ == self.spec_fields(),
            r.spec_len() == self.spec_len(),
    {
        let prefix = match self {
            Variant::MetadataPointerInitialize => Prefix::ExtensionInstruction(
                ExtensionDiscriminator::MetadataPointer.value(),
                InstructionDiscriminatorMetadataPointer::Initialize.value(),
            ),
            Variant::MetadataPointerUpdate => Prefix::ExtensionInstruction(
                ExtensionDiscriminator::MetadataPointer.value(),
                InstructionDiscriminatorMetadataPointer::Update.value(),
            ),
            Variant::GroupPointerInitialize => Prefix::ExtensionInstruction(
                ExtensionDiscriminator::GroupPointer.value(),
                InstructionDiscriminatorGroupPointer::Initialize.value(),
            ),
            Variant::GroupPointerUpdate => Prefix::ExtensionInstruction(
                ExtensionDiscriminator::GroupPointer.value(),
                InstructionDiscriminatorGroupPointer::Update.value(),
            ),
            Variant::GroupMemberPointerInitialize => Prefix::ExtensionInstruction(
                ExtensionDiscriminator::GroupMemberPointer.value(),
                InstructionDiscriminatorGroupMemberPointer::Initialize.value(),
            ),
            Variant::GroupMemberPointerUpdate => Prefix::ExtensionInstruction(
                ExtensionDiscriminator::GroupMemberPointer.value(),
                InstructionDiscriminatorGroupMemberPointer::Update.value(),
            ),
            Variant::TransferHookInitialize => Prefix::ExtensionInstruction(
                ExtensionDiscriminator::TransferHook.value(),
                TransferHookInstruction::Initialize.value(),
            ),
            Variant::TransferHookUpdate => Prefix::ExtensionInstruction(
                ExtensionDiscriminator::TransferHook.value(),
                TransferHookInstruction::Update.value(),
            ),
            Variant::PermanentDelegateInitialize => Prefix::Extension(
                ExtensionDiscriminator::PermanentDelegate.value(),
            ),
            Variant::CpiGuardDisable => Prefix::ExtensionInstruction(
                ExtensionDiscriminator::CpiGuard.value(),
                DISABLE_DISCRIMINATOR,
            ),
            Variant::InitializeGroup => Prefix::Interface(
                InstructionDiscriminatorTokenGroup::InitializeGroup.value(),
            ),
            Variant::UpdateGroupMaxSize => Prefix::Interface(
                InstructionDiscriminatorTokenGroup::UpdateGroupMaxSize.value(),
            ),
            Variant::UpdateGroupAuthority => Prefix::Interface(
                InstructionDiscriminatorTokenGroup::UpdateGroupAuthority.value(),
            ),
            Variant::InitializeMember => Prefix::Interface(
                InstructionDiscriminatorTokenGroup::InitializeMember.value(),
            ),
        };
        let fields = match self {
            Variant::MetadataPointerInitialize
            | Variant::GroupPointerInitialize
            | Variant::GroupMemberPointerInitialize
            | Variant::TransferHookInitialize => vec![FieldKind::Address, FieldKind::Address],
            Variant::MetadataPointerUpdate
            | Variant::GroupPointerUpdate
            | Variant::GroupMemberPointerUpdate
            | Variant::TransferHookUpdate
            | Variant::PermanentDelegateInitialize
            | Variant::UpdateGroupAuthority => vec![FieldKind::Address],
            Variant::CpiGuardDisable | Variant::InitializeMember => Vec::new(),
            Variant::InitializeGroup => vec![FieldKind::Address, FieldKind::U64],
            Variant::UpdateGroupMaxSize => vec![FieldKind::U64],
        };
        let r = Layout { prefix, fields };
        assert(r.fields@ =~= self.spec_fields());
        proof {
            self.lemma_len();
        }
        r
    }
}

} // verus!
