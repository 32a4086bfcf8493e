use token_extensions::encode::{encode, FieldValue};
use token_extensions::layout::{ExtensionDiscriminator, FieldKind, Prefix, Variant};

const ALL: [Variant; 14] = [
    Variant::MetadataPointerInitialize,
    Variant::MetadataPointerUpdate,
    Variant::GroupPointerInitialize,
    Variant::GroupPointerUpdate,
    Variant::GroupMemberPointerInitialize,
    Variant::GroupMemberPointerUpdate,
    Variant::TransferHookInitialize,
    Variant::TransferHookUpdate,
    Variant::PermanentDelegateInitialize,
    Variant::CpiGuardDisable,
    Variant::InitializeGroup,
    Variant::UpdateGroupMaxSize,
    Variant::UpdateGroupAuthority,
    Variant::InitializeMember,
];

fn prefix_bytes(p: Prefix) -> Vec<u8> {
    match p {
        Prefix::Extension(e) => vec![e],
        Prefix::ExtensionInstruction(e, i) => vec![e, i],
        Prefix::Interface(d) => d.to_le_bytes().to_vec(),
    }
}

fn absent(kinds: &[FieldKind]) -> Vec<FieldValue> {
    kinds
        .iter()
        .map(|k| match k {
            FieldKind::Address => FieldValue::Address(None),
            FieldKind::U64 => FieldValue::U64(0),
        })
        .collect()
}

#[test]
fn extension_discriminator_values() {
    assert_eq!(ExtensionDiscriminator::DefaultAccountState.value(), 28);
    assert_eq!(ExtensionDiscriminator::MemoTransfer.value(), 30);
    assert_eq!(ExtensionDiscriminator::InterestBearingMint.value(), 33);
    assert_eq!(ExtensionDiscriminator::CpiGuard.value(), 34);
    assert_eq!(ExtensionDiscriminator::PermanentDelegate.value(), 35);
    assert_eq!(ExtensionDiscriminator::TransferHook.value(), 36);
    assert_eq!(ExtensionDiscriminator::MetadataPointer.value(), 39);
    assert_eq!(ExtensionDiscriminator::GroupPointer.value(), 40);
    assert_eq!(ExtensionDiscriminator::GroupMemberPointer.value(), 41);
    assert_eq!(ExtensionDiscriminator::ScaledUiAmount.value(), 43);
    assert_eq!(ExtensionDiscriminator::Pausable.value(), 44);
}

#[test]
fn layout_lengths_per_variant() {
    let expected = [66, 34, 66, 34, 66, 34, 66, 34, 33, 2, 48, 16, 40, 8];
    for (v, len) in ALL.iter().zip(expected) {
        let layout = v.layout();
        let width: usize = layout
            .fields
            .iter()
            .map(|k| match k {
                FieldKind::Address => 32,
                FieldKind::U64 => 8,
            })
            .sum();
        assert_eq!(layout.prefix.len() + width, len, "{:?}", v);
    }
}

#[test]
fn absent_fields_encode_as_prefix_then_zeros() {
    for v in ALL {
        let layout = v.layout();
        let mut buffer = [0xAAu8; 80];
        let data = encode(&layout, &absent(&layout.fields), &mut buffer);
        let prefix = prefix_bytes(layout.prefix);
        assert_eq!(&data[..prefix.len()], prefix.as_slice(), "{:?}", v);
        assert!(data[prefix.len()..].iter().all(|b| *b == 0), "{:?}", v);
    }
}

#[test]
fn encoding_twice_is_byte_identical() {
    let layout = Variant::InitializeGroup.layout();
    let values = [FieldValue::Address(Some([5; 32])), FieldValue::U64(77)];
    let mut first = [0u8; 48];
    let a = encode(&layout, &values, &mut first).to_vec();
    let mut second = [0xFFu8; 64];
    let b = encode(&layout, &values, &mut second).to_vec();
    assert_eq!(a, b);
    assert_eq!(a.len(), 48);
}

#[test]
fn present_fields_are_written_at_their_offsets() {
    let layout = Variant::InitializeGroup.layout();
    let values = [FieldValue::Address(Some([9; 32])), FieldValue::U64(0x0102030405060708)];
    let mut buffer = [0u8; 48];
    let data = encode(&layout, &values, &mut buffer);
    assert_eq!(&data[..8], &[121, 113, 108, 39, 54, 51, 0, 4]);
    assert_eq!(&data[8..40], &[9u8; 32]);
    assert_eq!(&data[40..48], &[8, 7, 6, 5, 4, 3, 2, 1]);
}

#[test]
fn single_extension_byte_prefix() {
    let layout = Variant::PermanentDelegateInitialize.layout();
    assert_eq!(layout.prefix, Prefix::Extension(35));
    assert_eq!(layout.prefix.len(), 1);
    let mut buffer = [0u8; 33];
    let data = encode(&layout, &[FieldValue::Address(Some([3; 32]))], &mut buffer);
    assert_eq!(data[0], 35);
    assert_eq!(&data[1..], &[3u8; 32]);
}

#[test]
fn larger_buffer_returns_used_part_only() {
    let layout = Variant::CpiGuardDisable.layout();
    let mut buffer = [0x55u8; 10];
    let data = encode(&layout, &[], &mut buffer);
    assert_eq!(data, &[34, 1]);
}
