use token_extensions::accounts::{AccountMeta, AccountRef, ArgumentError};
use token_extensions::cpi::Invocation;
use token_extensions::{cpi_guard, group_member_pointer, group_pointer, metadata_pointer};
use token_extensions::{permanent_delegate, token_group, transfer_hook};
use token_extensions::group_member_pointer::InstructionDiscriminatorGroupMemberPointer as GM;
use token_extensions::group_pointer::InstructionDiscriminatorGroupPointer as G;
use token_extensions::metadata_pointer::InstructionDiscriminatorMetadataPointer as M;
use token_extensions::token_group::InstructionDiscriminatorTokenGroup as TG;
use token_extensions::transfer_hook::TransferHookInstruction as TH;

const A: [u8; 32] = [0xA1; 32];
const T: [u8; 32] = [0x7E; 32];
const PROGRAM: [u8; 32] = [0x22; 32];

fn account(byte: u8) -> AccountRef<u8> {
    AccountRef { key: [byte; 32], info: byte }
}

fn signers(n: u8) -> Vec<AccountRef<u8>> {
    (0..n).map(|i| account(100 + i)).collect()
}

fn cat(parts: &[&[u8]]) -> Vec<u8> {
    parts.concat()
}

fn assert_single_mint(inv: &Invocation<u8>, mint: u8) {
    assert_eq!(inv.instruction.program_id, PROGRAM);
    assert_eq!(inv.instruction.accounts, vec![AccountMeta::writable(&[mint; 32])]);
    assert_eq!(inv.account_infos, vec![mint]);
}

fn assert_authority_accounts(inv: &Invocation<u8>, target: u8, authority: u8, co: &[AccountRef<u8>]) {
    let mut metas = vec![AccountMeta::writable(&[target; 32])];
    if co.is_empty() {
        metas.push(AccountMeta::readonly_signer(&[authority; 32]));
    } else {
        metas.push(AccountMeta::readonly(&[authority; 32]));
    }
    let mut infos = vec![target, authority];
    for s in co {
        metas.push(AccountMeta::readonly_signer(&s.key));
        infos.push(s.info);
    }
    assert_eq!(inv.instruction.accounts, metas);
    assert_eq!(inv.account_infos, infos);
    assert_eq!(inv.instruction.accounts.len(), 2 + co.len());
    assert_eq!(inv.account_infos.len(), 2 + co.len());
}

#[test]
fn pointer_initialize_writes_authority_then_address() {
    let req = metadata_pointer::Initialize {
        mint: account(1),
        authority: Some(A),
        metadata_address: Some(T),
        token_program: PROGRAM,
    };
    let inv = req.invocation();
    assert_eq!(inv.instruction.data, cat(&[&[39, 0], &A, &T]));
    assert_single_mint(&inv, 1);
}

#[test]
fn pointer_update_single_authority_accounts() {
    let req = metadata_pointer::Update {
        mint: account(1),
        authority: account(2),
        new_metadata_address: Some(T),
        signers: &[],
        token_program: PROGRAM,
    };
    let inv = req.invocation().unwrap();
    assert_eq!(inv.instruction.data, cat(&[&[39, 1], &T]));
    assert_eq!(
        inv.instruction.accounts,
        vec![AccountMeta::writable(&[1; 32]), AccountMeta::readonly_signer(&[2; 32])]
    );
    assert_eq!(inv.account_infos, vec![1, 2]);
}

#[test]
fn pointer_initialize_absent_authority_is_zeroed() {
    let req = metadata_pointer::Initialize {
        mint: account(1),
        authority: None,
        metadata_address: Some(T),
        token_program: PROGRAM,
    };
    let data = req.invocation().instruction.data;
    assert_eq!(data.len(), 66);
    assert_eq!(&data[..2], &[39, 0]);
    assert_eq!(&data[2..34], &[0u8; 32]);
    assert_eq!(&data[34..66], &T);
}

#[test]
fn update_with_three_signers_has_five_accounts() {
    let co = signers(3);
    let req = metadata_pointer::Update {
        mint: account(1),
        authority: account(2),
        new_metadata_address: None,
        signers: &co,
        token_program: PROGRAM,
    };
    let inv = req.invocation().unwrap();
    assert_eq!(inv.instruction.accounts.len(), 5);
    assert!(!inv.instruction.accounts[1].is_signer);
    assert!(inv.instruction.accounts[2..].iter().all(|m| m.is_signer && !m.is_writable));
    assert_authority_accounts(&inv, 1, 2, &co);
    assert_eq!(inv.instruction.data, cat(&[&[39, 1], &[0u8; 32]]));
}

#[test]
fn update_with_twelve_signers_fails() {
    let co = signers(12);
    let req = metadata_pointer::Update {
        mint: account(1),
        authority: account(2),
        new_metadata_address: Some(T),
        signers: &co,
        token_program: PROGRAM,
    };
    assert!(matches!(req.invocation(), Err(ArgumentError::TooManySigners)));
}

#[test]
fn update_with_eleven_signers_succeeds() {
    let co = signers(11);
    let req = group_pointer::Update {
        mint: account(1),
        authority: account(2),
        group_address: Some(T),
        signers: &co,
        token_program: PROGRAM,
    };
    let inv = req.invocation().unwrap();
    assert_authority_accounts(&inv, 1, 2, &co);
}

#[test]
fn group_initialize_prefix_is_eight_byte_little_endian() {
    let req = token_group::InitializeGroup {
        group: account(1),
        mint: account(2),
        mint_authority: account(3),
        update_authority: Some(A),
        max_size: 10,
        program_id: PROGRAM,
    };
    let inv = req.invocation();
    let data = &inv.instruction.data;
    assert_eq!(data.len(), 48);
    assert_eq!(&data[..8], &[121, 113, 108, 39, 54, 51, 0, 4]);
    let disc = u64::from_le_bytes(data[..8].try_into().unwrap());
    assert_eq!(disc, token_group::InstructionDiscriminatorTokenGroup::InitializeGroup.value());
    assert_eq!(disc, 288286683834380665);
    assert_eq!(&data[8..40], &A);
    assert_eq!(u64::from_le_bytes(data[40..48].try_into().unwrap()), 10);
    assert_eq!(
        inv.instruction.accounts,
        vec![
            AccountMeta::writable(&[1; 32]),
            AccountMeta::readonly(&[2; 32]),
            AccountMeta::readonly_signer(&[3; 32]),
        ]
    );
    assert_eq!(inv.account_infos, vec![1, 2, 3]);

    let pointer = group_pointer::Initialize {
        mint: account(1),
        authority: Some(A),
        group_address: Some(T),
        token_program: PROGRAM,
    };
    let pdata = pointer.invocation().instruction.data;
    assert_eq!(&pdata[..2], &[40, 0]);
    assert_eq!(&pdata[2..34], &A);
    assert_eq!(&pdata[34..66], &T);
}

#[test]
fn pointer_initialize_payloads_of_each_extension() {
    let g = group_pointer::Initialize { mint: account(1), authority: Some(A), group_address: None, token_program: PROGRAM };
    let inv = g.invocation();
    assert_eq!(inv.instruction.data, cat(&[&[40, 0], &A, &[0u8; 32]]));
    assert_single_mint(&inv, 1);

    let m = group_member_pointer::Initialize { mint: account(4), authority: None, member_address: Some(T), token_program: PROGRAM };
    let inv = m.invocation();
    assert_eq!(inv.instruction.data, cat(&[&[41, 0], &[0u8; 32], &T]));
    assert_single_mint(&inv, 4);

    let h = transfer_hook::InitializeTransferHook { mint_account: account(5), authority: Some(A), program_id: Some(T), token_program: PROGRAM };
    let inv = h.invocation();
    assert_eq!(inv.instruction.data, cat(&[&[36, 0], &A, &T]));
    assert_single_mint(&inv, 5);
}

#[test]
fn pointer_updates_of_each_extension() {
    let co = signers(2);
    let g = group_pointer::Update { mint: account(1), authority: account(2), group_address: Some(T), signers: &[], token_program: PROGRAM };
    let inv = g.invocation().unwrap();
    assert_eq!(inv.instruction.data, cat(&[&[40, 1], &T]));
    assert_authority_accounts(&inv, 1, 2, &[]);

    let m = group_member_pointer::Update { mint: account(1), authority: account(2), member_address: None, signers: &co, token_program: PROGRAM };
    let inv = m.invocation().unwrap();
    assert_eq!(inv.instruction.data, cat(&[&[41, 1], &[0u8; 32]]));
    assert_authority_accounts(&inv, 1, 2, &co);

    let h = transfer_hook::UpdateTransferHook { mint_account: account(1), authority: account(2), signers: &co, program_id: Some(T), token_program: PROGRAM };
    let inv = h.invocation().unwrap();
    assert_eq!(inv.instruction.data, cat(&[&[36, 1], &T]));
    assert_authority_accounts(&inv, 1, 2, &co);
}

#[test]
fn every_multisig_update_rejects_twelve_signers() {
    let co = signers(12);
    let g = group_pointer::Update { mint: account(1), authority: account(2), group_address: None, signers: &co, token_program: PROGRAM };
    assert!(matches!(g.invocation(), Err(ArgumentError::TooManySigners)));
    let m = group_member_pointer::Update { mint: account(1), authority: account(2), member_address: None, signers: &co, token_program: PROGRAM };
    assert!(matches!(m.invocation(), Err(ArgumentError::TooManySigners)));
    let h = transfer_hook::UpdateTransferHook { mint_account: account(1), authority: account(2), signers: &co, program_id: None, token_program: PROGRAM };
    assert!(matches!(h.invocation(), Err(ArgumentError::TooManySigners)));
    let c = cpi_guard::DisableCpiGuard { token_account: account(1), authority: account(2), signers: &co, token_program: PROGRAM };
    assert!(matches!(c.invocation(), Err(ArgumentError::TooManySigners)));
}

#[test]
fn disable_cpi_guard_payload_and_accounts() {
    let single = cpi_guard::DisableCpiGuard { token_account: account(1), authority: account(2), signers: &[], token_program: PROGRAM };
    let inv = single.invocation().unwrap();
    assert_eq!(inv.instruction.data, vec![34, 1]);
    assert_authority_accounts(&inv, 1, 2, &[]);
    let co = signers(4);
    let multi = cpi_guard::DisableCpiGuard { token_account: account(1), authority: account(2), signers: &co, token_program: PROGRAM };
    let inv = multi.invocation().unwrap();
    assert_eq!(inv.instruction.data, vec![34, 1]);
    assert_authority_accounts(&inv, 1, 2, &co);
}

#[test]
fn permanent_delegate_payload_and_accounts() {
    let req = permanent_delegate::InitializePermanentDelegate { mint: account(1), delegate: A, token_program: PROGRAM };
    let inv = req.invocation();
    assert_eq!(inv.instruction.data, cat(&[&[35], &A]));
    assert_single_mint(&inv, 1);
    let mut buffer = [0xFFu8; 33];
    assert_eq!(permanent_delegate::initialize_instruction_data(&mut buffer, &T), cat(&[&[35], &T]).as_slice());
}

#[test]
fn initialize_member_payload_and_accounts() {
    let req = token_group::InitializeMember {
        member: account(1),
        member_mint: account(2),
        member_mint_authority: account(3),
        group: account(4),
        group_update_authority: account(5),
        program_id: PROGRAM,
    };
    let inv = req.invocation();
    assert_eq!(inv.instruction.data, vec![152, 32, 222, 176, 223, 237, 116, 134]);
    assert_eq!(
        inv.instruction.accounts,
        vec![
            AccountMeta::writable(&[1; 32]),
            AccountMeta::readonly(&[2; 32]),
            AccountMeta::readonly_signer(&[3; 32]),
            AccountMeta::writable(&[4; 32]),
            AccountMeta::readonly_signer(&[5; 32]),
        ]
    );
    assert_eq!(inv.account_infos, vec![1, 2, 3, 4, 5]);
    let mut buffer = [0xEEu8; 8];
    assert_eq!(token_group::initialize_member_instruction_data(&mut buffer), &[152, 32, 222, 176, 223, 237, 116, 134]);
}

#[test]
fn update_group_max_size_payload_and_accounts() {
    let req = token_group::UpdateGroupMaxSize { group: account(1), update_authority: account(2), max_size: 0x1_0000_0002, program_id: PROGRAM };
    let inv = req.invocation();
    assert_eq!(inv.instruction.data, vec![108, 37, 171, 143, 248, 30, 18, 110, 2, 0, 0, 0, 1, 0, 0, 0]);
    assert_eq!(
        inv.instruction.accounts,
        vec![AccountMeta::writable(&[1; 32]), AccountMeta::readonly_signer(&[2; 32])]
    );
    assert_eq!(inv.account_infos, vec![1, 2]);
    let mut buffer = [0u8; 16];
    assert_eq!(
        token_group::update_group_max_size_instruction_data(&mut buffer, u64::MAX),
        &[108, 37, 171, 143, 248, 30, 18, 110, 255, 255, 255, 255, 255, 255, 255, 255]
    );
}

#[test]
fn update_group_authority_payload_and_accounts() {
    let req = token_group::UpdateGroupAuthority { group: account(1), current_authority: account(2), new_authority: Some(A), program_id: PROGRAM };
    let inv = req.invocation();
    assert_eq!(inv.instruction.data, cat(&[&[161, 105, 88, 1, 237, 221, 216, 203], &A]));
    assert_eq!(
        inv.instruction.accounts,
        vec![AccountMeta::writable(&[1; 32]), AccountMeta::readonly_signer(&[2; 32])]
    );
    let unset = token_group::UpdateGroupAuthority { group: account(1), current_authority: account(2), new_authority: None, program_id: PROGRAM };
    assert_eq!(unset.invocation().instruction.data, cat(&[&[161, 105, 88, 1, 237, 221, 216, 203], &[0u8; 32]]));
}

#[test]
fn initialize_group_without_authority_zeroes_it() {
    let mut buffer = [0xCCu8; 48];
    let data = token_group::initialize_group_instruction_data(&mut buffer, None, 3);
    assert_eq!(&data[..8], &[121, 113, 108, 39, 54, 51, 0, 4]);
    assert_eq!(&data[8..40], &[0u8; 32]);
    assert_eq!(&data[40..], &[3, 0, 0, 0, 0, 0, 0, 0]);
}

#[test]
fn data_functions_overwrite_a_dirty_buffer() {
    let mut buffer = [0xFFu8; 66];
    assert_eq!(metadata_pointer::initialize_instruction_data(&mut buffer, None, None), cat(&[&[39, 0], &[0u8; 64]]).as_slice());
    let mut buffer = [0xFFu8; 34];
    assert_eq!(transfer_hook::update_instruction_data(&mut buffer, None), cat(&[&[36, 1], &[0u8; 32]]).as_slice());
    let mut buffer = [0xFFu8; 34];
    assert_eq!(group_member_pointer::update_instruction_data(&mut buffer, Some(A)), cat(&[&[41, 1], &A]).as_slice());
    let mut buffer = [0xFFu8; 40];
    assert_eq!(token_group::update_group_authority_instruction_data(&mut buffer, None), cat(&[&[161, 105, 88, 1, 237, 221, 216, 203], &[0u8; 32]]).as_slice());
}

#[test]
fn instruction_discriminators() {
    assert_eq!((M::Initialize.value(), M::Update.value()), (0, 1));
    assert_eq!((G::Initialize.value(), G::Update.value()), (0, 1));
    assert_eq!((GM::Initialize.value(), GM::Update.value()), (0, 1));
    assert_eq!((TH::Initialize.value(), TH::Update.value()), (0, 1));
    assert_eq!(TG::UpdateGroupMaxSize.value().to_le_bytes(), [108, 37, 171, 143, 248, 30, 18, 110]);
    assert_eq!(TG::UpdateGroupAuthority.value().to_le_bytes(), [161, 105, 88, 1, 237, 221, 216, 203]);
    assert_eq!(TG::InitializeMember.value().to_le_bytes(), [152, 32, 222, 176, 223, 237, 116, 134]);
    assert_eq!(cpi_guard::DISABLE_DISCRIMINATOR, 1);
}

#[test]
fn transfer_hook_state_defaults_to_zero() {
    let d = transfer_hook::TransferHook::default();
    assert_eq!(d.authority, [0u8; 32]);
    assert_eq!(d.program_id, [0u8; 32]);
}
