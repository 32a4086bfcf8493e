use token_extensions::accounts::{
    build_account_list, fixed_account_list, AccountEntry, AccountList, AccountMeta, AccountRef,
    ArgumentError,
};
use token_extensions::MAX_MULTISIG_SIGNERS;

fn account(byte: u8) -> AccountRef<u8> {
    AccountRef { key: [byte; 32], info: byte }
}

fn target_entry(byte: u8) -> AccountEntry<u8> {
    AccountEntry { meta: AccountMeta::writable(&[byte; 32]), info: byte }
}

fn signers(n: u8) -> Vec<AccountRef<u8>> {
    (0..n).map(|i| account(100 + i)).collect()
}

#[test]
fn meta_constructors_set_flags() {
    let key = [7u8; 32];
    assert_eq!(AccountMeta::readonly(&key), AccountMeta { pubkey: key, is_writable: false, is_signer: false });
    assert_eq!(AccountMeta::writable(&key), AccountMeta { pubkey: key, is_writable: true, is_signer: false });
    assert_eq!(AccountMeta::readonly_signer(&key), AccountMeta { pubkey: key, is_writable: false, is_signer: true });
    assert_eq!(AccountMeta::writable_signer(&key), AccountMeta { pubkey: key, is_writable: true, is_signer: true });
    assert_eq!(AccountMeta::new(&key, true, false), AccountMeta::writable(&key));
}

#[test]
fn within_cap_active_count_is_fixed_plus_signers() {
    for n in 0..=11u8 {
        let co = signers(n);
        let list = build_account_list(&[target_entry(1)], &account(2), &co, 11).unwrap();
        assert_eq!(list.len(), 2 + n as usize);
        assert_eq!(list.metas().len(), 2 + n as usize);
        assert_eq!(list.infos().len(), 2 + n as usize);
    }
}

#[test]
fn over_cap_fails_with_argument_error() {
    let co = signers(12);
    let r = build_account_list(&[target_entry(1)], &account(2), &co, 11);
    assert!(matches!(r, Err(ArgumentError::TooManySigners)));
    let co = signers(3);
    let r = build_account_list(&[target_entry(1)], &account(2), &co, 2);
    assert!(matches!(r, Err(ArgumentError::TooManySigners)));
}

#[test]
fn zero_cap_accepts_no_signers_only() {
    assert!(build_account_list(&[target_entry(1)], &account(2), &[], 0).is_ok());
    assert!(build_account_list(&[target_entry(1)], &account(2), &signers(1), 0).is_err());
}

#[test]
fn single_authority_is_readonly_signer() {
    let list = build_account_list(&[target_entry(1)], &account(2), &[], MAX_MULTISIG_SIGNERS).unwrap();
    assert_eq!(
        list.metas(),
        &[AccountMeta::writable(&[1; 32]), AccountMeta::readonly_signer(&[2; 32])]
    );
    assert_eq!(list.infos(), &[1, 2]);
}

#[test]
fn multisig_authority_is_plain_reference_and_signers_keep_order() {
    let co = vec![account(30), account(10), account(20)];
    let list = build_account_list(&[target_entry(1)], &account(2), &co, MAX_MULTISIG_SIGNERS).unwrap();
    assert_eq!(
        list.metas(),
        &[
            AccountMeta::writable(&[1; 32]),
            AccountMeta::readonly(&[2; 32]),
            AccountMeta::readonly_signer(&[30; 32]),
            AccountMeta::readonly_signer(&[10; 32]),
            AccountMeta::readonly_signer(&[20; 32]),
        ]
    );
    assert_eq!(list.infos(), &[1, 2, 30, 10, 20]);
}

#[test]
fn fixed_accounts_are_kept_as_given() {
    let fixed = [
        target_entry(1),
        AccountEntry { meta: AccountMeta::readonly(&[3; 32]), info: 3 },
        AccountEntry { meta: AccountMeta::writable_signer(&[4; 32]), info: 4 },
    ];
    let list = fixed_account_list(&fixed);
    assert_eq!(list.len(), 3);
    assert_eq!(list.metas(), &[fixed[0].meta, fixed[1].meta, fixed[2].meta]);
    assert_eq!(list.infos(), &[1, 3, 4]);
    let (metas, infos) = list.into_parts();
    assert_eq!(metas.len(), 3);
    assert_eq!(infos, vec![1, 3, 4]);
}

#[test]
fn empty_list_then_push() {
    let mut list: AccountList<u8> = AccountList::with_capacity(2);
    assert_eq!(list.len(), 0);
    assert!(list.metas().is_empty());
    list.push(AccountMeta::readonly(&[5; 32]), 5);
    list.extend_from_entries(&[target_entry(6)]);
    assert_eq!(list.metas(), &[AccountMeta::readonly(&[5; 32]), AccountMeta::writable(&[6; 32])]);
    assert_eq!(list.infos(), &[5, 6]);
}
