use anchor_lang::solana_program::pubkey::Pubkey;
use onchain_vault::address::{address_matches, derive_address, find_address, resolve_and_verify, Address};
use onchain_vault::ledger::Ledger;
use onchain_vault::vault::{
    deposit, deposit_resolved, vault_namespace, withdraw, withdraw_resolved, AuditLog, AuditRecord,
    VaultAccount, VaultError,
};

fn program() -> Address {
    Address::new([7u8; 32])
}

fn authority() -> Address {
    Address::new([1u8; 32])
}

fn payer() -> Address {
    Address::new([2u8; 32])
}

fn vault_of(authority: &Address) -> VaultAccount {
    VaultAccount::open(authority, &program()).expect("a bump exists")
}

fn ledger_with(entries: &[(Address, u64, u64)]) -> Ledger {
    let mut ledger = Ledger::new();
    for (a, balance, reserve) in entries {
        assert!(ledger.open_account(a, *balance, *reserve));
    }
    ledger
}

#[test]
fn deposit_moves_amount_and_records_it() {
    let vault = vault_of(&authority());
    let mut ledger = ledger_with(&[(payer(), 600, 50), (vault.address, 1000, 50)]);
    let mut log = AuditLog::new();
    assert_eq!(deposit(&mut ledger, &mut log, &program(), &vault, &payer(), 500), Ok(()));
    assert_eq!(ledger.balance(&payer()), 100);
    assert_eq!(ledger.balance(&vault.address), 1500);
    assert_eq!(log.len(), 1);
    match log.get(0) {
        Some(AuditRecord::Deposit(r)) => {
            assert_eq!(r.amount, 500);
            assert_eq!(r.payer.bytes, payer().bytes);
            assert_eq!(r.vault.bytes, vault.address.bytes);
        }
        other => panic!("unexpected record {:?}", other),
    }
}

#[test]
fn withdraw_from_locked_vault_fails() {
    let mut vault = vault_of(&authority());
    vault.locked = true;
    let mut ledger = ledger_with(&[(authority(), 0, 0), (vault.address, 10000, 50)]);
    let mut log = AuditLog::new();
    assert_eq!(
        withdraw(&mut ledger, &mut log, &program(), &vault, &authority(), 1),
        Err(VaultError::VaultLocked)
    );
    assert_eq!(ledger.balance(&vault.address), 10000);
    assert_eq!(log.len(), 0);
}

#[test]
fn withdraw_beyond_spendable_balance_fails() {
    let vault = vault_of(&authority());
    let mut ledger = ledger_with(&[(authority(), 0, 0), (vault.address, 1500, 50)]);
    let mut log = AuditLog::new();
    assert_eq!(
        withdraw(&mut ledger, &mut log, &program(), &vault, &authority(), 2000),
        Err(VaultError::InsufficientBalance)
    );
    assert_eq!(ledger.balance(&vault.address), 1500);
}

#[test]
fn deposit_of_largest_amount_overflows() {
    let vault = vault_of(&authority());
    let mut ledger = ledger_with(&[(payer(), 600, 1), (vault.address, 0, 0)]);
    let mut log = AuditLog::new();
    assert_eq!(
        deposit(&mut ledger, &mut log, &program(), &vault, &payer(), u64::MAX),
        Err(VaultError::ArithmeticOverflow)
    );
    assert_eq!(ledger.balance(&payer()), 600);
    assert_eq!(log.len(), 0);
}

#[test]
fn withdraw_moves_amount_to_authority() {
    let vault = vault_of(&authority());
    let mut ledger = ledger_with(&[(authority(), 10, 5), (vault.address, 1500, 50)]);
    let mut log = AuditLog::new();
    assert_eq!(withdraw(&mut ledger, &mut log, &program(), &vault, &authority(), 1450), Ok(()));
    assert_eq!(ledger.balance(&vault.address), 50);
    assert_eq!(ledger.balance(&authority()), 1460);
    match log.get(0) {
        Some(AuditRecord::Withdraw(r)) => {
            assert_eq!(r.amount, 1450);
            assert_eq!(r.authority.bytes, authority().bytes);
            assert_eq!(r.vault.bytes, vault.address.bytes);
        }
        other => panic!("unexpected record {:?}", other),
    }
}

#[test]
fn withdraw_by_another_caller_is_unauthorized() {
    let vault = vault_of(&authority());
    let mut ledger = ledger_with(&[(payer(), 0, 0), (vault.address, 1500, 50)]);
    let mut log = AuditLog::new();
    assert_eq!(
        withdraw(&mut ledger, &mut log, &program(), &vault, &payer(), 10),
        Err(VaultError::Unauthorized)
    );
    assert_eq!(ledger.balance(&vault.address), 1500);
}

#[test]
fn deposit_into_locked_vault_fails() {
    let mut vault = vault_of(&authority());
    vault.locked = true;
    let mut ledger = ledger_with(&[(payer(), 600, 50), (vault.address, 0, 0)]);
    let mut log = AuditLog::new();
    assert_eq!(
        deposit(&mut ledger, &mut log, &program(), &vault, &payer(), 10),
        Err(VaultError::VaultLocked)
    );
    assert_eq!(ledger.balance(&payer()), 600);
}

#[test]
fn deposit_below_reserve_is_insufficient() {
    let vault = vault_of(&authority());
    let mut ledger = ledger_with(&[(payer(), 600, 50), (vault.address, 0, 0)]);
    let mut log = AuditLog::new();
    assert_eq!(
        deposit(&mut ledger, &mut log, &program(), &vault, &payer(), 551),
        Err(VaultError::InsufficientBalance)
    );
    assert_eq!(deposit(&mut ledger, &mut log, &program(), &vault, &payer(), 550), Ok(()));
    assert_eq!(ledger.balance(&payer()), 50);
}

#[test]
fn tampered_vault_address_is_refused() {
    let mut vault = vault_of(&authority());
    vault.address.bytes[0] ^= 1;
    let mut ledger = ledger_with(&[(payer(), 600, 0), (vault.address, 0, 0)]);
    let mut log = AuditLog::new();
    assert_eq!(
        deposit(&mut ledger, &mut log, &program(), &vault, &payer(), 10),
        Err(VaultError::AddressMismatch)
    );
    assert_eq!(
        withdraw(&mut ledger, &mut log, &program(), &vault, &authority(), 10),
        Err(VaultError::AddressMismatch)
    );
    assert_eq!(ledger.balance(&payer()), 600);
}

#[test]
fn wrong_program_is_refused() {
    let vault = vault_of(&authority());
    let mut ledger = ledger_with(&[(payer(), 600, 0), (vault.address, 0, 0)]);
    let mut log = AuditLog::new();
    assert_eq!(
        deposit(&mut ledger, &mut log, &Address::new([8u8; 32]), &vault, &payer(), 10),
        Err(VaultError::AddressMismatch)
    );
}

#[test]
fn transfer_to_an_unknown_vault_fails() {
    let vault = vault_of(&authority());
    let mut ledger = ledger_with(&[(payer(), 600, 0)]);
    let mut log = AuditLog::new();
    assert_eq!(
        deposit(&mut ledger, &mut log, &program(), &vault, &payer(), 10),
        Err(VaultError::TransferFailed)
    );
    assert_eq!(ledger.balance(&payer()), 600);
    assert_eq!(log.len(), 0);
}

#[test]
fn credit_overflow_fails_the_transfer() {
    let vault = vault_of(&authority());
    let mut ledger = ledger_with(&[(payer(), 600, 0), (vault.address, u64::MAX - 5, 0)]);
    let mut log = AuditLog::new();
    assert_eq!(
        deposit_resolved(&mut ledger, &mut log, &vault, &payer(), 6),
        Err(VaultError::TransferFailed)
    );
    assert_eq!(ledger.balance(&payer()), 600);
    assert_eq!(ledger.balance(&vault.address), u64::MAX - 5);
}

#[test]
fn resolved_engine_skips_address_check() {
    let vault = VaultAccount {
        address: Address::new([9u8; 32]),
        authority: authority(),
        locked: false,
        bump: 0,
    };
    let mut ledger = ledger_with(&[(authority(), 0, 0), (vault.address, 100, 10)]);
    let mut log = AuditLog::new();
    assert_eq!(withdraw_resolved(&mut ledger, &mut log, &vault, &authority(), 90), Ok(()));
    assert_eq!(ledger.balance(&authority()), 90);
    assert_eq!(ledger.balance(&vault.address), 10);
}

#[test]
fn deposit_conserves_the_sum() {
    let vault = vault_of(&authority());
    let mut ledger = ledger_with(&[(payer(), 1000, 100), (vault.address, 250, 30), (authority(), 7, 0)]);
    let mut log = AuditLog::new();
    let before = ledger.balance(&payer()) + ledger.balance(&vault.address);
    assert_eq!(deposit(&mut ledger, &mut log, &program(), &vault, &payer(), 321), Ok(()));
    assert_eq!(ledger.balance(&payer()), 679);
    assert_eq!(ledger.balance(&vault.address), 571);
    assert_eq!(ledger.balance(&payer()) + ledger.balance(&vault.address), before);
    assert_eq!(ledger.balance(&authority()), 7);
}

#[test]
fn failed_operations_change_nothing() {
    let vault = vault_of(&authority());
    let mut ledger = ledger_with(&[(payer(), 100, 10), (vault.address, 100, 10), (authority(), 5, 0)]);
    let mut log = AuditLog::new();
    assert!(deposit(&mut ledger, &mut log, &program(), &vault, &payer(), 91).is_err());
    assert!(withdraw(&mut ledger, &mut log, &program(), &vault, &authority(), 91).is_err());
    assert!(withdraw(&mut ledger, &mut log, &program(), &vault, &payer(), 1).is_err());
    assert_eq!(ledger.balance(&payer()), 100);
    assert_eq!(ledger.balance(&vault.address), 100);
    assert_eq!(ledger.balance(&authority()), 5);
    assert!(!vault.is_locked());
    assert_eq!(log.len(), 0);
}

#[test]
fn ledger_refuses_a_second_account_at_one_address() {
    let mut ledger = Ledger::new();
    assert!(ledger.open_account(&payer(), 10, 1));
    assert!(!ledger.open_account(&payer(), 20, 2));
    assert_eq!(ledger.balance(&payer()), 10);
    assert_eq!(ledger.minimum_reserve(&payer()), 1);
    assert_eq!(ledger.balance(&authority()), 0);
    assert_eq!(ledger.minimum_reserve(&authority()), 0);
}

#[test]
fn derivation_is_deterministic() {
    let ns = vault_namespace();
    let vault = vault_of(&authority());
    let first = derive_address(&ns, &authority(), vault.bump, &program()).unwrap();
    let second = derive_address(&ns, &authority(), vault.bump, &program()).unwrap();
    assert_eq!(first.bytes, second.bytes);
    assert_eq!(first.bytes, vault.address.bytes);
    assert_ne!(first.bytes, authority().bytes);
    assert_ne!(first.bytes, program().bytes);
}

#[test]
fn derivation_agrees_with_pubkey() {
    let ns = vault_namespace();
    let (key, bump) = Pubkey::find_program_address(&[b"vault", &[1u8; 32]], &Pubkey::new_from_array([7u8; 32]));
    let (a, b) = find_address(&ns, &authority(), &program()).unwrap();
    assert_eq!(b, bump);
    assert_eq!(a.bytes, key.to_bytes());
    assert_eq!(ns, b"vault".to_vec());
}

#[test]
fn different_authorities_get_different_vaults() {
    let a = vault_of(&authority());
    let b = vault_of(&payer());
    assert_ne!(a.address.bytes, b.address.bytes);
    assert!(!a.address.same_as(&b.address));
    assert!(a.address.same_as(&a.address));
}

#[test]
fn long_namespace_derives_nothing() {
    let ns = vec![0u8; 33];
    assert!(derive_address(&ns, &authority(), 255, &program()).is_none());
}

#[test]
fn resolve_and_verify_checks_the_address() {
    let ns = vault_namespace();
    let vault = vault_of(&authority());
    assert_eq!(resolve_and_verify(&vault.address, &ns, &authority(), vault.bump, &program()), Ok(()));
    assert_eq!(
        resolve_and_verify(&vault.address, &ns, &payer(), vault.bump, &program()),
        Err(VaultError::AddressMismatch)
    );
    assert!(address_matches(&vault.address, &Some(vault.address)));
    assert!(!address_matches(&vault.address, &None));
    assert!(!address_matches(&vault.address, &Some(authority())));
}

#[test]
fn opened_vault_is_unlocked_and_owned() {
    let vault = vault_of(&authority());
    assert!(!vault.is_locked());
    assert_eq!(vault.authority_address().bytes, authority().bytes);
}
