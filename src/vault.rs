use vstd::prelude::*;
use crate::address::{find_address, program_address_of, resolve_and_verify, Address};
use crate::ledger::{
    after_transfer, balance_in, can_transfer, lemma_after_transfer, reserve_in, unique_addresses,
    Ledger, LedgerAccount,
};

verus! {

/// Why a transfer was refused.
#[derive(Clone, Copy, Debug, PartialEq, Eq, Structural)]
pub enum VaultError {
    VaultLocked,
    InsufficientBalance,
    ArithmeticOverflow,
    AddressMismatch,
    Unauthorized,
    TransferFailed,
}

/// The namespace tag of vault addresses: the bytes of "vault".
pub open spec fn vault_tag() -> Seq<u8> {
    seq![118u8, 97u8, 117u8, 108u8, 116u8]
}

pub fn vault_namespace() -> (r: Vec<u8>)
    ensures
        r@ == vault_tag(),
{
    let r: Vec<u8> = vec![118u8, 97u8, 117u8, 108u8, 116u8];
    assert(r@ =~= vault_tag());
    r
}

/// The persistent record of a vault. Its balance is held by the ledger, at
/// `address`.
#[derive(Clone, Copy, Debug)]
pub struct VaultAccount {
    pub address: Address,
    pub authority: Address,
    pub locked: bool,
    pub bump: u8,
}

/// The vault's address is the one that `program` derives from the vault tag,
/// its authority and its bump.
pub open spec fn address_bound(v: VaultAccount, program: Seq<u8>) -> bool {
    program_address_of(vault_tag(), v.authority@, v.bump, program) == Some(v.address@)
}

impl VaultAccount {
    /// An unlocked vault of `authority`, at the address that `program` derives
    /// for it; `None` where no bump gives one.
    pub fn open(authority: &Address, program: &Address) -> (r: Option<VaultAccount>)
        ensures
            r matches Some(v) ==> v.authority == *authority && !v.locked && address_bound(
                v,
                program@,
            ),
    {
        let ns = vault_namespace();
        match find_address(ns.as_slice(), authority, program) {
            Some((address, bump)) => Some(VaultAccount { address, authority: *authority, locked: false, bump }),
            None => None,
        }
    }

    pub fn is_locked(&self) -> (r: bool)
        ensures
            r == self.locked,
    {
        self.locked
    }

    pub fn authority_address(&self) -> (r: Address)
        ensures
            r == self.authority,
    {
        self.authority
    }
}

/// A completed deposit.
#[derive(Clone, Copy, Debug)]
pub struct DepositRecord {
    pub amount: u64,
    pub payer: Address,
    pub vault: Address,
}

/// A completed withdrawal.
#[derive(Clone, Copy, Debug)]
pub struct WithdrawRecord {
    pub amount: u64,
    pub authority: Address,
    pub vault: Address,
}

#[derive(Clone, Copy, Debug)]
pub enum AuditRecord {
    Deposit(DepositRecord),
    Withdraw(WithdrawRecord),
}

/// An append-only stream of audit records.
pub struct AuditLog {
    records: Vec<AuditRecord>,
}

impl AuditLog {
    pub closed spec fn records(&self) -> Seq<AuditRecord> {
        self.records@
    }

    pub fn new() -> (r: AuditLog)
        ensures
            r.records() == Seq::<AuditRecord>::empty(),
    {
        AuditLog { records: Vec::new() }
    }

    /// Appends one record.
    pub fn emit(&mut self, record: AuditRecord)
        ensures
            final(self).records() == old(self).records().push(record),
    {
        self.records.push(record);
    }

    pub fn len(&self) -> (r: usize)
        ensures
            r == self.records().len(),
    {
        self.records.len()
    }

    /// The record at `i`, in the order of emission.
    pub fn get(&self, i: usize) -> (r: Option<AuditRecord>)
        ensures
            i < self.records().len() ==> r == Some(self.records()[i as int]),
            i >= self.records().len() ==> r is None,
    {
        if i < self.records.len() {
            Some(self.records[i])
        } else {
            None
        }
    }
}

/// The outcome of a deposit of `amount` by `payer` into `vault`, once the
/// vault's address has been verified; checks in this order.
pub open spec fn deposit_outcome(s: Seq<LedgerAccount>, vault: VaultAccount, payer: Seq<u8>, amount: u64) -> Result<(), VaultError> {
    if vault.locked {
        Err(VaultError::VaultLocked)
    } else if amount + reserve_in(s, payer) > u64::MAX {
        Err(VaultError::ArithmeticOverflow)
    } else if balance_in(s, payer) < amount + reserve_in(s, payer) {
        Err(VaultError::InsufficientBalance)
    } else if !can_transfer(s, payer, vault.address@, amount) {
        Err(VaultError::TransferFailed)
    } else {
        Ok(())
    }
}

/// The outcome of a withdrawal of `amount` from `vault` by `caller`, once the
/// vault's address has been verified; checks in this order.
pub open spec fn withdraw_outcome(s: Seq<LedgerAccount>, vault: VaultAccount, caller: Seq<u8>, amount: u64) -> Result<(), VaultError> {
    if caller != vault.authority@ {
        Err(VaultError::Unauthorized)
    } else if vault.locked {
        Err(VaultError::VaultLocked)
    } else if amount + reserve_in(s, vault.address@) > u64::MAX {
        Err(VaultError::ArithmeticOverflow)
    } else if balance_in(s, vault.address@) < amount + reserve_in(s, vault.address@) {
        Err(VaultError::InsufficientBalance)
    } else if !can_transfer(s, vault.address@, caller, amount) {
        Err(VaultError::TransferFailed)
    } else {
        Ok(())
    }
}

/// Deposits into a vault whose address has already been verified.
pub fn deposit_resolved(
    ledger: &mut Ledger,
    log: &mut AuditLog,
    vault: &VaultAccount,
    payer: &Address,
    amount: u64,
) -> (r: Result<(), VaultError>)
    requires
        old(ledger).wf(),
    ensures
        final(ledger).wf(),
        r == deposit_outcome(old(ledger).entries(), *vault, payer@, amount),
        r is Ok ==> final(ledger).entries() == after_transfer(
            old(ledger).entries(),
            payer@,
            vault.address@,
            amount,
        ),
        r is Ok ==> final(log).records() == old(log).records().push(
            AuditRecord::Deposit(DepositRecord { amount, payer: *payer, vault: vault.address }),
        ),
        r is Err ==> final(ledger).entries() == old(ledger).entries(),
        r is Err ==> final(log).records() == old(log).records(),
{
    if vault.is_locked() {
        return Err(VaultError::VaultLocked);
    }
    let reserve = ledger.minimum_reserve(payer);
    let required = match amount.checked_add(reserve) {
        Some(v) => v,
        None => return Err(VaultError::ArithmeticOverflow),
    };
    if ledger.balance(payer) < required {
        return Err(VaultError::InsufficientBalance);
    }
    if !ledger.transfer(payer, &vault.address, amount) {
        return Err(VaultError::TransferFailed);
    }
    log.emit(AuditRecord::Deposit(DepositRecord { amount, payer: *payer, vault: vault.address }));
    Ok(())
}

/// Withdraws from a vault whose address has already been verified.
pub fn withdraw_resolved(
    ledger: &mut Ledger,
    log: &mut AuditLog,
    vault: &VaultAccount,
    caller: &Address,
    amount: u64,
) -> (r: Result<(), VaultError>)
    requires
        old(ledger).wf(),
    ensures
        final(ledger).wf(),
        r == withdraw_outcome(old(ledger).entries(), *vault, caller@, amount),
        r is Ok ==> final(ledger).entries() == after_transfer(
            old(ledger).entries(),
            vault.address@,
            caller@,
            amount,
        ),
        r is Ok ==> final(log).records() == old(log).records().push(
            AuditRecord::Withdraw(WithdrawRecord { amount, authority: *caller, vault: vault.address }),
        ),
        r is Err ==> final(ledger).entries() == old(ledger).entries(),
        r is Err ==> final(log).records() == old(log).records(),
{
    if !caller.same_as(&vault.authority) {
        return Err(VaultError::Unauthorized);
    }
    if vault.is_locked() {
        return Err(VaultError::VaultLocked);
    }
    let reserve = ledger.minimum_reserve(&vault.address);
    let required = match amount.checked_add(reserve) {
        Some(v) => v,
        None => return Err(VaultError::ArithmeticOverflow),
    };
    if ledger.balance(&vault.address) < required {
        return Err(VaultError::InsufficientBalance);
    }
    if !ledger.transfer(&vault.address, caller, amount) {
        return Err(VaultError::TransferFailed);
    }
    log.emit(AuditRecord::Withdraw(WithdrawRecord { amount, authority: *caller, vault: vault.address }));
    Ok(())
}

/// Deposits `amount` from `payer` into `vault`. The vault's address is
/// verified against the derivation by `program` before anything else.
pub fn deposit(
    ledger: &mut Ledger,
    log: &mut AuditLog,
    program: &Address,
    vault: &VaultAccount,
    payer: &Address,
    amount: u64,
) -> (r: Result<(), VaultError>)
    requires
        old(ledger).wf(),
    ensures
        final(ledger).wf(),
        r == (if address_bound(*vault, program@) {
            deposit_outcome(old(ledger).entries(), *vault, payer@, amount)
        } else {
            Err(VaultError::AddressMismatch)
        }),
        r is Ok ==> final(ledger).entries() == after_transfer(
            old(ledger).entries(),
            payer@,
            vault.address@,
            amount,
        ),
        r is Ok ==> final(log).records() == old(log).records().push(
            AuditRecord::Deposit(DepositRecord { amount, payer: *payer, vault: vault.address }),
        ),
        r is Err ==> final(ledger).entries() == old(ledger).entries(),
        r is Err ==> final(log).records() == old(log).records(),
{
    let ns = vault_namespace();
    resolve_and_verify(&vault.address, ns.as_slice(), &vault.authority, vault.bump, program)?;
    deposit_resolved(ledger, log, vault, payer, amount)
}

/// Withdraws `amount` from `vault` to its authority `caller`. The vault's
/// address is verified against the derivation by `program` before anything else.
pub fn withdraw(
    ledger: &mut Ledger,
    log: &mut AuditLog,
    program: &Address,
    vault: &VaultAccount,
    caller: &Address,
    amount: u64,
) -> (r: Result<(), VaultError>)
    requires
        old(ledger).wf(),
    ensures
        final(ledger).wf(),
        r == (if address_bound(*vault, program@) {
            withdraw_outcome(old(ledger).entries(), *vault, caller@, amount)
        } else {
            Err(VaultError::AddressMismatch)
        }),
        r is Ok ==> final(ledger).entries() == after_transfer(
            old(ledger).entries(),
            vault.address@,
            caller@,
            amount,
        ),
        r is Ok ==> final(log).records() == old(log).records().push(
            AuditRecord::Withdraw(WithdrawRecord { amount, authority: *caller, vault: vault.address }),
        ),
        r is Err ==> final(ledger).entries() == old(ledger).entries(),
        r is Err ==> final(log).records() == old(log).records(),
{
    let ns = vault_namespace();
    resolve_and_verify(&vault.address, ns.as_slice(), &vault.authority, vault.bump, program)?;
    withdraw_resolved(ledger, log, vault, caller, amount)
}

/// A deposit that succeeds moves exactly `amount` from the payer to the vault:
/// the payer's balance falls by it, the vault's rises by it, their sum stays,
/// and every other balance stays.
pub proof fn lemma_deposit_conserves(
    s: Seq<LedgerAccount>,
    vault: VaultAccount,
    payer: Seq<u8>,
    amount: u64,
    other: Seq<u8>,
)
    requires
        unique_addresses(s),
        deposit_outcome(s, vault, payer, amount) is Ok,
        payer != vault.address@,
    ensures
        balance_in(after_transfer(s, payer, vault.address@, amount), payer) == balance_in(s, payer)
            - amount,
        balance_in(after_transfer(s, payer, vault.address@, amount), vault.address@) == balance_in(
            s,
            vault.address@,
        ) + amount,
        balance_in(after_transfer(s, payer, vault.address@, amount), payer) + balance_in(
            after_transfer(s, payer, vault.address@, amount),
            vault.address@,
        ) == balance_in(s, payer) + balance_in(s, vault.address@),
        other != payer && other != vault.address@ ==> balance_in(
            after_transfer(s, payer, vault.address@, amount),
            other,
        ) == balance_in(s, other),
{
    lemma_after_transfer(s, payer, vault.address@, amount, payer);
    lemma_after_transfer(s, payer, vault.address@, amount, vault.address@);
    lemma_after_transfer(s, payer, vault.address@, amount, other);
}

/// A withdrawal that succeeds moves exactly `amount` from the vault to its
/// authority, and every other balance stays.
pub proof fn lemma_withdraw_conserves(
    s: Seq<LedgerAccount>,
    vault: VaultAccount,
    caller: Seq<u8>,
    amount: u64,
    other: Seq<u8>,
)
    requires
        unique_addresses(s),
        withdraw_outcome(s, vault, caller, amount) is Ok,
        caller != vault.address@,
    ensures
        balance_in(after_transfer(s, vault.address@, caller, amount), vault.address@) == balance_in(
            s,
            vault.address@,
        ) - amount,
        balance_in(after_transfer(s, vault.address@, caller, amount), caller) == balance_in(
            s,
            caller,
        ) + amount,
        other != caller && other != vault.address@ ==> balance_in(
            after_transfer(s, vault.address@, caller, amount),
            other,
        ) == balance_in(s, other),
{
    lemma_after_transfer(s, vault.address@, caller, amount, caller);
    lemma_after_transfer(s, vault.address@, caller, amount, vault.address@);
    lemma_after_transfer(s, vault.address@, caller, amount, other);
}

/// The account that a successful transfer debits keeps at least its reserve
/// floor.
pub proof fn lemma_debited_keeps_reserve(
    s: Seq<LedgerAccount>,
    vault: VaultAccount,
    party: Seq<u8>,
    amount: u64,
)
    requires
        unique_addresses(s),
    ensures
        deposit_outcome(s, vault, party, amount) is Ok ==> balance_in(
            after_transfer(s, party, vault.address@, amount),
            party,
        ) >= reserve_in(after_transfer(s, party, vault.address@, amount), party),
        withdraw_outcome(s, vault, party, amount) is Ok ==> balance_in(
            after_transfer(s, vault.address@, party, amount),
            vault.address@,
        ) >= reserve_in(after_transfer(s, vault.address@, party, amount), vault.address@),
{
    if deposit_outcome(s, vault, party, amount) is Ok {
        lemma_after_transfer(s, party, vault.address@, amount, party);
    }
    if withdraw_outcome(s, vault, party, amount) is Ok {
        lemma_after_transfer(s, vault.address@, party, amount, vault.address@);
    }
}

/// A locked vault refuses every deposit, and every withdrawal by its
/// authority, with `VaultLocked`, whatever the balances.
pub proof fn lemma_locked_vault_refuses(
    s: Seq<LedgerAccount>,
    vault: VaultAccount,
    payer: Seq<u8>,
    caller: Seq<u8>,
    amount: u64,
)
    requires
        vault.locked,
        amount > 0,
    ensures
        deposit_outcome(s, vault, payer, amount) == Err::<(), VaultError>(VaultError::VaultLocked),
        caller == vault.authority@ ==> withdraw_outcome(s, vault, caller, amount) == Err::<
            (),
            VaultError,
        >(VaultError::VaultLocked),
{
}

/// Where the amount plus the source's reserve floor exceeds the largest
/// balance, an unlocked vault refuses the transfer with `ArithmeticOverflow`.
pub proof fn lemma_overflow_refused(
    s: Seq<LedgerAccount>,
    vault: VaultAccount,
    payer: Seq<u8>,
    caller: Seq<u8>,
    amount: u64,
)
    requires
        !vault.locked,
    ensures
        amount + reserve_in(s, payer) > u64::MAX ==> deposit_outcome(s, vault, payer, amount)
            == Err::<(), VaultError>(VaultError::ArithmeticOverflow),
        caller == vault.authority@ && amount + reserve_in(s, vault.address@) > u64::MAX
            ==> withdraw_outcome(s, vault, caller, amount) == Err::<(), VaultError>(
            VaultError::ArithmeticOverflow,
        ),
{
}

} // verus!
