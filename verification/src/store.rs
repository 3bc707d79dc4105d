//! A concurrent account store: the same fixed universe of accounts, each
//! behind its own reader-writer lock whose invariant is the account's
//! well-formedness. Applying a transaction takes one account's lock in
//! exclusive mode for exactly the read-check-write-append sequence, so
//! concurrent applies on one account serialize while operations on distinct
//! accounts proceed independently; a statement takes the same lock in
//! shared mode and can never observe a half-applied mutation. No lock is
//! held across anything but the in-memory sequence itself.

use vstd::prelude::*;
use vstd::rwlock::{RwLock, RwLockPredicate};

use crate::account::{
    Account, account_wf, apply_accepts, credit_fits, debit_allowed, statement_post,
};
use crate::types::{
    AccountStatementResponse, LedgerError, TransactionResponse, movement,
};
use crate::validate::{kind_of, request_wf, validate};

verus! {

/// The lock invariant of one account's lock: the stored account is well
/// formed and carries the limit the store was seeded with, so the overdraft
/// rule holds at every instant at which the lock is free.
pub struct AccountInv {
    pub limite: i32,
}

impl RwLockPredicate<Account> for AccountInv {
    open spec fn inv(self, a: Account) -> bool {
        &&& account_wf(a)
        &&& a.limite == self.limite
    }
}

/// The store with its per-account locks. Account `id` of the universe
/// `1..=n` lives behind the lock at index `id - 1`.
pub struct ConcurrentStore {
    accounts: Vec<RwLock<Account, AccountInv>>,
}

/// What applying a raw transaction request through the concurrent store
/// guarantees. The pre-transaction balance is whatever the lock handed
/// out, so the outcome is stated for that witness: some balance `pre`
/// within the overdraft rule decided the result exactly as the sequential
/// applier would have.
pub open spec fn store_apply_post(
    l: ConcurrentStore,
    account_id: i16,
    tipo: Option<String>,
    valor: Option<i32>,
    descricao: Option<String>,
    r: Result<TransactionResponse, LedgerError>,
) -> bool {
    &&& (r == Err::<TransactionResponse, LedgerError>(LedgerError::NotFound) <==> !l.in_universe(
        account_id,
    ))
    &&& (l.in_universe(account_id) ==> (r == Err::<TransactionResponse, LedgerError>(
        LedgerError::InvalidInput,
    ) <==> !request_wf(tipo, valor, descricao)))
    &&& (l.in_universe(account_id) && request_wf(tipo, valor, descricao) ==> ({
        let limite = l.limit_at(account_id);
        &&& tipo matches Some(s) && valor matches Some(v) && kind_of(s@) matches Some(k) && {
            match r {
                Ok(resp) => {
                    &&& resp.limite as int == limite
                    &&& resp.saldo as int >= -limite
                    &&& exists|pre: int|
                        {
                            &&& pre >= -limite
                            &&& #[trigger] apply_accepts(pre, limite, k, v as int)
                            &&& resp.saldo as int == pre + movement(k, v as int)
                        }
                },
                Err(e) => {
                    &&& (e == LedgerError::LimitExceeded || e == LedgerError::Internal)
                    &&& (e == LedgerError::LimitExceeded ==> k is Debit && exists|pre: int|
                        pre >= -limite && !#[trigger] debit_allowed(pre, limite, v as int))
                    &&& (e == LedgerError::Internal ==> k is Credit && exists|pre: int|
                        pre >= -limite && !#[trigger] credit_fits(pre, v as int))
                },
            }
        }
    }))
}

/// What a statement read through the concurrent store guarantees: for an
/// in-universe id, the snapshot is exactly the statement of some well
/// formed account carrying the seeded limit — balance within the overdraft
/// rule, at most ten records, newest first, and the balance implied by that
/// account's full history.
pub open spec fn store_statement_post(
    l: ConcurrentStore,
    account_id: i16,
    now: String,
    r: Result<AccountStatementResponse, LedgerError>,
) -> bool {
    &&& (r is Ok <==> l.in_universe(account_id))
    &&& match r {
        Ok(resp) => {
            &&& resp.saldo.limite as int == l.limit_at(account_id)
            &&& resp.saldo.total as int >= -l.limit_at(account_id)
            &&& exists|a: Account|
                {
                    &&& account_wf(a)
                    &&& a.limite as int == l.limit_at(account_id)
                    &&& #[trigger] statement_post(a, now, resp)
                }
        },
        Err(e) => e == LedgerError::NotFound,
    }
}

impl ConcurrentStore {
    /// The per-account lock invariants, in id order.
    pub closed spec fn invs(self) -> Seq<AccountInv> {
        self.accounts@.map_values(|l: RwLock<Account, AccountInv>| l.pred())
    }

    /// How many accounts are provisioned.
    pub open spec fn universe_size(self) -> nat {
        self.invs().len()
    }

    /// Whether an id belongs to the provisioned universe `1..=n`.
    pub open spec fn in_universe(self, account_id: i16) -> bool {
        1 <= account_id as int <= self.universe_size()
    }

    /// The immutable limit of the account an in-universe id addresses.
    pub open spec fn limit_at(self, account_id: i16) -> int {
        self.invs()[account_id as int - 1].limite as int
    }

    /// Seeds the store: one locked account per entry of `limits`, each
    /// with the given limit, a zero balance and an empty log. Account ids
    /// are `1..=limits.len()`.
    pub fn new(limits: &Vec<i32>) -> (l: ConcurrentStore)
        requires
            forall|i: int| 0 <= i < limits@.len() ==> limits@[i] >= 0,
        ensures
            l.universe_size() == limits@.len(),
            forall|id: i16| l.in_universe(id) ==> #[trigger] l.limit_at(id) == limits@[id - 1],
    {
        let mut accounts: Vec<RwLock<Account, AccountInv>> = Vec::new();
        let n = limits.len();
        let mut i: usize = 0;
        while i < n
            invariant
                n == limits@.len(),
                i <= n,
                accounts@.len() == i,
                forall|i_: int| 0 <= i_ < limits@.len() ==> limits@[i_] >= 0,
                forall|j: int|
                    0 <= j < i ==> (#[trigger] accounts@[j].pred()) == (AccountInv {
                        limite: limits@[j],
                    }),
            decreases n - i,
        {
            let limite = limits[i];
            let account = Account::new(limite);
            accounts.push(RwLock::new(account, Ghost(AccountInv { limite })));
            i += 1;
        }
        ConcurrentStore { accounts }
    }

    /// Applies a raw transaction request to the addressed account,
    /// validating first and holding that account's write lock for exactly
    /// the read-check-write-append sequence. Whatever balance the lock
    /// hands out, the decision and the new balance are those of the
    /// sequential applier for that balance, and the overdraft invariant is
    /// restored before the lock is released.
    pub fn apply(
        &self,
        account_id: i16,
        tipo: &Option<String>,
        valor: &Option<i32>,
        descricao: &Option<String>,
        now: String,
    ) -> (r: Result<TransactionResponse, LedgerError>)
        ensures
            store_apply_post(*self, account_id, *tipo, *valor, *descricao, r),
    {
        if account_id < 1 || account_id as usize > self.accounts.len() {
            return Err(LedgerError::NotFound);
        }
        let t = match validate(tipo, valor, descricao) {
            Ok(t) => t,
            Err(e) => {
                return Err(e);
            },
        };
        let idx: usize = (account_id as usize) - 1;
        let lock = &self.accounts[idx];
        let (mut account, handle) = lock.acquire_write();
        let ghost pre = account;
        let r = account.apply(&t, now);
        handle.release_write(account);
        proof {
            assert(lock.pred() == self.invs()[idx as int]);
            if r is Ok {
                assert(apply_accepts(
                    pre.saldo as int,
                    self.limit_at(account_id),
                    t.tipo,
                    t.valor as int,
                ));
            } else if r matches Err(e) && e == LedgerError::LimitExceeded {
                assert(!debit_allowed(pre.saldo as int, self.limit_at(account_id), t.valor as int));
            } else if r matches Err(e) && e == LedgerError::Internal {
                assert(!credit_fits(pre.saldo as int, t.valor as int));
            }
        }
        r
    }

    /// Builds a statement for the addressed account under its lock taken
    /// in shared mode: a consistent snapshot that can never observe a
    /// half-applied mutation, with the overdraft invariant visible on the
    /// reported balance. Reads of one account run concurrently with each
    /// other and with operations on every other account.
    pub fn statement(&self, account_id: i16, now: String) -> (r: Result<
        AccountStatementResponse,
        LedgerError,
    >)
        ensures
            store_statement_post(*self, account_id, now, r),
    {
        if account_id < 1 || account_id as usize > self.accounts.len() {
            return Err(LedgerError::NotFound);
        }
        let idx: usize = (account_id as usize) - 1;
        let lock = &self.accounts[idx];
        let read_handle = lock.acquire_read();
        let account = read_handle.borrow();
        let resp = account.statement(now);
        let ghost witness = *account;
        read_handle.release_read();
        proof {
            assert(lock.pred() == self.invs()[idx as int]);
            assert(statement_post(witness, now, resp));
        }
        Ok(resp)
    }
}

} // verus!
