//! The account store and transaction applier: a fixed universe of accounts,
//! seeded once at startup and addressed by id. Applying a transaction runs
//! the validator, then performs the read-check-write-append sequence against
//! one account as a single unit; a statement reads one account's snapshot.
//!
//! A `&mut` receiver serializes the read-check-write-append sequence: two
//! applications of a transaction can never interleave on the same store, so
//! every interleaving of concurrent callers is equivalent to the serial
//! order in which they acquired the store.

use vstd::prelude::*;

use crate::account::{
    Account, account_wf, apply_accepts, credit_fits, debit_allowed, statement_post,
};
use crate::types::{
    AccountStatementResponse, LedgerError, TransactionRecord, TransactionResponse, movement,
};
use crate::validate::{kind_of, request_wf, validate};

verus! {

/// The store: one account per id of the fixed universe `1..=n`, where `n`
/// is the number of accounts it was seeded with. Account `id` lives at
/// index `id - 1`.
pub struct Ledger {
    accounts: Vec<Account>,
}

/// Exactly what applying a raw transaction request to the store must do:
/// which accounts change, which result comes back on which input, and how
/// the touched account's balance and log move.
pub open spec fn ledger_apply_post(
    pre: Ledger,
    post: Ledger,
    account_id: i16,
    tipo: Option<String>,
    valor: Option<i32>,
    descricao: Option<String>,
    now: String,
    r: Result<TransactionResponse, LedgerError>,
) -> bool {
    &&& post.universe_size() == pre.universe_size()
    &&& forall|id: i16|
        pre.in_universe(id) && id != account_id ==> post.account_at(id) == pre.account_at(id)
    &&& (r == Err::<TransactionResponse, LedgerError>(LedgerError::NotFound) <==> !pre.in_universe(
        account_id,
    ))
    &&& (pre.in_universe(account_id) ==> (r == Err::<TransactionResponse, LedgerError>(
        LedgerError::InvalidInput,
    ) <==> !request_wf(tipo, valor, descricao)))
    &&& (r is Err && pre.in_universe(account_id) ==> post.account_at(account_id)
        == pre.account_at(account_id))
    &&& (pre.in_universe(account_id) && request_wf(tipo, valor, descricao) ==> ({
        let a0 = pre.account_at(account_id);
        let a1 = post.account_at(account_id);
        &&& a1.limite == a0.limite
        &&& tipo matches Some(s) && valor matches Some(v) && descricao matches Some(d)
            && kind_of(s@) matches Some(k) && {
            &&& (r is Ok <==> apply_accepts(a0.saldo as int, a0.limite as int, k, v as int))
            &&& match r {
                Ok(resp) => {
                    &&& resp.limite == a0.limite
                    &&& resp.saldo == a1.saldo
                    &&& a1.saldo as int == a0.saldo + movement(k, v as int)
                    &&& a1.log@ == a0.log@.push(
                        (TransactionRecord {
                            valor: v,
                            tipo: k,
                            descricao: d,
                            realizada_em: now,
                        }),
                    )
                },
                Err(e) => {
                    &&& (e == LedgerError::LimitExceeded <==> k is Debit && !debit_allowed(
                        a0.saldo as int,
                        a0.limite as int,
                        v as int,
                    ))
                    &&& (e == LedgerError::Internal <==> k is Credit && !credit_fits(
                        a0.saldo as int,
                        v as int,
                    ))
                },
            }
        }
    }))
}

/// Exactly what a statement request must return: `NotFound` for an id
/// outside the universe, otherwise the addressed account's snapshot.
pub open spec fn ledger_statement_post(
    l: Ledger,
    account_id: i16,
    now: String,
    r: Result<AccountStatementResponse, LedgerError>,
) -> bool {
    &&& (r is Ok <==> l.in_universe(account_id))
    &&& match r {
        Ok(resp) => statement_post(l.account_at(account_id), now, resp),
        Err(e) => e == LedgerError::NotFound,
    }
}

impl Ledger {
    /// The accounts of the store, in id order.
    pub closed spec fn accounts_view(self) -> Seq<Account> {
        self.accounts@
    }

    /// How many accounts are provisioned.
    pub open spec fn universe_size(self) -> nat {
        self.accounts_view().len()
    }

    /// Whether an id belongs to the provisioned universe `1..=n`.
    pub open spec fn in_universe(self, account_id: i16) -> bool {
        1 <= account_id as int <= self.universe_size()
    }

    /// The account an in-universe id addresses.
    pub open spec fn account_at(self, account_id: i16) -> Account {
        self.accounts_view()[account_id as int - 1]
    }

    /// Every provisioned account is well formed.
    pub open spec fn wf(self) -> bool {
        forall|i: int|
            0 <= i < self.accounts_view().len() ==> account_wf(#[trigger] self.accounts_view()[i])
    }

    /// Seeds the store: one account per entry of `limits`, each with the
    /// given limit, a zero balance and an empty log. Account ids are
    /// `1..=limits.len()`.
    pub fn new(limits: &Vec<i32>) -> (l: Ledger)
        requires
            forall|i: int| 0 <= i < limits@.len() ==> limits@[i] >= 0,
        ensures
            l.wf(),
            l.universe_size() == limits@.len(),
            forall|id: i16|
                l.in_universe(id) ==> {
                    let a = #[trigger] l.account_at(id);
                    &&& a.limite == limits@[id as int - 1]
                    &&& a.saldo == 0
                    &&& a.log@.len() == 0
                },
    {
        let mut accounts: Vec<Account> = Vec::new();
        let n = limits.len();
        let mut i: usize = 0;
        while i < n
            invariant
                n == limits@.len(),
                i <= n,
                accounts@.len() == i,
                forall|i_: int| 0 <= i_ < limits@.len() ==> limits@[i_] >= 0,
                forall|j: int|
                    0 <= j < i ==> {
                        let a = #[trigger] accounts@[j];
                        &&& account_wf(a)
                        &&& a.limite == limits@[j]
                        &&& a.saldo == 0
                        &&& a.log@.len() == 0
                    },
            decreases n - i,
        {
            accounts.push(Account::new(limits[i]));
            i += 1;
        }
        Ledger { accounts }
    }

    /// Applies a raw transaction request to the addressed account as one
    /// atomic unit, running the validator first.
    ///
    /// Fails `NotFound` for an id outside the universe, `InvalidInput` for
    /// a malformed request, `LimitExceeded` for a debit that would break
    /// the overdraft rule, and `Internal` for a credit whose candidate
    /// balance does not fit; each failure leaves the store completely
    /// unchanged. On success the balance has moved by the transaction's
    /// signed value and exactly one record was appended. The in-memory
    /// store never reports `StorageFailure`.
    pub fn apply(
        &mut self,
        account_id: i16,
        tipo: &Option<String>,
        valor: &Option<i32>,
        descricao: &Option<String>,
        now: String,
    ) -> (r: Result<TransactionResponse, LedgerError>)
        requires
            old(self).wf(),
        ensures
            final(self).wf(),
            ledger_apply_post(
                *old(self),
                *final(self),
                account_id,
                *tipo,
                *valor,
                *descricao,
                now,
                r,
            ),
    {
        if account_id < 1 || account_id as usize > self.accounts.len() {
            return Err(LedgerError::NotFound);
        }
        let t = match validate(tipo, valor, descricao) {
            Ok(t) => t,
            Err(e) => {
                return Err(e);
            },
        };
        let idx: usize = (account_id as usize) - 1;
        let mut account = self.accounts.remove(idx);
        proof {
            assert(account_wf(old(self).accounts_view()[idx as int]));
        }
        let r = account.apply(&t, now);
        self.accounts.insert(idx, account);
        proof {
            assert(self.accounts@ =~= old(self).accounts@.update(idx as int, account));
            assert forall|i: int|
                0 <= i < self.accounts_view().len() implies account_wf(
                #[trigger] self.accounts_view()[i],
            ) by {
                if i != idx as int {
                    assert(self.accounts_view()[i] == old(self).accounts_view()[i]);
                    assert(account_wf(old(self).accounts_view()[i]));
                }
            }
        }
        r
    }

    /// Builds a statement for the addressed account: its balance, limit,
    /// the timestamp of the read, and up to the ten most recent
    /// transactions, newest first. Fails `NotFound` for an id outside the
    /// universe; reads never mutate the store.
    pub fn statement(&self, account_id: i16, now: String) -> (r: Result<
        AccountStatementResponse,
        LedgerError,
    >)
        requires
            self.wf(),
        ensures
            ledger_statement_post(*self, account_id, now, r),
    {
        if account_id < 1 || account_id as usize > self.accounts.len() {
            return Err(LedgerError::NotFound);
        }
        let idx: usize = (account_id as usize) - 1;
        proof {
            assert(account_wf(self.accounts_view()[idx as int]));
        }
        Ok(self.accounts[idx].statement(now))
    }
}

} // verus!
