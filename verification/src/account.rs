//! One account of the store: an immutable overdraft limit, a balance, and
//! the append-only log of committed transactions. Applying a transaction
//! checks the overdraft rule, mutates the balance, and appends the record as
//! one unit; building a statement reads a consistent snapshot.

use vstd::prelude::*;

use crate::types::{
    AccountStatementResponse, Balance, LedgerError, TransactionInfo, TransactionKind,
    TransactionRecord, TransactionResponse, ValidatedTransaction, info_matches, kind_string,
    lemma_sum_deltas_push, movement, record_valid, sum_deltas, transaction_valid,
};

verus! {

/// An account: limit, balance, and its transaction log.
///
/// The store owns values of this type; all mutation flows through
/// [`Account::apply`].
pub struct Account {
    pub limite: i32,
    pub saldo: i32,
    pub log: Vec<TransactionRecord>,
}

/// Well-formedness of an account, preserved by every operation:
/// the limit is non-negative, the balance never falls below the negative of
/// the limit, the balance equals the sum of the log's movements (accounts
/// start at zero), and every committed record is itself well formed.
pub open spec fn account_wf(a: Account) -> bool {
    &&& a.limite >= 0
    &&& a.saldo as int >= -(a.limite as int)
    &&& a.saldo as int == sum_deltas(a.log@)
    &&& forall|i: int| 0 <= i < a.log@.len() ==> record_valid(#[trigger] a.log@[i])
}

/// A debit of `valor` is within the overdraft rule: the candidate balance
/// stays at or above the negative of the limit.
pub open spec fn debit_allowed(saldo: int, limite: int, valor: int) -> bool {
    saldo - valor >= -limite
}

/// A credit of `valor` keeps the balance representable in its field.
pub open spec fn credit_fits(saldo: int, valor: int) -> bool {
    saldo + valor <= i32::MAX
}

/// The outcome the applier owes for a transaction against an account in
/// state (`saldo`, `limite`): accepted exactly when a debit is within the
/// overdraft rule, or a credit's candidate balance fits.
pub open spec fn apply_accepts(saldo: int, limite: int, tipo: TransactionKind, valor: int) -> bool {
    match tipo {
        TransactionKind::Credit => credit_fits(saldo, valor),
        TransactionKind::Debit => debit_allowed(saldo, limite, valor),
    }
}

/// Exactly what a statement of account `a`, read at `now`, must contain:
/// the current balance and limit, the timestamp of the read, and the
/// `min(10, log length)` most recent records, newest first.
pub open spec fn statement_post(a: Account, now: String, r: AccountStatementResponse) -> bool {
    &&& r.saldo.total == a.saldo
    &&& r.saldo.limite == a.limite
    &&& r.saldo.data_extrato == now
    &&& r.ultimas_transacoes@.len() == vstd::math::min(10, a.log@.len() as int)
    &&& forall|i: int|
        0 <= i < r.ultimas_transacoes@.len() ==> info_matches(
            a.log@[a.log@.len() - 1 - i],
            #[trigger] r.ultimas_transacoes@[i],
        )
}

impl Account {
    /// Seeds an account with the given limit, a zero balance, and an empty
    /// log.
    pub fn new(limite: i32) -> (a: Account)
        requires
            limite >= 0,
        ensures
            account_wf(a),
            a.limite == limite,
            a.saldo == 0,
            a.log@ == Seq::<TransactionRecord>::empty(),
    {
        Account { limite, saldo: 0, log: Vec::new() }
    }

    /// Applies a validated transaction atomically: checks the overdraft
    /// rule, then either mutates the balance and appends the record as one
    /// unit, or rejects leaving the account completely unchanged.
    ///
    /// A rejected debit is `LimitExceeded`; a credit whose candidate balance
    /// does not fit the balance field is `Internal`. Acceptance is exactly
    /// [`apply_accepts`], and an accepted call moves the balance by the
    /// transaction's signed value and appends exactly one record carrying
    /// the transaction and the `now` timestamp.
    pub fn apply(&mut self, t: &ValidatedTransaction, now: String) -> (r: Result<
        TransactionResponse,
        LedgerError,
    >)
        requires
            account_wf(*old(self)),
            transaction_valid(*t),
        ensures
            account_wf(*final(self)),
            final(self).limite == old(self).limite,
            r is Ok <==> apply_accepts(
                old(self).saldo as int,
                old(self).limite as int,
                t.tipo,
                t.valor as int,
            ),
            match r {
                Ok(resp) => {
                    &&& resp.limite == old(self).limite
                    &&& resp.saldo == final(self).saldo
                    &&& final(self).saldo as int == old(self).saldo + movement(
                        t.tipo,
                        t.valor as int,
                    )
                    &&& final(self).log@ == old(self).log@.push(
                        (TransactionRecord {
                            valor: t.valor,
                            tipo: t.tipo,
                            descricao: t.descricao,
                            realizada_em: now,
                        }),
                    )
                },
                Err(e) => {
                    &&& *final(self) == *old(self)
                    &&& (e == LedgerError::LimitExceeded <==> t.tipo is Debit)
                    &&& (e == LedgerError::Internal <==> t.tipo is Credit)
                },
            },
    {
        match t.tipo {
            TransactionKind::Credit => {
                if self.saldo > i32::MAX - t.valor {
                    return Err(LedgerError::Internal);
                }
                let novo: i32 = self.saldo + t.valor;
                let rec = TransactionRecord {
                    valor: t.valor,
                    tipo: t.tipo,
                    descricao: t.descricao.clone(),
                    realizada_em: now,
                };
                self.saldo = novo;
                self.log.push(rec);
                proof {
                    lemma_sum_deltas_push(old(self).log@, rec);
                }
                Ok(TransactionResponse { limite: self.limite, saldo: novo })
            },
            TransactionKind::Debit => {
                if (self.saldo as i64) - (t.valor as i64) < -(self.limite as i64) {
                    return Err(LedgerError::LimitExceeded);
                }
                let novo: i32 = self.saldo - t.valor;
                let rec = TransactionRecord {
                    valor: t.valor,
                    tipo: t.tipo,
                    descricao: t.descricao.clone(),
                    realizada_em: now,
                };
                self.saldo = novo;
                self.log.push(rec);
                proof {
                    lemma_sum_deltas_push(old(self).log@, rec);
                }
                Ok(TransactionResponse { limite: self.limite, saldo: novo })
            },
        }
    }

    /// Builds a consistent snapshot of this account: balance, limit, the
    /// timestamp of the read, and up to the ten most recent transactions,
    /// newest first. The reported balance is the one implied by the full
    /// log, returned and unreturned records alike.
    pub fn statement(&self, now: String) -> (r: AccountStatementResponse)
        requires
            account_wf(*self),
        ensures
            statement_post(*self, now, r),
            r.saldo.total as int == sum_deltas(self.log@),
    {
        let n: usize = self.log.len();
        let count: usize = if n < 10 {
            n
        } else {
            10
        };
        let mut infos: Vec<TransactionInfo> = Vec::new();
        let mut i: usize = 0;
        while i < count
            invariant
                count == vstd::math::min(10, self.log@.len() as int),
                n == self.log@.len(),
                i <= count,
                infos@.len() == i,
                forall|j: int|
                    0 <= j < i ==> info_matches(
                        self.log@[self.log@.len() - 1 - j],
                        #[trigger] infos@[j],
                    ),
            decreases count - i,
        {
            let rec = &self.log[n - 1 - i];
            infos.push(
                TransactionInfo {
                    valor: rec.valor,
                    tipo: kind_string(rec.tipo),
                    descricao: rec.descricao.clone(),
                    realizada_em: rec.realizada_em.clone(),
                },
            );
            i += 1;
        }
        AccountStatementResponse {
            saldo: Balance { total: self.saldo, data_extrato: now, limite: self.limite },
            ultimas_transacoes: infos,
        }
    }
}

} // verus!
