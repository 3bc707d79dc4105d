//! The general laws of the ledger, stated over the same spec functions its
//! contracts use and proved once for all inputs.

use vstd::arithmetic::div_mod::{lemma_basic_div, lemma_div_plus_one, lemma_div_pos_is_pos};
use vstd::math::min;
use vstd::prelude::*;

use crate::account::{Account, account_wf, apply_accepts, debit_allowed, statement_post};
use crate::ledger::{Ledger, ledger_statement_post};
use crate::types::{
    AccountStatementResponse, LedgerError, TransactionInfo, TransactionKind, info_matches,
    movement, sum_deltas,
};

verus! {

/// The overdraft invariant: every well-formed account keeps its balance at
/// or above the negative of its limit, and its balance is exactly the one
/// implied by its full transaction history. `Account::new` establishes
/// well-formedness and `Account::apply` preserves it, so this holds after
/// every committed transaction of every reachable history.
pub proof fn lemma_invariant_holds(a: Account)
    requires
        account_wf(a),
    ensures
        a.saldo as int >= -(a.limite as int),
        a.saldo as int == sum_deltas(a.log@),
{
}

/// The balance after a history of transactions — pairs of kind and value —
/// has been offered, one after another, to an applier starting from `saldo`
/// under `limite`. Each step is exactly `Account::apply`'s acceptance rule:
/// an accepted transaction moves the balance by its signed value, a
/// rejected one leaves it unchanged.
pub open spec fn applier_run(
    saldo: int,
    limite: int,
    reqs: Seq<(TransactionKind, int)>,
) -> int
    decreases reqs.len(),
{
    if reqs.len() == 0 {
        saldo
    } else {
        let prev = applier_run(saldo, limite, reqs.drop_last());
        if apply_accepts(prev, limite, reqs.last().0, reqs.last().1) {
            prev + movement(reqs.last().0, reqs.last().1)
        } else {
            prev
        }
    }
}

/// The overdraft invariant over every reachable history: whatever sequence
/// of positive-value transactions is offered to an account seeded with
/// `saldo >= -limite`, the balance stays at or above `-limite` after every
/// step — every prefix of a history is itself a history, so this bounds
/// each intermediate balance too.
pub proof fn lemma_invariant_every_history(
    saldo: int,
    limite: int,
    reqs: Seq<(TransactionKind, int)>,
)
    requires
        limite >= 0,
        saldo >= -limite,
        forall|i: int| 0 <= i < reqs.len() ==> (#[trigger] reqs[i]).1 > 0,
    ensures
        applier_run(saldo, limite, reqs) >= -limite,
    decreases reqs.len(),
{
    if reqs.len() > 0 {
        lemma_invariant_every_history(saldo, limite, reqs.drop_last());
    }
}

/// How many of `k` debits of `valor`, applied one after another to a
/// balance `saldo` under limit `limite`, are accepted by the overdraft
/// rule. Each step is exactly the debit case of `Account::apply`: accepted
/// when [`debit_allowed`], moving the balance down by `valor`; rejected
/// otherwise, leaving it unchanged.
pub open spec fn debit_run_accepted(saldo: int, limite: int, valor: int, k: nat) -> int
    decreases k,
{
    if k == 0 {
        0
    } else if debit_allowed(saldo, limite, valor) {
        1 + debit_run_accepted(saldo - valor, limite, valor, (k - 1) as nat)
    } else {
        debit_run_accepted(saldo, limite, valor, (k - 1) as nat)
    }
}

/// The balance left after `k` debits of `valor` were offered one after
/// another to a balance `saldo` under limit `limite`.
pub open spec fn debit_run_balance(saldo: int, limite: int, valor: int, k: nat) -> int
    decreases k,
{
    if k == 0 {
        saldo
    } else if debit_allowed(saldo, limite, valor) {
        debit_run_balance(saldo - valor, limite, valor, (k - 1) as nat)
    } else {
        debit_run_balance(saldo, limite, valor, (k - 1) as nat)
    }
}

/// Serialized contention law: when `k` debits of value `valor` are offered
/// in any serialization order to an account with balance `saldo` and limit
/// `limite`, exactly `min(k, (saldo + limite) / valor)` of them are
/// accepted, the rest are rejected by the overdraft rule, and the final
/// balance is the starting balance minus `valor` times the accepted count —
/// never below `-limite`.
pub proof fn lemma_concurrent_debits(saldo: int, limite: int, valor: int, k: nat)
    requires
        limite >= 0,
        valor > 0,
        saldo >= -limite,
    ensures
        debit_run_accepted(saldo, limite, valor, k) == min(k as int, (saldo + limite) / valor),
        debit_run_balance(saldo, limite, valor, k) == saldo - valor * debit_run_accepted(
            saldo,
            limite,
            valor,
            k,
        ),
        debit_run_balance(saldo, limite, valor, k) >= -limite,
    decreases k,
{
    let q = (saldo + limite) / valor;
    lemma_div_pos_is_pos(saldo + limite, valor);
    if k == 0 {
    } else if debit_allowed(saldo, limite, valor) {
        let acc_rest = debit_run_accepted(saldo - valor, limite, valor, (k - 1) as nat);
        lemma_div_plus_one(saldo + limite - valor, valor);
        lemma_concurrent_debits(saldo - valor, limite, valor, (k - 1) as nat);
        assert(valor * (1 + acc_rest) == valor + valor * acc_rest) by (nonlinear_arith);
    } else {
        lemma_basic_div(saldo + limite, valor);
        lemma_concurrent_debits(saldo, limite, valor, (k - 1) as nat);
    }
}

/// Statement order respects time: the statement lists records by recency of
/// commitment, so under any order `le` in which the log's timestamps were
/// appended non-decreasingly — as a monotone clock produces them — the
/// reported timestamps are non-increasing: newest first, ties left in
/// reverse insertion order.
pub proof fn lemma_statement_newest_first(
    a: Account,
    now: String,
    r: AccountStatementResponse,
    le: spec_fn(String, String) -> bool,
)
    requires
        statement_post(a, now, r),
        forall|i: int, j: int|
            0 <= i <= j < a.log@.len() ==> le(a.log@[i].realizada_em, a.log@[j].realizada_em),
    ensures
        forall|i: int, j: int|
            0 <= i <= j < r.ultimas_transacoes@.len() ==> le(
                r.ultimas_transacoes@[j].realizada_em,
                r.ultimas_transacoes@[i].realizada_em,
            ),
{
    let infos = r.ultimas_transacoes@;
    let log = a.log@;
    assert forall|i: int, j: int| 0 <= i <= j < infos.len() implies le(
        infos[j].realizada_em,
        infos[i].realizada_em,
    ) by {
        assert(info_matches(log[log.len() - 1 - i], infos[i]));
        assert(info_matches(log[log.len() - 1 - j], infos[j]));
        assert(le(log[log.len() - 1 - j].realizada_em, log[log.len() - 1 - i].realizada_em));
    }
}

/// Two reported transactions agree in every field a caller can observe.
pub open spec fn info_eq(x: TransactionInfo, y: TransactionInfo) -> bool {
    &&& x.valor == y.valor
    &&& x.tipo@ == y.tipo@
    &&& x.descricao == y.descricao
    &&& x.realizada_em == y.realizada_em
}

/// Two statements agree in every field a caller can observe.
pub open spec fn statement_eq(x: AccountStatementResponse, y: AccountStatementResponse) -> bool {
    &&& x.saldo.total == y.saldo.total
    &&& x.saldo.limite == y.saldo.limite
    &&& x.saldo.data_extrato == y.saldo.data_extrato
    &&& x.ultimas_transacoes@.len() == y.ultimas_transacoes@.len()
    &&& forall|i: int|
        0 <= i < x.ultimas_transacoes@.len() ==> info_eq(
            #[trigger] x.ultimas_transacoes@[i],
            y.ultimas_transacoes@[i],
        )
}

/// Two statement results agree: the same error, or statements that agree
/// in every observable field.
pub open spec fn statement_results_eq(
    x: Result<AccountStatementResponse, LedgerError>,
    y: Result<AccountStatementResponse, LedgerError>,
) -> bool {
    match (x, y) {
        (Ok(a), Ok(b)) => statement_eq(a, b),
        (Err(e1), Err(e2)) => e1 == e2,
        _ => false,
    }
}

/// Idempotence of reads: two statements of the same store, for the same
/// account, read at the same timestamp, agree in every observable field —
/// repeated `Ledger::statement` calls with no intervening `Ledger::apply`
/// return identical results.
pub proof fn lemma_statement_idempotent(
    l: Ledger,
    account_id: i16,
    now: String,
    r1: Result<AccountStatementResponse, LedgerError>,
    r2: Result<AccountStatementResponse, LedgerError>,
)
    requires
        ledger_statement_post(l, account_id, now, r1),
        ledger_statement_post(l, account_id, now, r2),
    ensures
        statement_results_eq(r1, r2),
{
    match (r1, r2) {
        (Ok(a), Ok(b)) => {
            let log = l.account_at(account_id).log@;
            assert forall|i: int| 0 <= i < a.ultimas_transacoes@.len() implies info_eq(
                #[trigger] a.ultimas_transacoes@[i],
                b.ultimas_transacoes@[i],
            ) by {
                assert(info_matches(log[log.len() - 1 - i], a.ultimas_transacoes@[i]));
                assert(info_matches(log[log.len() - 1 - i], b.ultimas_transacoes@[i]));
            }
        },
        _ => {},
    }
}

} // verus!
