//! Core data types of the ledger: transaction kinds, errors, committed
//! transaction records, and the response shapes of the two operations.

use vstd::prelude::*;

verus! {

/// The two directions a transaction can move a balance.
#[derive(Clone, Copy, PartialEq, Eq, Structural, Debug)]
pub enum TransactionKind {
    Credit,
    Debit,
}

/// Every way an operation can fail.
///
/// `StorageFailure` is reserved for a persistence collaborator that loses a
/// commit; the in-memory store never produces it, and its contracts say so.
/// `Internal` covers the one machine-level fault the store can hit: a credit
/// whose candidate balance does not fit the balance field.
#[derive(Clone, Copy, PartialEq, Eq, Structural, Debug)]
pub enum LedgerError {
    NotFound,
    InvalidInput,
    LimitExceeded,
    StorageFailure,
    Internal,
}

/// A request that passed validation: the kind is decoded, the value is
/// positive, and the description length is within bounds.
pub struct ValidatedTransaction {
    pub tipo: TransactionKind,
    pub valor: i32,
    pub descricao: String,
}

/// A committed, immutable entry of an account's append-only log.
pub struct TransactionRecord {
    pub valor: i32,
    pub tipo: TransactionKind,
    pub descricao: String,
    pub realizada_em: String,
}

/// The successful result of applying a transaction: the account's limit and
/// its post-transaction balance.
#[derive(Clone, Copy, PartialEq, Eq, Structural, Debug)]
pub struct TransactionResponse {
    pub limite: i32,
    pub saldo: i32,
}

/// The balance part of a statement: current total, the timestamp of the
/// read, and the account's limit.
pub struct Balance {
    pub total: i32,
    pub data_extrato: String,
    pub limite: i32,
}

/// One transaction as reported in a statement.
pub struct TransactionInfo {
    pub valor: i32,
    pub tipo: String,
    pub descricao: String,
    pub realizada_em: String,
}

/// A full statement: balance snapshot plus the most recent transactions,
/// newest first.
pub struct AccountStatementResponse {
    pub saldo: Balance,
    pub ultimas_transacoes: Vec<TransactionInfo>,
}

/// The signed movement a kind/value pair applies to a balance.
pub open spec fn movement(tipo: TransactionKind, valor: int) -> int {
    match tipo {
        TransactionKind::Credit => valor,
        TransactionKind::Debit => -valor,
    }
}

/// The signed movement of a committed record.
pub open spec fn delta(r: TransactionRecord) -> int {
    movement(r.tipo, r.valor as int)
}

/// The balance implied by a log, starting from zero: the sum of the signed
/// movements of its records.
pub open spec fn sum_deltas(log: Seq<TransactionRecord>) -> int
    decreases log.len(),
{
    if log.len() == 0 {
        0
    } else {
        sum_deltas(log.drop_last()) + delta(log.last())
    }
}

pub proof fn lemma_sum_deltas_push(log: Seq<TransactionRecord>, r: TransactionRecord)
    ensures
        sum_deltas(log.push(r)) == sum_deltas(log) + delta(r),
{
    assert(log.push(r).drop_last() =~= log);
    assert(log.push(r).last() == r);
}

/// A committed record is well formed: positive value, description length
/// between one and ten characters.
pub open spec fn record_valid(r: TransactionRecord) -> bool {
    &&& r.valor > 0
    &&& 1 <= r.descricao@.len() <= 10
}

/// A validated transaction carries a positive value and a description of
/// one to ten characters.
pub open spec fn transaction_valid(t: ValidatedTransaction) -> bool {
    &&& t.valor > 0
    &&& 1 <= t.descricao@.len() <= 10
}

/// The label under which a kind is reported in a statement.
pub open spec fn kind_label(k: TransactionKind) -> Seq<char> {
    match k {
        TransactionKind::Credit => "credit"@,
        TransactionKind::Debit => "debit"@,
    }
}

/// A reported transaction carries exactly the fields of a committed record,
/// with the kind rendered as its label.
pub open spec fn info_matches(rec: TransactionRecord, info: TransactionInfo) -> bool {
    &&& info.valor == rec.valor
    &&& info.tipo@ == kind_label(rec.tipo)
    &&& info.descricao == rec.descricao
    &&& info.realizada_em == rec.realizada_em
}

/// Renders a kind as its statement label.
pub fn kind_string(k: TransactionKind) -> (r: String)
    ensures
        r@ == kind_label(k),
{
    match k {
        TransactionKind::Credit => String::from_str("credit"),
        TransactionKind::Debit => String::from_str("debit"),
    }
}

} // verus!
