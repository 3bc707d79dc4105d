//! The transaction validator: a pure check of the shape and range of an
//! incoming request, run before the request touches any account. It does not
//! consult the store and does not know whether the account exists.

use vstd::prelude::*;

use crate::types::{LedgerError, TransactionKind, ValidatedTransaction};

verus! {

/// Decodes a kind string: exactly "credit" or "debit", anything else is
/// invalid.
pub open spec fn kind_of(s: Seq<char>) -> Option<TransactionKind> {
    if s == "credit"@ {
        Some(TransactionKind::Credit)
    } else if s == "debit"@ {
        Some(TransactionKind::Debit)
    } else {
        None
    }
}

/// A raw request is well formed when every field is present, the kind
/// decodes, the value is positive, and the description holds one to ten
/// characters. Each check is independently sufficient to reject.
pub open spec fn request_wf(
    tipo: Option<String>,
    valor: Option<i32>,
    descricao: Option<String>,
) -> bool {
    &&& tipo matches Some(s) && kind_of(s@) is Some
    &&& valor matches Some(v) && v > 0
    &&& descricao matches Some(d) && 1 <= d@.len() <= 10
}

/// Checks shape and range of a raw transaction request.
///
/// Accepts exactly the well-formed requests and hands back their decoded
/// form; everything else is `InvalidInput`. No side effects.
pub fn validate(
    tipo: &Option<String>,
    valor: &Option<i32>,
    descricao: &Option<String>,
) -> (r: Result<ValidatedTransaction, LedgerError>)
    ensures
        r is Ok <==> request_wf(*tipo, *valor, *descricao),
        match r {
            Ok(t) => {
                &&& *tipo matches Some(s) && kind_of(s@) == Some(t.tipo)
                &&& *valor == Some(t.valor)
                &&& *descricao == Some(t.descricao)
                &&& t.valor > 0
                &&& 1 <= t.descricao@.len() <= 10
            },
            Err(e) => e == LedgerError::InvalidInput,
        },
{
    let kind: TransactionKind = match tipo {
        Some(s) => {
            if *s == String::from_str("credit") {
                TransactionKind::Credit
            } else if *s == String::from_str("debit") {
                TransactionKind::Debit
            } else {
                return Err(LedgerError::InvalidInput);
            }
        },
        None => {
            return Err(LedgerError::InvalidInput);
        },
    };
    let value: i32 = match valor {
        Some(v) => {
            if *v <= 0 {
                return Err(LedgerError::InvalidInput);
            }
            *v
        },
        None => {
            return Err(LedgerError::InvalidInput);
        },
    };
    let description: String = match descricao {
        Some(d) => {
            let len = d.as_str().unicode_len();
            if len < 1 || len > 10 {
                return Err(LedgerError::InvalidInput);
            }
            d.clone()
        },
        None => {
            return Err(LedgerError::InvalidInput);
        },
    };
    Ok(ValidatedTransaction { tipo: kind, valor: value, descricao: description })
}

} // verus!
