use miniledger::ledger::Ledger;
use miniledger::types::{LedgerError, TransactionResponse};

fn seeded(limits: &[i32]) -> Ledger {
    Ledger::new(&limits.to_vec())
}

fn apply(
    l: &mut Ledger,
    id: i16,
    kind: &str,
    value: i32,
    description: &str,
    now: &str,
) -> Result<TransactionResponse, LedgerError> {
    l.apply(
        id,
        &Some(kind.to_string()),
        &Some(value),
        &Some(description.to_string()),
        now.to_string(),
    )
}

#[test]
fn scenario_overdraft_then_credit() {
    let mut l = seeded(&[1000]);
    let r = apply(&mut l, 1, "debit", 1000, "d1", "t1");
    assert_eq!(r, Ok(TransactionResponse { limite: 1000, saldo: -1000 }));
    let r = apply(&mut l, 1, "debit", 1, "d2", "t2");
    assert_eq!(r, Err(LedgerError::LimitExceeded));
    let s = l.statement(1, "t3".to_string()).unwrap();
    assert_eq!(s.saldo.total, -1000);
    let r = apply(&mut l, 1, "credit", 500, "c1", "t4");
    assert_eq!(r, Ok(TransactionResponse { limite: 1000, saldo: -500 }));
    let s = l.statement(1, "t5".to_string()).unwrap();
    assert_eq!(s.saldo.total, -500);
    assert_eq!(s.saldo.limite, 1000);
    assert_eq!(s.saldo.data_extrato, "t5");
    assert_eq!(s.ultimas_transacoes.len(), 2);
    assert_eq!(s.ultimas_transacoes[0].tipo, "credit");
    assert_eq!(s.ultimas_transacoes[0].valor, 500);
    assert_eq!(s.ultimas_transacoes[0].descricao, "c1");
    assert_eq!(s.ultimas_transacoes[0].realizada_em, "t4");
    assert_eq!(s.ultimas_transacoes[1].tipo, "debit");
    assert_eq!(s.ultimas_transacoes[1].valor, 1000);
}

#[test]
fn scenario_unknown_account() {
    let mut l = seeded(&[1000, 800, 10000, 100000, 5000]);
    let r = apply(&mut l, 99, "credit", 10, "x", "t1");
    assert_eq!(r, Err(LedgerError::NotFound));
    assert!(matches!(l.statement(99, "t2".to_string()), Err(LedgerError::NotFound)));
}

#[test]
fn scenario_bad_description() {
    let mut l = seeded(&[1000]);
    let r = apply(&mut l, 1, "credit", 10, "", "t1");
    assert_eq!(r, Err(LedgerError::InvalidInput));
    let r = apply(&mut l, 1, "credit", 10, "elevenchars", "t2");
    assert_eq!(r, Err(LedgerError::InvalidInput));
    let s = l.statement(1, "t3".to_string()).unwrap();
    assert_eq!(s.saldo.total, 0);
    assert_eq!(s.ultimas_transacoes.len(), 0);
}

#[test]
fn id_below_universe_is_not_found() {
    let mut l = seeded(&[1000]);
    assert_eq!(apply(&mut l, 0, "credit", 10, "x", "t1"), Err(LedgerError::NotFound));
    assert_eq!(apply(&mut l, -3, "credit", 10, "x", "t1"), Err(LedgerError::NotFound));
    assert!(matches!(l.statement(0, "t2".to_string()), Err(LedgerError::NotFound)));
}

#[test]
fn not_found_beats_invalid_input() {
    let mut l = seeded(&[1000]);
    let r = l.apply(42, &None, &None, &None, "t1".to_string());
    assert_eq!(r, Err(LedgerError::NotFound));
}

#[test]
fn credit_adds_value() {
    let mut l = seeded(&[0]);
    let r = apply(&mut l, 1, "credit", 123, "pay", "t1");
    assert_eq!(r, Ok(TransactionResponse { limite: 0, saldo: 123 }));
    let r = apply(&mut l, 1, "credit", 7, "pay", "t2");
    assert_eq!(r, Ok(TransactionResponse { limite: 0, saldo: 130 }));
}

#[test]
fn debit_to_exact_limit_is_allowed() {
    let mut l = seeded(&[500]);
    let r = apply(&mut l, 1, "debit", 500, "max", "t1");
    assert_eq!(r, Ok(TransactionResponse { limite: 500, saldo: -500 }));
    let r = apply(&mut l, 1, "debit", 1, "over", "t2");
    assert_eq!(r, Err(LedgerError::LimitExceeded));
    let s = l.statement(1, "t3".to_string()).unwrap();
    assert_eq!(s.saldo.total, -500);
    assert_eq!(s.ultimas_transacoes.len(), 1);
}

#[test]
fn zero_limit_rejects_any_debit() {
    let mut l = seeded(&[0]);
    let r = apply(&mut l, 1, "debit", 1, "x", "t1");
    assert_eq!(r, Err(LedgerError::LimitExceeded));
    let s = l.statement(1, "t2".to_string()).unwrap();
    assert_eq!(s.saldo.total, 0);
    assert_eq!(s.ultimas_transacoes.len(), 0);
}

#[test]
fn rejected_debit_leaves_log_unchanged() {
    let mut l = seeded(&[100]);
    apply(&mut l, 1, "credit", 50, "c", "t1").unwrap();
    let r = apply(&mut l, 1, "debit", 200, "d", "t2");
    assert_eq!(r, Err(LedgerError::LimitExceeded));
    let s = l.statement(1, "t3".to_string()).unwrap();
    assert_eq!(s.saldo.total, 50);
    assert_eq!(s.ultimas_transacoes.len(), 1);
    assert_eq!(s.ultimas_transacoes[0].descricao, "c");
}

#[test]
fn accounts_are_independent() {
    let mut l = seeded(&[100, 200]);
    apply(&mut l, 1, "debit", 100, "a1", "t1").unwrap();
    apply(&mut l, 2, "credit", 30, "a2", "t2").unwrap();
    let s1 = l.statement(1, "t3".to_string()).unwrap();
    let s2 = l.statement(2, "t3".to_string()).unwrap();
    assert_eq!(s1.saldo.total, -100);
    assert_eq!(s1.saldo.limite, 100);
    assert_eq!(s1.ultimas_transacoes.len(), 1);
    assert_eq!(s2.saldo.total, 30);
    assert_eq!(s2.saldo.limite, 200);
    assert_eq!(s2.ultimas_transacoes.len(), 1);
}

#[test]
fn statement_caps_at_ten_newest_first() {
    let mut l = seeded(&[0]);
    for i in 1..=12 {
        let now = format!("t{:02}", i);
        let r = apply(&mut l, 1, "credit", i, "c", &now);
        assert!(r.is_ok());
    }
    let s = l.statement(1, "now".to_string()).unwrap();
    assert_eq!(s.ultimas_transacoes.len(), 10);
    for (pos, info) in s.ultimas_transacoes.iter().enumerate() {
        assert_eq!(info.valor, 12 - pos as i32);
        assert_eq!(info.realizada_em, format!("t{:02}", 12 - pos));
        assert_eq!(info.tipo, "credit");
    }
    // The balance reflects the full history, returned and unreturned alike.
    assert_eq!(s.saldo.total, (1..=12).sum::<i32>());
}

#[test]
fn empty_account_statement() {
    let l = seeded(&[77]);
    let s = l.statement(1, "now".to_string()).unwrap();
    assert_eq!(s.saldo.total, 0);
    assert_eq!(s.saldo.limite, 77);
    assert_eq!(s.saldo.data_extrato, "now");
    assert_eq!(s.ultimas_transacoes.len(), 0);
}

#[test]
fn repeated_statements_are_identical() {
    let mut l = seeded(&[1000]);
    apply(&mut l, 1, "debit", 40, "d", "t1").unwrap();
    apply(&mut l, 1, "credit", 15, "c", "t2").unwrap();
    let s1 = l.statement(1, "same".to_string()).unwrap();
    let s2 = l.statement(1, "same".to_string()).unwrap();
    assert_eq!(s1.saldo.total, s2.saldo.total);
    assert_eq!(s1.saldo.limite, s2.saldo.limite);
    assert_eq!(s1.saldo.data_extrato, s2.saldo.data_extrato);
    assert_eq!(s1.ultimas_transacoes.len(), s2.ultimas_transacoes.len());
    for (a, b) in s1.ultimas_transacoes.iter().zip(s2.ultimas_transacoes.iter()) {
        assert_eq!(a.valor, b.valor);
        assert_eq!(a.tipo, b.tipo);
        assert_eq!(a.descricao, b.descricao);
        assert_eq!(a.realizada_em, b.realizada_em);
    }
}

#[test]
fn serialized_debit_contention() {
    // Balance 0, limit 1000, five debits of 400 offered one after another:
    // exactly floor(1000 / 400) = 2 are accepted, the rest fail
    // LimitExceeded, and the final balance is -800.
    let mut l = seeded(&[1000]);
    let mut accepted = 0;
    let mut rejected = 0;
    for i in 0..5 {
        let now = format!("t{}", i);
        match apply(&mut l, 1, "debit", 400, "bid", &now) {
            Ok(_) => accepted += 1,
            Err(LedgerError::LimitExceeded) => rejected += 1,
            Err(e) => panic!("unexpected error: {:?}", e),
        }
    }
    assert_eq!(accepted, 2);
    assert_eq!(rejected, 3);
    let s = l.statement(1, "end".to_string()).unwrap();
    assert_eq!(s.saldo.total, -800);
    assert!(s.saldo.total >= -1000);
}

#[test]
fn huge_debit_is_rejected_cleanly() {
    let mut l = seeded(&[1000]);
    apply(&mut l, 1, "debit", 1000, "max", "t1").unwrap();
    // Candidate balance -1000 - i32::MAX is far outside the i32 range; the
    // applier must still answer LimitExceeded and leave the account alone.
    let r = apply(&mut l, 1, "debit", i32::MAX, "big", "t2");
    assert_eq!(r, Err(LedgerError::LimitExceeded));
    let s = l.statement(1, "t3".to_string()).unwrap();
    assert_eq!(s.saldo.total, -1000);
    assert_eq!(s.ultimas_transacoes.len(), 1);
}

#[test]
fn credit_overflow_is_internal_and_harmless() {
    let mut l = seeded(&[10]);
    let r = apply(&mut l, 1, "credit", i32::MAX, "big", "t1");
    assert_eq!(r, Ok(TransactionResponse { limite: 10, saldo: i32::MAX }));
    let r = apply(&mut l, 1, "credit", 1, "more", "t2");
    assert_eq!(r, Err(LedgerError::Internal));
    let s = l.statement(1, "t3".to_string()).unwrap();
    assert_eq!(s.saldo.total, i32::MAX);
    assert_eq!(s.ultimas_transacoes.len(), 1);
}
