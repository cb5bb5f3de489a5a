use statement_layout::aggregate::{aggregate, Aggregates, Variant};
use statement_layout::calendar::StatementDate;
use statement_layout::error::StatementError;
use statement_layout::transaction::{Transaction, TransactionKind};

fn record(id: i64, day: i64, kind: TransactionKind, amount: i64, balance: i64) -> Transaction {
    Transaction {
        trans_id: id,
        trans_date: StatementDate::from_timestamp(1_700_000_000 + day * 86_400).unwrap(),
        kind,
        amount,
        running_balance: balance,
        running_shares: balance / 10,
        taxamt: if kind == TransactionKind::Interest { -(amount / 10) } else { 0 },
        p_amount: if kind == TransactionKind::Purchase { amount } else { 0 },
        w_amount: if kind == TransactionKind::Withdrawal { -amount } else { 0 },
        i_amount: if kind == TransactionKind::Interest { amount } else { 0 },
        shares: Some(amount / 2),
        price: Some(2_000 + day),
        mop: String::from("EFT"),
        descript: String::from("Dollar Fund"),
    }
}

fn sample() -> Vec<Transaction> {
    vec![
        record(1, 0, TransactionKind::Purchase, 100_000, 100_000),
        record(2, 1, TransactionKind::Interest, 2_500, 102_250),
        record(3, 2, TransactionKind::Withdrawal, 40_000, 62_250),
        record(4, 3, TransactionKind::Purchase, 10_005, 72_255),
        record(5, 4, TransactionKind::Other, 999, 72_255),
    ]
}

#[test]
fn cash_flow_totals_sum_every_record() {
    let data = sample();
    match aggregate(&data, Variant::CashFlow).unwrap() {
        Aggregates::CashFlow(s) => {
            assert_eq!(s.total_deposits, 110_005);
            assert_eq!(s.total_interest, 2_500);
            assert_eq!(s.total_withdrawal, -40_000);
            assert_eq!(s.total_taxs, -250);
            assert_eq!(s.total_running_bal, 72_255);
        }
        Aggregates::UnitFund(_) => panic!("cash-flow totals expected"),
    }
}

#[test]
fn unit_fund_totals_sum_purchases_and_sales() {
    let data = sample();
    match aggregate(&data, Variant::UnitFund).unwrap() {
        Aggregates::UnitFund(s) => {
            assert_eq!(s.total_purchase_units, 50_000 + 5_002);
            assert_eq!(s.total_purchase_costs, 110_005);
            assert_eq!(s.total_sale_units, 20_000);
            assert_eq!(s.total_sale_costs, 40_000);
            assert_eq!(s.total_balance_units, 7_225);
            assert_eq!(s.latest_nav, 2_004);
            assert_eq!(s.total_running_bal, 72_255);
            assert_eq!(s.closing_date.timestamp(), 1_700_000_000 + 4 * 86_400);
        }
        Aggregates::CashFlow(_) => panic!("unit-fund totals expected"),
    }
}

#[test]
fn a_record_without_units_adds_none() {
    let mut data = sample();
    data[0].shares = None;
    match aggregate(&data, Variant::UnitFund).unwrap() {
        Aggregates::UnitFund(s) => assert_eq!(s.total_purchase_units, 5_002),
        Aggregates::CashFlow(_) => panic!("unit-fund totals expected"),
    }
}

#[test]
fn no_record_is_an_empty_statement_for_both_kinds() {
    let data: Vec<Transaction> = Vec::new();
    assert_eq!(aggregate(&data, Variant::CashFlow).err(), Some(StatementError::EmptyStatement));
    assert_eq!(aggregate(&data, Variant::UnitFund).err(), Some(StatementError::EmptyStatement));
}

#[test]
fn unit_fund_needs_the_last_unit_price() {
    let mut data = sample();
    data[4].price = None;
    assert_eq!(aggregate(&data, Variant::UnitFund).err(), Some(StatementError::MissingUnitPrice));
    assert!(aggregate(&data, Variant::CashFlow).is_ok());
    let mut other = sample();
    other[0].price = None;
    assert!(aggregate(&other, Variant::UnitFund).is_ok());
}

#[test]
fn sums_do_not_depend_on_the_order_but_the_balance_does() {
    let data = sample();
    let mut reordered = sample();
    reordered.reverse();
    let a = aggregate(&data, Variant::CashFlow).unwrap();
    let b = aggregate(&reordered, Variant::CashFlow).unwrap();
    match (a, b) {
        (Aggregates::CashFlow(x), Aggregates::CashFlow(y)) => {
            assert_eq!(x.total_deposits, y.total_deposits);
            assert_eq!(x.total_interest, y.total_interest);
            assert_eq!(x.total_withdrawal, y.total_withdrawal);
            assert_eq!(x.total_taxs, y.total_taxs);
            assert_eq!(x.total_running_bal, 72_255);
            assert_eq!(y.total_running_bal, 100_000);
        }
        _ => panic!("cash-flow totals expected"),
    }
    let a = aggregate(&data, Variant::UnitFund).unwrap();
    let b = aggregate(&reordered, Variant::UnitFund).unwrap();
    match (a, b) {
        (Aggregates::UnitFund(x), Aggregates::UnitFund(y)) => {
            assert_eq!(x.total_purchase_units, y.total_purchase_units);
            assert_eq!(x.total_purchase_costs, y.total_purchase_costs);
            assert_eq!(x.total_sale_units, y.total_sale_units);
            assert_eq!(x.total_sale_costs, y.total_sale_costs);
            assert_ne!(x.latest_nav, y.latest_nav);
            assert_ne!(x.total_balance_units, y.total_balance_units);
            assert_ne!(x.closing_date.timestamp(), y.closing_date.timestamp());
        }
        _ => panic!("unit-fund totals expected"),
    }
}

#[test]
fn sums_of_extreme_fields_do_not_overflow() {
    let mut data = Vec::new();
    for i in 0..4 {
        let mut t = record(i, i, TransactionKind::Purchase, i64::MAX, i64::MAX);
        t.p_amount = i64::MAX;
        t.taxamt = i64::MIN;
        data.push(t);
    }
    match aggregate(&data, Variant::CashFlow).unwrap() {
        Aggregates::CashFlow(s) => {
            assert_eq!(s.total_deposits, 4 * (i64::MAX as i128));
            assert_eq!(s.total_taxs, 4 * (i64::MIN as i128));
        }
        _ => panic!("cash-flow totals expected"),
    }
}
