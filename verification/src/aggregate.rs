//! The aggregator: the totals of a statement, taken over all its records
//! whatever pages they fall on.

use vstd::prelude::*;
use crate::calendar::StatementDate;
use crate::error::StatementError;
use crate::transaction::{views, Transaction, TransactionKind, TransactionView};

verus! {

/// Which kind of statement is drawn.
#[derive(Clone, Copy, Debug, PartialEq, Eq, Structural)]
pub enum Variant {
    /// Deposits, interest, withdrawals and tax in money.
    CashFlow,
    /// Purchases and sales of fund units.
    UnitFund,
}

/// The totals of a cash-flow statement, in thousandths.
#[derive(Clone, Copy, Debug)]
pub struct Summation {
    /// The balance after the last record.
    pub total_running_bal: i64,
    /// The tax of all records.
    pub total_taxs: i128,
    /// The deposits of all records.
    pub total_deposits: i128,
    /// The withdrawals of all records.
    pub total_withdrawal: i128,
    /// The interest of all records.
    pub total_interest: i128,
}

/// The totals of a unit-fund statement, in thousandths.
#[derive(Clone, Copy, Debug)]
pub struct BFSummation {
    /// The units of all purchases.
    pub total_purchase_units: i128,
    /// The amounts of all purchases.
    pub total_purchase_costs: i128,
    /// The units of all sales.
    pub total_sale_units: i128,
    /// The amounts of all sales.
    pub total_sale_costs: i128,
    /// The units held after the last record.
    pub total_balance_units: i64,
    /// The unit price of the last record.
    pub latest_nav: i64,
    /// The balance after the last record.
    pub total_running_bal: i64,
    /// The instant of the last record.
    pub closing_date: StatementDate,
}

/// The totals of a statement of either kind.
#[derive(Clone, Copy, Debug)]
pub enum Aggregates {
    /// Totals of a cash-flow statement.
    CashFlow(Summation),
    /// Totals of a unit-fund statement.
    UnitFund(BFSummation),
}

/// The sum of `f` over the records of `s`.
pub open spec fn sum_by(s: Seq<TransactionView>, f: spec_fn(TransactionView) -> int) -> int
    decreases s.len(),
{
    if s.len() == 0 {
        0
    } else {
        sum_by(s.drop_last(), f) + f(s.last())
    }
}

/// What a record adds to the deposits.
pub open spec fn deposit_of(t: TransactionView) -> int {
    t.p_amount
}

/// What a record adds to the withdrawals.
pub open spec fn withdrawal_of(t: TransactionView) -> int {
    t.w_amount
}

/// What a record adds to the interest.
pub open spec fn interest_of(t: TransactionView) -> int {
    t.i_amount
}

/// What a record adds to the tax.
pub open spec fn tax_of(t: TransactionView) -> int {
    t.taxamt
}

/// The units a record moves; a record without a unit count moves none.
pub open spec fn units_of(t: TransactionView) -> int {
    match t.shares {
        Some(u) => u,
        None => 0,
    }
}

/// The units a record adds to the purchases.
pub open spec fn purchase_units_of(t: TransactionView) -> int {
    if t.kind == TransactionKind::Purchase {
        units_of(t)
    } else {
        0
    }
}

/// The amount a record adds to the purchases.
pub open spec fn purchase_cost_of(t: TransactionView) -> int {
    if t.kind == TransactionKind::Purchase {
        t.amount
    } else {
        0
    }
}

/// The units a record adds to the sales.
pub open spec fn sale_units_of(t: TransactionView) -> int {
    if t.kind == TransactionKind::Withdrawal {
        units_of(t)
    } else {
        0
    }
}

/// The amount a record adds to the sales.
pub open spec fn sale_cost_of(t: TransactionView) -> int {
    if t.kind == TransactionKind::Withdrawal {
        t.amount
    } else {
        0
    }
}

/// Cash-flow totals as the contracts see them.
pub ghost struct SummationView {
    pub total_running_bal: int,
    pub total_taxs: int,
    pub total_deposits: int,
    pub total_withdrawal: int,
    pub total_interest: int,
}

impl View for Summation {
    type V = SummationView;

    open spec fn view(&self) -> SummationView {
        SummationView {
            total_running_bal: self.total_running_bal as int,
            total_taxs: self.total_taxs as int,
            total_deposits: self.total_deposits as int,
            total_withdrawal: self.total_withdrawal as int,
            total_interest: self.total_interest as int,
        }
    }
}

/// Unit-fund totals as the contracts see them.
pub ghost struct BFSummationView {
    pub total_purchase_units: int,
    pub total_purchase_costs: int,
    pub total_sale_units: int,
    pub total_sale_costs: int,
    pub total_balance_units: int,
    pub latest_nav: int,
    pub total_running_bal: int,
    pub closing_date: int,
}

impl View for BFSummation {
    type V = BFSummationView;

    open spec fn view(&self) -> BFSummationView {
        BFSummationView {
            total_purchase_units: self.total_purchase_units as int,
            total_purchase_costs: self.total_purchase_costs as int,
            total_sale_units: self.total_sale_units as int,
            total_sale_costs: self.total_sale_costs as int,
            total_balance_units: self.total_balance_units as int,
            latest_nav: self.latest_nav as int,
            total_running_bal: self.total_running_bal as int,
            closing_date: self.closing_date.secs(),
        }
    }
}

/// Totals of either kind as the contracts see them.
pub ghost enum AggregatesView {
    CashFlow(SummationView),
    UnitFund(BFSummationView),
}

impl View for Aggregates {
    type V = AggregatesView;

    open spec fn view(&self) -> AggregatesView {
        match *self {
            Aggregates::CashFlow(sums) => AggregatesView::CashFlow(sums@),
            Aggregates::UnitFund(sums) => AggregatesView::UnitFund(sums@),
        }
    }
}

impl AggregatesView {
    /// The kind of statement that the totals belong to.
    pub open spec fn variant(self) -> Variant {
        match self {
            AggregatesView::CashFlow(_) => Variant::CashFlow,
            AggregatesView::UnitFund(_) => Variant::UnitFund,
        }
    }
}

/// The unit price of a record; a record without one counts as zero.
pub open spec fn price_of(t: TransactionView) -> int {
    match t.price {
        Some(p) => p,
        None => 0,
    }
}

/// The cash-flow totals of the records `s`: each sum runs over all of them,
/// the balance is that of the last one.
pub open spec fn cash_totals_of(s: Seq<TransactionView>) -> SummationView
    recommends
        s.len() > 0,
{
    SummationView {
        total_running_bal: s.last().running_balance,
        total_taxs: sum_by(s, |t: TransactionView| tax_of(t)),
        total_deposits: sum_by(s, |t: TransactionView| deposit_of(t)),
        total_withdrawal: sum_by(s, |t: TransactionView| withdrawal_of(t)),
        total_interest: sum_by(s, |t: TransactionView| interest_of(t)),
    }
}

/// The unit-fund totals of the records `s`: each sum runs over all of them,
/// the units held, the unit price, the balance and the closing date are those
/// of the last one.
pub open spec fn unit_totals_of(s: Seq<TransactionView>) -> BFSummationView
    recommends
        s.len() > 0,
        s.last().price is Some,
{
    BFSummationView {
        total_purchase_units: sum_by(s, |t: TransactionView| purchase_units_of(t)),
        total_purchase_costs: sum_by(s, |t: TransactionView| purchase_cost_of(t)),
        total_sale_units: sum_by(s, |t: TransactionView| sale_units_of(t)),
        total_sale_costs: sum_by(s, |t: TransactionView| sale_cost_of(t)),
        total_balance_units: s.last().running_shares,
        latest_nav: price_of(s.last()),
        total_running_bal: s.last().running_balance,
        closing_date: s.last().trans_date,
    }
}

/// The totals of the records `s` for a statement of kind `variant`.
pub open spec fn totals_of(s: Seq<TransactionView>, variant: Variant) -> AggregatesView
    recommends
        s.len() > 0,
{
    match variant {
        Variant::CashFlow => AggregatesView::CashFlow(cash_totals_of(s)),
        Variant::UnitFund => AggregatesView::UnitFund(unit_totals_of(s)),
    }
}

/// The largest magnitude of one record's field.
spec fn field_bound() -> int {
    0x8000_0000_0000_0000
}

/// Adding one more record to a sum adds that record's share.
proof fn lemma_sum_by_step(s: Seq<TransactionView>, f: spec_fn(TransactionView) -> int, i: int)
    requires
        0 <= i < s.len(),
    ensures
        sum_by(s.take(i + 1), f) == sum_by(s.take(i), f) + f(s[i]),
{
    assert(s.take(i + 1).drop_last() =~= s.take(i));
}

/// The cash-flow totals of the records, which are not empty.
fn cash_totals(transactions: &Vec<Transaction>) -> (sums: Summation)
    requires
        transactions.len() > 0,
    ensures
        sums@ == cash_totals_of(views(transactions@)),
{
    let n: usize = transactions.len();
    let ghost s = views(transactions@);
    let ghost tax = |t: TransactionView| tax_of(t);
    let ghost dep = |t: TransactionView| deposit_of(t);
    let ghost wit = |t: TransactionView| withdrawal_of(t);
    let ghost itr = |t: TransactionView| interest_of(t);
    let mut taxs: i128 = 0;
    let mut deposits: i128 = 0;
    let mut withdrawal: i128 = 0;
    let mut interest: i128 = 0;
    let mut i: usize = 0;
    while i < n
        invariant
            n == transactions.len(),
            s == views(transactions@),
            tax == (|t: TransactionView| tax_of(t)),
            dep == (|t: TransactionView| deposit_of(t)),
            wit == (|t: TransactionView| withdrawal_of(t)),
            itr == (|t: TransactionView| interest_of(t)),
            0 <= i <= n,
            taxs == sum_by(s.take(i as int), tax),
            deposits == sum_by(s.take(i as int), dep),
            withdrawal == sum_by(s.take(i as int), wit),
            interest == sum_by(s.take(i as int), itr),
            -(i * field_bound()) <= taxs <= i * field_bound(),
            -(i * field_bound()) <= deposits <= i * field_bound(),
            -(i * field_bound()) <= withdrawal <= i * field_bound(),
            -(i * field_bound()) <= interest <= i * field_bound(),
        decreases n - i,
    {
        let t = &transactions[i];
        proof {
            lemma_sum_by_step(s, tax, i as int);
            lemma_sum_by_step(s, dep, i as int);
            lemma_sum_by_step(s, wit, i as int);
            lemma_sum_by_step(s, itr, i as int);
            assert(s[i as int] == transactions@[i as int]@);
            lemma_bound_step(i as int);
        }
        taxs = taxs + t.taxamt as i128;
        deposits = deposits + t.p_amount as i128;
        withdrawal = withdrawal + t.w_amount as i128;
        interest = interest + t.i_amount as i128;
        i = i + 1;
    }
    assert(s.take(n as int) =~= s);
    Summation {
        total_running_bal: transactions[n - 1].running_balance,
        total_taxs: taxs,
        total_deposits: deposits,
        total_withdrawal: withdrawal,
        total_interest: interest,
    }
}

/// A sum of `i + 1` fields stays within the 128-bit range for every count of
/// records that a vector can hold.
proof fn lemma_bound_step(i: int)
    requires
        0 <= i < usize::MAX,
    ensures
        (i + 1) * field_bound() == i * field_bound() + field_bound(),
        (i + 1) * field_bound() <= i128::MAX,
{
    assert((i + 1) * field_bound() == i * field_bound() + field_bound()) by (nonlinear_arith);
    assert((i + 1) * field_bound() <= 0xffff_ffff_ffff_ffff * 0x8000_0000_0000_0000)
        by (nonlinear_arith)
        requires
            i + 1 <= 0xffff_ffff_ffff_ffff,
            field_bound() == 0x8000_0000_0000_0000,
    ;
}

/// The units of a record, none counting as zero.
fn units(t: &Transaction) -> (u: i64)
    ensures
        u == units_of(t@),
{
    match t.shares {
        Some(u) => u,
        None => 0,
    }
}

/// The unit-fund totals of the records, which are not empty and whose last
/// record has the unit price `nav`.
fn unit_totals(transactions: &Vec<Transaction>, nav: i64) -> (sums: BFSummation)
    requires
        transactions.len() > 0,
        transactions@.last().price == Some(nav),
    ensures
        sums@ == unit_totals_of(views(transactions@)),
{
    let n: usize = transactions.len();
    let ghost s = views(transactions@);
    let ghost pu = |t: TransactionView| purchase_units_of(t);
    let ghost pc = |t: TransactionView| purchase_cost_of(t);
    let ghost su = |t: TransactionView| sale_units_of(t);
    let ghost sc = |t: TransactionView| sale_cost_of(t);
    let mut purchase_units: i128 = 0;
    let mut purchase_costs: i128 = 0;
    let mut sale_units: i128 = 0;
    let mut sale_costs: i128 = 0;
    let mut i: usize = 0;
    while i < n
        invariant
            n == transactions.len(),
            s == views(transactions@),
            pu == (|t: TransactionView| purchase_units_of(t)),
            pc == (|t: TransactionView| purchase_cost_of(t)),
            su == (|t: TransactionView| sale_units_of(t)),
            sc == (|t: TransactionView| sale_cost_of(t)),
            0 <= i <= n,
            purchase_units == sum_by(s.take(i as int), pu),
            purchase_costs == sum_by(s.take(i as int), pc),
            sale_units == sum_by(s.take(i as int), su),
            sale_costs == sum_by(s.take(i as int), sc),
            -(i * field_bound()) <= purchase_units <= i * field_bound(),
            -(i * field_bound()) <= purchase_costs <= i * field_bound(),
            -(i * field_bound()) <= sale_units <= i * field_bound(),
            -(i * field_bound()) <= sale_costs <= i * field_bound(),
        decreases n - i,
    {
        let t = &transactions[i];
        proof {
            lemma_sum_by_step(s, pu, i as int);
            lemma_sum_by_step(s, pc, i as int);
            lemma_sum_by_step(s, su, i as int);
            lemma_sum_by_step(s, sc, i as int);
            assert(s[i as int] == transactions@[i as int]@);
            lemma_bound_step(i as int);
        }
        let u: i64 = units(t);
        match t.kind {
            TransactionKind::Purchase => {
                purchase_units = purchase_units + u as i128;
                purchase_costs = purchase_costs + t.amount as i128;
            },
            TransactionKind::Withdrawal => {
                sale_units = sale_units + u as i128;
                sale_costs = sale_costs + t.amount as i128;
            },
            _ => {},
        }
        i = i + 1;
    }
    assert(s.take(n as int) =~= s);
    let last = &transactions[n - 1];
    BFSummation {
        total_purchase_units: purchase_units,
        total_purchase_costs: purchase_costs,
        total_sale_units: sale_units,
        total_sale_costs: sale_costs,
        total_balance_units: last.running_shares,
        latest_nav: nav,
        total_running_bal: last.running_balance,
        closing_date: last.trans_date,
    }
}

/// The totals of a statement of kind `variant`.
///
/// Fails with `EmptyStatement` where there is no record, and with
/// `MissingUnitPrice` where a unit-fund statement's last record has no unit
/// price.  The sums run over the records in their order; the balance, the
/// units held, the unit price and the closing date are those of the last
/// record.
pub fn aggregate(transactions: &Vec<Transaction>, variant: Variant) -> (r: Result<
    Aggregates,
    StatementError,
>)
    ensures
        transactions.len() == 0 ==> r is Err && r->Err_0 == StatementError::EmptyStatement,
        transactions.len() > 0 && variant == Variant::UnitFund && transactions@.last().price
            is None ==> r is Err && r->Err_0 == StatementError::MissingUnitPrice,
        transactions.len() > 0 && (variant == Variant::CashFlow || transactions@.last().price
            is Some) ==> r is Ok,
        r matches Ok(a) ==> a@ == totals_of(views(transactions@), variant),
{
    let n: usize = transactions.len();
    if n == 0 {
        return Err(StatementError::EmptyStatement);
    }
    match variant {
        Variant::CashFlow => Ok(Aggregates::CashFlow(cash_totals(transactions))),
        Variant::UnitFund => match transactions[n - 1].price {
            Some(nav) => Ok(Aggregates::UnitFund(unit_totals(transactions, nav))),
            None => Err(StatementError::MissingUnitPrice),
        },
    }
}

/// Taking one record out of a sequence takes its share out of the sum.
proof fn lemma_sum_by_remove(s: Seq<TransactionView>, f: spec_fn(TransactionView) -> int, j: int)
    requires
        0 <= j < s.len(),
    ensures
        sum_by(s, f) == sum_by(s.remove(j), f) + f(s[j]),
    decreases s.len(),
{
    if j == s.len() - 1 {
        assert(s.remove(j) =~= s.drop_last());
    } else {
        lemma_sum_by_remove(s.drop_last(), f, j);
        assert(s.drop_last().remove(j) =~= s.remove(j).drop_last());
        assert(s.remove(j).last() == s.last());
    }
}

/// A sum over records does not depend on their order: two sequences with the
/// same records, each as often in one as in the other, have the same sum.
pub proof fn lemma_sum_by_permutation(
    a: Seq<TransactionView>,
    b: Seq<TransactionView>,
    f: spec_fn(TransactionView) -> int,
)
    requires
        a.to_multiset() == b.to_multiset(),
    ensures
        sum_by(a, f) == sum_by(b, f),
    decreases a.len(),
{
    a.to_multiset_ensures();
    b.to_multiset_ensures();
    if a.len() > 0 {
        let x = a.last();
        assert(a.contains(x));
        assert(a.to_multiset().count(x) > 0);
        assert(b.to_multiset().count(x) > 0);
        assert(b.contains(x));
        let j = choose|j: int| 0 <= j < b.len() && b[j] == x;
        assert(a.drop_last() =~= a.remove(a.len() - 1));
        assert(a.drop_last().to_multiset() == b.remove(j).to_multiset());
        lemma_sum_by_permutation(a.drop_last(), b.remove(j), f);
        lemma_sum_by_remove(b, f, j);
    }
}

/// The totals of two orderings of the same records: every sum is the same in
/// both, while the balance, the units held, the unit price and the closing
/// date are those of each ordering's own last record, so that they differ
/// wherever the last records differ in them.
pub proof fn lemma_totals_of_reordering(a: Seq<TransactionView>, b: Seq<TransactionView>)
    requires
        a.to_multiset() == b.to_multiset(),
    ensures
        cash_totals_of(a).total_taxs == cash_totals_of(b).total_taxs,
        cash_totals_of(a).total_deposits == cash_totals_of(b).total_deposits,
        cash_totals_of(a).total_withdrawal == cash_totals_of(b).total_withdrawal,
        cash_totals_of(a).total_interest == cash_totals_of(b).total_interest,
        unit_totals_of(a).total_purchase_units == unit_totals_of(b).total_purchase_units,
        unit_totals_of(a).total_purchase_costs == unit_totals_of(b).total_purchase_costs,
        unit_totals_of(a).total_sale_units == unit_totals_of(b).total_sale_units,
        unit_totals_of(a).total_sale_costs == unit_totals_of(b).total_sale_costs,
        cash_totals_of(a).total_running_bal == a.last().running_balance,
        cash_totals_of(b).total_running_bal == b.last().running_balance,
        a.last().running_balance != b.last().running_balance ==> cash_totals_of(a)
            != cash_totals_of(b) && unit_totals_of(a) != unit_totals_of(b),
        a.last().running_shares != b.last().running_shares ==> unit_totals_of(a) != unit_totals_of(
            b,
        ),
        price_of(a.last()) != price_of(b.last()) ==> unit_totals_of(a) != unit_totals_of(b),
        a.last().trans_date != b.last().trans_date ==> unit_totals_of(a) != unit_totals_of(b),
{
    lemma_sum_by_permutation(a, b, |t: TransactionView| tax_of(t));
    lemma_sum_by_permutation(a, b, |t: TransactionView| deposit_of(t));
    lemma_sum_by_permutation(a, b, |t: TransactionView| withdrawal_of(t));
    lemma_sum_by_permutation(a, b, |t: TransactionView| interest_of(t));
    lemma_sum_by_permutation(a, b, |t: TransactionView| purchase_units_of(t));
    lemma_sum_by_permutation(a, b, |t: TransactionView| purchase_cost_of(t));
    lemma_sum_by_permutation(a, b, |t: TransactionView| sale_units_of(t));
    lemma_sum_by_permutation(a, b, |t: TransactionView| sale_cost_of(t));
}

} // verus!
