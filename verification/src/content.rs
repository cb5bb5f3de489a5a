//! What the cells of a statement's table say.
//!
//! The cash-flow table shows money, rounded to two decimals and grouped by
//! thousands; the unit-fund table shows units, prices and costs with the
//! decimals they have.  A column that does not apply to a record is empty.

use vstd::prelude::*;
use vstd::string::*;
use crate::aggregate::{AggregatesView, BFSummation, BFSummationView, Summation, SummationView};
use crate::amount::{
    format_amount,
    format_integer,
    format_magnitude,
    format_plain,
    integer_text,
    magnitude_of,
    money_text,
    plain_text,
    round_to_mills,
};
use crate::calendar::utc_day_text;
use crate::transaction::{Transaction, TransactionKind, TransactionView};

verus! {

/// The text without characters.
pub open spec fn no_text() -> Seq<char> {
    Seq::<char>::empty()
}

/// The title of column `c` of the cash-flow table.
pub open spec fn cash_title(c: int) -> Seq<char> {
    if c == 0 {
        "Trans No."@
    } else if c == 1 {
        "Trans Date"@
    } else if c == 2 {
        "Description"@
    } else if c == 3 {
        "Deposit"@
    } else if c == 4 {
        "Interest"@
    } else if c == 5 {
        "Withdrawal"@
    } else if c == 6 {
        "Withholding Tax"@
    } else {
        "Running Balance"@
    }
}

/// The title of column `c` of the unit-fund table.
pub open spec fn unit_title(c: int) -> Seq<char> {
    if c == 0 {
        "Trans Id"@
    } else if c == 1 {
        "Trans Date"@
    } else if c == 2 {
        "Description"@
    } else if c == 3 || c == 6 || c == 9 {
        "Units"@
    } else if c == 4 || c == 7 {
        "Price"@
    } else if c == 5 || c == 8 {
        "Cost"@
    } else {
        "Nav"@
    }
}

/// The text of column `c` of the row above the unit-fund table's titles: the
/// name of the group of columns that starts at `c`.  The first group, of three
/// columns, has no name; purchases and sales have three columns each, the
/// balance two.
pub open spec fn group_title(c: int) -> Seq<char> {
    if c == 3 {
        "Purchases"@
    } else if c == 6 {
        "Sales"@
    } else if c == 9 {
        "Balance"@
    } else {
        no_text()
    }
}

/// The money text of `v` where `applies` holds, and no text otherwise.
pub open spec fn money_if(applies: bool, v: int) -> Seq<char> {
    if applies {
        money_text(v)
    } else {
        no_text()
    }
}

/// The quantity text of `v` where it is there and `applies` holds, and no text
/// otherwise.
pub open spec fn plain_if(applies: bool, v: Option<int>) -> Seq<char> {
    match v {
        Some(x) => if applies {
            plain_text(x)
        } else {
            no_text()
        },
        None => no_text(),
    }
}

/// The text of column `c` of the cash-flow row of the record `t`.
pub open spec fn cash_body_text(t: TransactionView, c: int) -> Seq<char> {
    if c == 0 {
        integer_text(t.trans_id)
    } else if c == 1 {
        utc_day_text(t.trans_date)
    } else if c == 2 {
        t.mop
    } else if c == 3 {
        money_if(t.kind == TransactionKind::Purchase, t.amount)
    } else if c == 4 {
        money_if(t.kind == TransactionKind::Interest, t.amount)
    } else if c == 5 {
        money_if(t.kind == TransactionKind::Withdrawal, t.amount)
    } else if c == 6 {
        money_if(t.taxamt != 0, t.taxamt)
    } else {
        money_text(t.running_balance)
    }
}

/// The text of column `c` of the cash-flow totals row.
pub open spec fn cash_summary_text(sums: SummationView, c: int) -> Seq<char> {
    if c == 0 {
        "Summations"@
    } else if c == 3 {
        money_text(sums.total_deposits)
    } else if c == 4 {
        money_text(sums.total_interest)
    } else if c == 5 {
        money_text(magnitude_of(sums.total_withdrawal) as int)
    } else if c == 6 {
        money_text(magnitude_of(sums.total_taxs) as int)
    } else if c == 7 {
        money_text(sums.total_running_bal)
    } else {
        no_text()
    }
}

/// The text of column `c` of the unit-fund row of the record `t`.
pub open spec fn unit_body_text(t: TransactionView, c: int) -> Seq<char> {
    let purchase = t.kind == TransactionKind::Purchase;
    let sale = t.kind == TransactionKind::Withdrawal;
    if c == 0 {
        integer_text(t.trans_id)
    } else if c == 1 {
        utc_day_text(t.trans_date)
    } else if c == 2 {
        t.mop
    } else if c == 3 {
        plain_if(purchase, t.shares)
    } else if c == 4 {
        plain_if(purchase, t.price)
    } else if c == 5 {
        plain_if(purchase, Some(t.amount))
    } else if c == 6 {
        plain_if(sale, t.shares)
    } else if c == 7 {
        plain_if(sale, t.price)
    } else if c == 8 {
        plain_if(sale, Some(t.amount))
    } else if c == 9 {
        plain_text(t.running_shares)
    } else {
        plain_if(true, t.price)
    }
}

/// The market value of the units held, in thousandths: the unit price times
/// the units, rounded half away from zero.
pub open spec fn market_value(sums: BFSummationView) -> int {
    round_to_mills(sums.latest_nav * sums.total_balance_units)
}

/// The text of column `c` of line `line` of the unit-fund totals: line 0
/// holds the totals, line 1 the closing balance.
pub open spec fn unit_summary_text(sums: BFSummationView, line: int, c: int) -> Seq<char> {
    if line == 0 {
        if c == 0 {
            "Summations"@
        } else if c == 3 {
            plain_text(sums.total_purchase_units)
        } else if c == 5 {
            plain_text(sums.total_purchase_costs)
        } else if c == 6 {
            plain_text(sums.total_sale_units)
        } else if c == 8 {
            plain_text(sums.total_sale_costs)
        } else if c == 9 {
            plain_text(sums.total_balance_units)
        } else if c == 10 {
            plain_text(sums.latest_nav)
        } else {
            no_text()
        }
    } else {
        if c == 0 {
            "Closing balance as at: "@ + utc_day_text(sums.closing_date)
        } else if c == 8 {
            "Market Value:"@
        } else if c == 9 {
            plain_text(market_value(sums))
        } else {
            no_text()
        }
    }
}

/// The number of rows above the records: the titles and, in the unit-fund
/// table, the row of group names above them.
pub open spec fn header_rows(totals: AggregatesView) -> int {
    match totals {
        AggregatesView::CashFlow(_) => 1,
        AggregatesView::UnitFund(_) => 2,
    }
}

/// The number of rows of the totals.
pub open spec fn summary_rows(totals: AggregatesView) -> int {
    match totals {
        AggregatesView::CashFlow(_) => 1,
        AggregatesView::UnitFund(_) => 2,
    }
}

/// The text of column `c` of row `r` of the table that shows `records` and,
/// below them, `totals`.
pub open spec fn cell_text(
    totals: AggregatesView,
    records: Seq<TransactionView>,
    r: int,
    c: int,
) -> Seq<char> {
    match totals {
        AggregatesView::CashFlow(sums) => {
            if r == 0 {
                cash_title(c)
            } else if r <= records.len() {
                cash_body_text(records[r - 1], c)
            } else {
                cash_summary_text(sums, c)
            }
        },
        AggregatesView::UnitFund(sums) => {
            if r == 0 {
                group_title(c)
            } else if r == 1 {
                unit_title(c)
            } else if r < 2 + records.len() {
                unit_body_text(records[r - 2], c)
            } else {
                unit_summary_text(sums, r - 2 - records.len(), c)
            }
        },
    }
}

/// The title of column `c` of the cash-flow table.
pub fn cash_title_of(c: usize) -> (r: String)
    ensures
        r@ == cash_title(c as int),
{
    if c == 0 {
        String::from_str("Trans No.")
    } else if c == 1 {
        String::from_str("Trans Date")
    } else if c == 2 {
        String::from_str("Description")
    } else if c == 3 {
        String::from_str("Deposit")
    } else if c == 4 {
        String::from_str("Interest")
    } else if c == 5 {
        String::from_str("Withdrawal")
    } else if c == 6 {
        String::from_str("Withholding Tax")
    } else {
        String::from_str("Running Balance")
    }
}

/// The title of column `c` of the unit-fund table.
pub fn unit_title_of(c: usize) -> (r: String)
    ensures
        r@ == unit_title(c as int),
{
    if c == 0 {
        String::from_str("Trans Id")
    } else if c == 1 {
        String::from_str("Trans Date")
    } else if c == 2 {
        String::from_str("Description")
    } else if c == 3 || c == 6 || c == 9 {
        String::from_str("Units")
    } else if c == 4 || c == 7 {
        String::from_str("Price")
    } else if c == 5 || c == 8 {
        String::from_str("Cost")
    } else {
        String::from_str("Nav")
    }
}

/// The name of the group of columns that starts at column `c` of the
/// unit-fund table, or no text.
pub fn group_title_of(c: usize) -> (r: String)
    ensures
        r@ == group_title(c as int),
{
    if c == 3 {
        String::from_str("Purchases")
    } else if c == 6 {
        String::from_str("Sales")
    } else if c == 9 {
        String::from_str("Balance")
    } else {
        String::new()
    }
}

/// The money text of `v` where `applies` holds, and no text otherwise.
fn money_if_of(applies: bool, v: i64) -> (r: String)
    ensures
        r@ == money_if(applies, v as int),
{
    if applies {
        format_amount(v as i128)
    } else {
        String::new()
    }
}

/// The quantity text of `v` where it is there and `applies` holds.
fn plain_if_of(applies: bool, v: Option<i64>) -> (r: String)
    ensures
        r@ == plain_if(applies, crate::transaction::option_int(v)),
{
    match v {
        Some(x) => if applies {
            format_plain(x as i128)
        } else {
            String::new()
        },
        None => String::new(),
    }
}

/// The text of column `c` of the cash-flow row of the record `t`.
pub fn cash_body_text_of(t: &Transaction, c: usize) -> (r: String)
    ensures
        r@ == cash_body_text(t@, c as int),
{
    if c == 0 {
        format_integer(t.trans_id)
    } else if c == 1 {
        t.trans_date.day_text()
    } else if c == 2 {
        t.mop.clone()
    } else if c == 3 {
        money_if_of(matches!(t.kind, TransactionKind::Purchase), t.amount)
    } else if c == 4 {
        money_if_of(matches!(t.kind, TransactionKind::Interest), t.amount)
    } else if c == 5 {
        money_if_of(matches!(t.kind, TransactionKind::Withdrawal), t.amount)
    } else if c == 6 {
        money_if_of(t.taxamt != 0, t.taxamt)
    } else {
        format_amount(t.running_balance as i128)
    }
}

/// The text of column `c` of the cash-flow totals row.
pub fn cash_summary_text_of(sums: &Summation, c: usize) -> (r: String)
    ensures
        r@ == cash_summary_text(sums@, c as int),
{
    if c == 0 {
        String::from_str("Summations")
    } else if c == 3 {
        format_amount(sums.total_deposits)
    } else if c == 4 {
        format_amount(sums.total_interest)
    } else if c == 5 {
        format_magnitude(sums.total_withdrawal)
    } else if c == 6 {
        format_magnitude(sums.total_taxs)
    } else if c == 7 {
        format_amount(sums.total_running_bal as i128)
    } else {
        String::new()
    }
}

/// The text of column `c` of the unit-fund row of the record `t`.
pub fn unit_body_text_of(t: &Transaction, c: usize) -> (r: String)
    ensures
        r@ == unit_body_text(t@, c as int),
{
    let purchase: bool = matches!(t.kind, TransactionKind::Purchase);
    let sale: bool = matches!(t.kind, TransactionKind::Withdrawal);
    if c == 0 {
        format_integer(t.trans_id)
    } else if c == 1 {
        t.trans_date.day_text()
    } else if c == 2 {
        t.mop.clone()
    } else if c == 3 {
        plain_if_of(purchase, t.shares)
    } else if c == 4 {
        plain_if_of(purchase, t.price)
    } else if c == 5 {
        plain_if_of(purchase, Some(t.amount))
    } else if c == 6 {
        plain_if_of(sale, t.shares)
    } else if c == 7 {
        plain_if_of(sale, t.price)
    } else if c == 8 {
        plain_if_of(sale, Some(t.amount))
    } else if c == 9 {
        format_plain(t.running_shares as i128)
    } else {
        plain_if_of(true, t.price)
    }
}

/// The market value of the units held, in thousandths.
pub fn market_value_of(sums: &BFSummation) -> (v: i128)
    ensures
        v == market_value(sums@),
{
    let nav: i128 = sums.latest_nav as i128;
    let units: i128 = sums.total_balance_units as i128;
    assert(-0x4000_0000_0000_0000_0000_0000_0000_0000 <= nav * units
        <= 0x4000_0000_0000_0000_0000_0000_0000_0000) by (nonlinear_arith)
        requires
            -0x8000_0000_0000_0000 <= nav <= 0x8000_0000_0000_0000,
            -0x8000_0000_0000_0000 <= units <= 0x8000_0000_0000_0000,
    ;
    let product: i128 = nav * units;
    if product >= 0 {
        (product + 500) / 1000
    } else {
        -((-product + 500) / 1000)
    }
}

/// The text of column `c` of line `line` of the unit-fund totals.
pub fn unit_summary_text_of(sums: &BFSummation, line: usize, c: usize) -> (r: String)
    ensures
        r@ == unit_summary_text(sums@, line as int, c as int),
{
    if line == 0 {
        if c == 0 {
            String::from_str("Summations")
        } else if c == 3 {
            format_plain(sums.total_purchase_units)
        } else if c == 5 {
            format_plain(sums.total_purchase_costs)
        } else if c == 6 {
            format_plain(sums.total_sale_units)
        } else if c == 8 {
            format_plain(sums.total_sale_costs)
        } else if c == 9 {
            format_plain(sums.total_balance_units as i128)
        } else if c == 10 {
            format_plain(sums.latest_nav as i128)
        } else {
            String::new()
        }
    } else {
        if c == 0 {
            let mut text = String::from_str("Closing balance as at: ");
            let day = sums.closing_date.day_text();
            text.append(day.as_str());
            text
        } else if c == 8 {
            String::from_str("Market Value:")
        } else if c == 9 {
            format_plain(market_value_of(sums))
        } else {
            String::new()
        }
    }
}

} // verus!
