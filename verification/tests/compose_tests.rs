use statement_layout::aggregate::Variant;
use statement_layout::calendar::StatementDate;
use statement_layout::compose::{
    compose, create_pdf, generate_pdf, PageFooter, PageHeader, PageRenderPlan, StatementContext,
};
use statement_layout::error::StatementError;
use statement_layout::geometry::{PageGeometry, MM};
use statement_layout::transaction::{Transaction, TransactionKind};

fn deposit(id: i64) -> Transaction {
    Transaction {
        trans_id: id,
        trans_date: StatementDate::from_timestamp(1_600_000_000 + id * 86_400).unwrap(),
        kind: TransactionKind::Purchase,
        amount: 1_000_000,
        running_balance: (id + 1) * 1_000_000,
        running_shares: (id + 1) * 1_000,
        taxamt: 0,
        p_amount: 1_000_000,
        w_amount: 0,
        i_amount: 0,
        shares: Some(1_000),
        price: Some(1_000_000),
        mop: String::from("CHEQUE"),
        descript: String::from("Fund"),
    }
}

fn deposits(n: i64) -> Vec<Transaction> {
    (0..n).map(deposit).collect()
}

fn ids(plan: &PageRenderPlan) -> Vec<i64> {
    plan.page.records.iter().map(|t| t.trans_id).collect()
}

#[test]
fn thirty_records_make_two_pages_with_the_summary_on_the_second() {
    let pages = generate_pdf(deposits(30)).unwrap();
    assert_eq!(pages.len(), 2);
    let first = &pages[0];
    assert_eq!(first.page.page_index, 0);
    assert_eq!(first.page.total_pages, 2);
    assert!(first.page.is_first);
    assert!(!first.page.is_last);
    assert!(!first.page.render_summary);
    assert_eq!(ids(first), (0..28).collect::<Vec<i64>>());
    assert_eq!(first.header, PageHeader::StatementBlock);
    assert_eq!(first.footer, PageFooter::BankDetails);
    assert_eq!(first.table.cells.len(), 29 * 8);
    assert!(first.table.cells.iter().all(|c| c.text != "Summations"));
    let second = &pages[1];
    assert_eq!(second.page.page_index, 1);
    assert_eq!(second.page.total_pages, 2);
    assert!(!second.page.is_first);
    assert!(second.page.is_last);
    assert!(second.page.render_summary);
    assert_eq!(ids(second), vec![28, 29]);
    assert_eq!(second.header, PageHeader::PageNumber);
    assert_eq!(second.footer, PageFooter::BankDetails);
    assert_eq!(second.table.cells.len(), 4 * 8);
    assert_eq!(second.table.cell(3, 0).unwrap().text, "Summations");
    assert_eq!(second.table.cell(3, 3).unwrap().text, "30,000.00");
    assert_eq!(second.table.cell(3, 7).unwrap().text, "30,000.00");
    assert_eq!(second.table.cell(1, 0).unwrap().text, "28");
}

#[test]
fn twenty_eight_records_make_one_page_with_the_summary() {
    let pages = generate_pdf(deposits(28)).unwrap();
    assert_eq!(pages.len(), 1);
    let page = &pages[0];
    assert_eq!(page.page.total_pages, 1);
    assert!(page.page.is_first);
    assert!(page.page.is_last);
    assert!(page.page.render_summary);
    assert_eq!(ids(page), (0..28).collect::<Vec<i64>>());
    assert_eq!(page.table.cells.len(), 30 * 8);
    assert_eq!(page.table.cell(29, 0).unwrap().text, "Summations");
    assert_eq!(page.table.cell(29, 3).unwrap().text, "28,000.00");
}

#[test]
fn first_page_table_stands_lower_than_later_ones() {
    let pages = generate_pdf(deposits(70)).unwrap();
    assert_eq!(pages.len(), 3);
    assert_eq!(pages[0].page.origin_y, 224 * MM);
    assert_eq!(pages[1].page.origin_y, 272 * MM);
    assert_eq!(pages[2].page.origin_y, 272 * MM);
    assert_eq!(pages[0].table.cell(0, 0).unwrap().y, 219 * MM);
    assert_eq!(pages[1].table.cell(0, 0).unwrap().y, 267 * MM);
    assert_eq!(pages[1].table.cell(1, 0).unwrap().y, 260 * MM);
    assert_eq!(ids(&pages[1]), (28..63).collect::<Vec<i64>>());
    assert_eq!(ids(&pages[2]), (63..70).collect::<Vec<i64>>());
    let with_summary = pages.iter().filter(|p| p.page.render_summary).count();
    assert_eq!(with_summary, 1);
}

#[test]
fn money_market_statement_pages_by_twenty_six_and_thirty_one() {
    let pages = create_pdf(deposits(58), true).unwrap();
    assert_eq!(pages.len(), 3);
    assert_eq!(ids(&pages[0]).len(), 26);
    assert_eq!(ids(&pages[1]).len(), 31);
    assert_eq!(ids(&pages[2]), vec![57]);
    assert_eq!(pages[0].page.origin_y, 231 * MM);
    assert_eq!(pages[1].page.origin_y, 275 * MM);
    assert_eq!(pages[0].table.columns, 8);
    assert_eq!(pages[2].table.cell(2, 0).unwrap().text, "Summations");
}

#[test]
fn unit_fund_statement_has_eleven_columns_and_two_summary_lines() {
    let pages = create_pdf(deposits(27), false).unwrap();
    assert_eq!(pages.len(), 2);
    assert_eq!(pages[0].table.columns, 11);
    assert_eq!(pages[0].page.origin_y, 221 * MM);
    assert_eq!(pages[1].page.origin_y, 259 * MM);
    assert_eq!(pages[0].table.cells.len(), 28 * 11);
    assert_eq!(pages[1].table.cells.len(), 5 * 11);
    assert_eq!(pages[1].table.cell(1, 0).unwrap().text, "Trans Id");
    assert_eq!(pages[1].table.cell(2, 0).unwrap().text, "26");
    assert_eq!(pages[1].table.cell(3, 0).unwrap().text, "Summations");
    assert_eq!(pages[1].table.cell(3, 3).unwrap().text, "27");
    assert_eq!(pages[1].table.cell(3, 5).unwrap().text, "27000");
    assert_eq!(pages[1].table.cell(3, 9).unwrap().text, "27");
    assert_eq!(pages[1].table.cell(3, 10).unwrap().text, "1000");
    assert_eq!(pages[1].table.cell(4, 0).unwrap().text, "Closing balance as at: 2020-10-09");
    assert_eq!(pages[1].table.cell(4, 9).unwrap().text, "27000");
}

#[test]
fn compose_uses_the_context_it_is_given() {
    let mut geometry = PageGeometry::money_market();
    geometry.first_page_capacity = 2;
    geometry.later_page_capacity = 3;
    let context =
        StatementContext { transactions: deposits(9), variant: Variant::CashFlow, geometry };
    let pages = compose(&context).unwrap();
    let sizes: Vec<usize> = pages.iter().map(|p| p.page.records.len()).collect();
    assert_eq!(sizes, vec![2, 3, 3, 1]);
    let flags: Vec<bool> = pages.iter().map(|p| p.page.render_summary).collect();
    assert_eq!(flags, vec![false, false, false, true]);
    for (i, p) in pages.iter().enumerate() {
        assert_eq!(p.page.page_index, i);
        assert_eq!(p.page.total_pages, 4);
        assert_eq!(p.page.is_first, i == 0);
        assert_eq!(p.page.is_last, i == 3);
    }
}

#[test]
fn an_empty_statement_fails_before_anything_else() {
    assert_eq!(create_pdf(Vec::new(), true).err(), Some(StatementError::EmptyStatement));
    assert_eq!(create_pdf(Vec::new(), false).err(), Some(StatementError::EmptyStatement));
    assert_eq!(generate_pdf(Vec::new()).err(), Some(StatementError::EmptyStatement));
    let mut geometry = PageGeometry::money_market();
    geometry.first_page_capacity = 0;
    geometry.column_schedule.clear();
    let context =
        StatementContext { transactions: Vec::new(), variant: Variant::UnitFund, geometry };
    assert_eq!(compose(&context).err(), Some(StatementError::EmptyStatement));
}

#[test]
fn a_zero_capacity_fails_the_statement() {
    let mut geometry = PageGeometry::unit_fund();
    geometry.later_page_capacity = 0;
    let mut data = deposits(3);
    data[2].price = None;
    let context = StatementContext { transactions: data, variant: Variant::UnitFund, geometry };
    assert_eq!(compose(&context).err(), Some(StatementError::InvalidCapacity));
}

#[test]
fn a_missing_last_unit_price_fails_a_unit_fund_statement() {
    let mut data = deposits(3);
    data[2].price = None;
    assert_eq!(create_pdf(data.clone(), false).err(), Some(StatementError::MissingUnitPrice));
    assert!(create_pdf(data, true).is_ok());
}

#[test]
fn a_schedule_of_the_wrong_length_fails_the_statement() {
    let context = StatementContext {
        transactions: deposits(3),
        variant: Variant::UnitFund,
        geometry: PageGeometry::money_market(),
    };
    assert_eq!(compose(&context).err(), Some(StatementError::ColumnScheduleMismatch));
    let context = StatementContext {
        transactions: deposits(3),
        variant: Variant::CashFlow,
        geometry: PageGeometry::unit_fund(),
    };
    assert_eq!(compose(&context).err(), Some(StatementError::ColumnScheduleMismatch));
}
