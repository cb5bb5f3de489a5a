use statement_layout::aggregate::{aggregate, Aggregates, BFSummation, Summation, Variant};
use statement_layout::calendar::StatementDate;
use statement_layout::error::StatementError;
use statement_layout::geometry::{PageGeometry, MM};
use statement_layout::layout::{
    gen_table, gen_table_mmf, layout_page, layout_table, table_colors, CellStyle, ColumnTone,
    PageLayout, RuleTone, TableLayout,
};
use statement_layout::transaction::{Transaction, TransactionKind};

fn entry(id: i64, secs: i64, kind: TransactionKind, amount: i64, balance: i64) -> Transaction {
    Transaction {
        trans_id: id,
        trans_date: StatementDate::from_timestamp(secs).unwrap(),
        kind,
        amount,
        running_balance: balance,
        running_shares: 0,
        taxamt: 0,
        p_amount: 0,
        w_amount: 0,
        i_amount: 0,
        shares: None,
        price: None,
        mop: String::from("MPESA"),
        descript: String::from("Money Market Fund"),
    }
}

fn cash_sums() -> Summation {
    Summation {
        total_running_bal: 1_234_567_005,
        total_taxs: -1_500,
        total_deposits: 2_000_000,
        total_withdrawal: -765_432,
        total_interest: 10_000,
    }
}

fn row_texts(t: &TableLayout, row: usize) -> Vec<String> {
    (0..t.columns).map(|c| t.cell(row, c).unwrap().text.clone()).collect()
}

#[test]
fn cash_flow_table_has_the_eight_titles() {
    let t = gen_table_mmf(231 * MM, &Vec::new(), false, cash_sums());
    assert_eq!(t.columns, 8);
    assert_eq!(t.cells.len(), 8);
    assert_eq!(
        row_texts(&t, 0),
        vec![
            "Trans No.",
            "Trans Date",
            "Description",
            "Deposit",
            "Interest",
            "Withdrawal",
            "Withholding Tax",
            "Running Balance"
        ]
    );
    for c in 0..8 {
        let cell = t.cell(0, c).unwrap();
        assert_eq!(cell.style, CellStyle::Header);
        assert_eq!((cell.row, cell.column), (0, c));
        assert_eq!(cell.y, 226 * MM);
    }
}

#[test]
fn cash_flow_column_three_stands_at_eighty_millimetres() {
    let t = gen_table_mmf(231 * MM, &Vec::new(), false, cash_sums());
    assert_eq!(t.cell(0, 3).unwrap().x, 80 * MM);
    assert_eq!(t.cell(0, 0).unwrap().x, 10 * MM);
    assert_eq!(t.cell(0, 7).unwrap().x, 173 * MM);
}

#[test]
fn cash_flow_rows_show_what_applies_to_the_record() {
    let mut tax = entry(9, 1_431_648_000, TransactionKind::Interest, 2_500, 102_500);
    tax.taxamt = -375;
    let data = vec![
        entry(7, 1_431_561_600, TransactionKind::Purchase, 100_000, 100_000),
        tax,
        entry(-3, 1_431_734_400, TransactionKind::Withdrawal, 1_000_004, -900_000),
        entry(11, 1_431_820_800, TransactionKind::Other, 5, 0),
    ];
    let t = gen_table_mmf(231 * MM, &data, false, cash_sums());
    assert_eq!(t.cells.len(), 5 * 8);
    assert_eq!(
        row_texts(&t, 1),
        vec!["7", "2015-05-14", "MPESA", "100.00", "", "", "", "100.00"]
    );
    assert_eq!(
        row_texts(&t, 2),
        vec!["9", "2015-05-15", "MPESA", "", "2.50", "", "-0.38", "102.50"]
    );
    assert_eq!(
        row_texts(&t, 3),
        vec!["-3", "2015-05-16", "MPESA", "", "", "1,000.00", "", "-900.00"]
    );
    assert_eq!(row_texts(&t, 4), vec!["11", "2015-05-17", "MPESA", "", "", "", "", "0.00"]);
    for r in 1..5 {
        let cell = t.cell(r, 2).unwrap();
        assert_eq!(cell.style, CellStyle::Body);
        assert_eq!(cell.y, 231 * MM - (r as i64) * 8 * MM - 5 * MM);
        assert_eq!(cell.x, 55 * MM);
    }
    assert!(t.cell(5, 0).is_none());
    assert!(t.cell(0, 8).is_none());
}

#[test]
fn cash_flow_summary_row_follows_the_last_record() {
    let data = vec![
        entry(1, 0, TransactionKind::Purchase, 1_000, 1_000),
        entry(2, 86_400, TransactionKind::Purchase, 1_000, 2_000),
    ];
    let t = gen_table_mmf(275 * MM, &data, true, cash_sums());
    assert_eq!(t.cells.len(), 4 * 8);
    assert_eq!(
        row_texts(&t, 3),
        vec!["Summations", "", "", "2,000.00", "10.00", "765.43", "1.50", "1,234,567.01"]
    );
    for c in 0..8 {
        let cell = t.cell(3, c).unwrap();
        assert_eq!(cell.style, CellStyle::Summary);
        assert_eq!(cell.y, 275 * MM - 3 * 8 * MM - 5 * MM);
    }
}

#[test]
fn rules_close_the_table_without_a_summary() {
    let data = vec![
        entry(1, 0, TransactionKind::Purchase, 1_000, 1_000),
        entry(2, 86_400, TransactionKind::Purchase, 1_000, 2_000),
    ];
    let t = gen_table_mmf(231 * MM, &data, false, cash_sums());
    let lines: Vec<(i64, RuleTone)> = t.rules.iter().map(|r| (r.y / MM, r.tone)).collect();
    assert_eq!(
        lines,
        vec![
            (231, RuleTone::Accent),
            (223, RuleTone::Neutral),
            (215, RuleTone::Neutral),
            (207, RuleTone::Neutral)
        ]
    );
    for r in &t.rules {
        assert_eq!(r.x_start, 10 * MM);
        assert_eq!(r.x_end, 200 * MM);
    }
}

#[test]
fn rules_frame_the_summary_in_the_accent_tone() {
    let data = vec![
        entry(1, 0, TransactionKind::Purchase, 1_000, 1_000),
        entry(2, 86_400, TransactionKind::Purchase, 1_000, 2_000),
    ];
    let t = gen_table_mmf(231 * MM, &data, true, cash_sums());
    let lines: Vec<(i64, RuleTone)> = t.rules.iter().map(|r| (r.y / MM, r.tone)).collect();
    assert_eq!(
        lines,
        vec![
            (231, RuleTone::Accent),
            (223, RuleTone::Neutral),
            (215, RuleTone::Neutral),
            (207, RuleTone::Accent),
            (199, RuleTone::Accent)
        ]
    );
}

fn unit_sums() -> BFSummation {
    BFSummation {
        total_purchase_units: 150_500,
        total_purchase_costs: 3_010_000,
        total_sale_units: 20_000,
        total_sale_costs: 401_250,
        total_balance_units: 130_500,
        latest_nav: 20_125,
        total_running_bal: 2_626_312,
        closing_date: StatementDate::from_timestamp(1_431_648_000).unwrap(),
    }
}

#[test]
fn unit_fund_table_has_group_names_above_the_titles() {
    let t = gen_table(237 * MM, &Vec::new(), false, unit_sums());
    assert_eq!(t.columns, 11);
    assert_eq!(t.cells.len(), 22);
    assert_eq!(
        row_texts(&t, 0),
        vec!["", "", "", "Purchases", "", "", "Sales", "", "", "Balance", ""]
    );
    assert_eq!(
        row_texts(&t, 1),
        vec![
            "Trans Id",
            "Trans Date",
            "Description",
            "Units",
            "Price",
            "Cost",
            "Units",
            "Price",
            "Cost",
            "Units",
            "Nav"
        ]
    );
    assert_eq!(t.cell(0, 3).unwrap().y, 237 * MM - 8 * MM - 5 * MM);
    assert_eq!(t.cell(1, 3).unwrap().y, 237 * MM - 16 * MM - 5 * MM);
    assert_eq!(t.cell(0, 3).unwrap().x, 62 * MM);
    assert_eq!(t.cell(0, 6).unwrap().x, 113 * MM);
    assert_eq!(t.cell(0, 9).unwrap().x, 170 * MM);
    assert_eq!(t.cell(0, 3).unwrap().style, CellStyle::Header);
    assert_eq!(t.cell(1, 3).unwrap().style, CellStyle::Header);
}

#[test]
fn unit_fund_rows_show_units_price_and_cost() {
    let mut buy = entry(21, 1_431_648_000, TransactionKind::Purchase, 2_012_500, 0);
    buy.shares = Some(100_000);
    buy.price = Some(20_125);
    buy.running_shares = 100_000;
    let mut sell = entry(22, 1_431_734_400, TransactionKind::Withdrawal, 401_250, 0);
    sell.shares = Some(20_000);
    sell.price = Some(20_062);
    sell.running_shares = 80_000;
    let mut other = entry(23, 1_431_820_800, TransactionKind::Interest, 77, 0);
    other.running_shares = 80_001;
    let data = vec![buy, sell, other];
    let t = gen_table(237 * MM, &data, false, unit_sums());
    assert_eq!(t.cells.len(), 5 * 11);
    assert_eq!(
        row_texts(&t, 2),
        vec!["21", "2015-05-15", "MPESA", "100", "20.125", "2012.5", "", "", "", "100", "20.125"]
    );
    assert_eq!(
        row_texts(&t, 3),
        vec!["22", "2015-05-16", "MPESA", "", "", "", "20", "20.062", "401.25", "80", "20.062"]
    );
    assert_eq!(
        row_texts(&t, 4),
        vec!["23", "2015-05-17", "MPESA", "", "", "", "", "", "", "80.001", ""]
    );
    assert_eq!(t.cell(2, 0).unwrap().y, 237 * MM - 3 * 8 * MM - 5 * MM);
    assert_eq!(t.cell(4, 0).unwrap().y, 237 * MM - 5 * 8 * MM - 5 * MM);
    assert_eq!(t.cell(4, 0).unwrap().style, CellStyle::Body);
}

#[test]
fn unit_fund_summary_has_totals_and_closing_balance() {
    let mut buy = entry(21, 1_431_648_000, TransactionKind::Purchase, 2_012_500, 0);
    buy.price = Some(20_125);
    let data = vec![buy];
    let t = gen_table(237 * MM, &data, true, unit_sums());
    assert_eq!(t.cells.len(), 5 * 11);
    assert_eq!(
        row_texts(&t, 3),
        vec!["Summations", "", "", "150.5", "", "3010", "20", "", "401.25", "130.5", "20.125"]
    );
    assert_eq!(
        row_texts(&t, 4),
        vec![
            "Closing balance as at: 2015-05-15",
            "",
            "",
            "",
            "",
            "",
            "",
            "",
            "Market Value:",
            "2626.313",
            ""
        ]
    );
    assert_eq!(t.cell(3, 0).unwrap().style, CellStyle::Summary);
    assert_eq!(t.cell(4, 0).unwrap().style, CellStyle::Summary);
    assert_eq!(t.cell(3, 0).unwrap().y, 237 * MM - 4 * 8 * MM - 5 * MM);
    assert_eq!(t.cell(4, 0).unwrap().y, 237 * MM - 5 * 8 * MM - 5 * MM);
    let lines: Vec<(i64, RuleTone)> = t.rules.iter().map(|r| (r.y / MM, r.tone)).collect();
    assert_eq!(
        lines,
        vec![
            (221, RuleTone::Accent),
            (213, RuleTone::Neutral),
            (205, RuleTone::Accent),
            (197, RuleTone::Accent),
            (189, RuleTone::Accent)
        ]
    );
}

#[test]
fn layout_page_rejects_a_schedule_of_the_wrong_length() {
    let data = vec![entry(1, 0, TransactionKind::Purchase, 1_000, 1_000)];
    let totals = aggregate(&data, Variant::CashFlow).unwrap();
    let page = PageLayout {
        page_index: 0,
        total_pages: 1,
        is_first: true,
        is_last: true,
        origin_y: 231 * MM,
        records: data.clone(),
        render_summary: true,
    };
    let wrong = PageGeometry::unit_fund();
    assert_eq!(
        layout_page(&page, &totals, &wrong).err(),
        Some(StatementError::ColumnScheduleMismatch)
    );
    let mut short = PageGeometry::money_market();
    short.column_schedule.pop();
    assert_eq!(
        layout_page(&page, &totals, &short).err(),
        Some(StatementError::ColumnScheduleMismatch)
    );
    let right = PageGeometry::money_market();
    let t = layout_page(&page, &totals, &right).unwrap();
    assert_eq!(t.cells.len(), 3 * 8);
    assert_eq!(t.cell(2, 0).unwrap().text, "Summations");
    assert_eq!(t.cell(2, 3).unwrap().text, "0.00");
    assert_eq!(t.cell(2, 7).unwrap().text, "1.00");
}

#[test]
fn layout_table_follows_the_geometry_it_is_given() {
    let data = vec![entry(1, 0, TransactionKind::Purchase, 1_000, 1_000)];
    let g = PageGeometry::dollar_fund();
    let t = layout_table(&g, &Aggregates::CashFlow(cash_sums()), &data, false, 224 * MM).unwrap();
    assert_eq!(t.cell(1, 3).unwrap().y, 224 * MM - 7 * MM - 5 * MM);
    assert_eq!(t.cell(1, 3).unwrap().x, 80 * MM);
    assert_eq!(t.rules.len(), 3);
    assert_eq!(t.rules[2].y, 224 * MM - 14 * MM);
}

#[test]
fn unit_fund_columns_are_coloured_by_group() {
    let dark = ColumnTone::Dark;
    let brown = ColumnTone::Brown;
    let blue = ColumnTone::Blue;
    assert_eq!(
        table_colors(),
        vec![dark, dark, dark, brown, brown, brown, blue, blue, blue, dark, dark]
    );
}
