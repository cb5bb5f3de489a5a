//! The table layout engine: where every cell and every ruled line of a page's
//! table stands.
//!
//! A table is a grid.  Its rows are numbered from the top: the titles (in the
//! unit-fund table a row of group names comes first), one row for each record
//! of the page, and on the last page the totals.  The row of titles stands at
//! the table's origin and every row below it one row height lower.

use vstd::prelude::*;
use crate::aggregate::{Aggregates, AggregatesView, BFSummation, Summation};
use crate::content::{
    cash_body_text_of,
    cash_summary_text_of,
    cash_title_of,
    cell_text,
    group_title_of,
    header_rows,
    summary_rows,
    unit_body_text_of,
    unit_summary_text_of,
    unit_title_of,
};
use crate::error::StatementError;
use crate::geometry::{
    column_count,
    is_length,
    money_market_table,
    unit_fund_table,
    PageGeometry,
    TableGeometry,
    MAX_COUNT,
    MAX_LENGTH,
};
use crate::transaction::{views, Transaction, TransactionView};

verus! {

/// How a cell is drawn.
#[derive(Clone, Copy, Debug, PartialEq, Eq, Structural)]
pub enum CellStyle {
    /// Titles and group names.
    Header,
    /// Records.
    Body,
    /// Totals.
    Summary,
}

/// The colour of a ruled line.
#[derive(Clone, Copy, Debug, PartialEq, Eq, Structural)]
pub enum RuleTone {
    /// The accent colour of titles and totals.
    Accent,
    /// The neutral grey between records.
    Neutral,
}

/// The colour of a column of the unit-fund table.
#[derive(Clone, Copy, Debug, PartialEq, Eq, Structural)]
pub enum ColumnTone {
    /// The record's own columns and the balance.
    Dark,
    /// The purchases.
    Brown,
    /// The sales.
    Blue,
}

/// The colour of column `c` of the unit-fund table: brown for the three
/// columns of purchases, blue for the three of sales, dark for the others.
pub open spec fn column_tone(c: int) -> ColumnTone {
    if 3 <= c < 6 {
        ColumnTone::Brown
    } else if 6 <= c < 9 {
        ColumnTone::Blue
    } else {
        ColumnTone::Dark
    }
}

/// The colours of the eleven columns of the unit-fund table, left to right.
pub fn table_colors() -> (tones: Vec<ColumnTone>)
    ensures
        tones.len() == 11,
        forall|c: int| 0 <= c < 11 ==> (#[trigger] tones[c]) == column_tone(c),
{
    let mut tones: Vec<ColumnTone> = Vec::new();
    let mut c: usize = 0;
    while c < 11
        invariant
            0 <= c <= 11,
            tones.len() == c,
            forall|k: int| 0 <= k < c ==> (#[trigger] tones[k]) == column_tone(k),
        decreases 11 - c,
    {
        let tone: ColumnTone = if 3 <= c && c < 6 {
            ColumnTone::Brown
        } else if 6 <= c && c < 9 {
            ColumnTone::Blue
        } else {
            ColumnTone::Dark
        };
        tones.push(tone);
        c = c + 1;
    }
    tones
}

/// One cell of a table: where it stands and what it says.
#[derive(Debug)]
pub struct CellDescriptor {
    /// Row of the grid, from the top.
    pub row: usize,
    /// Column of the grid, from the left.
    pub column: usize,
    /// Horizontal position of the text.
    pub x: i64,
    /// Vertical position of the text.
    pub y: i64,
    /// The text.
    pub text: String,
    /// How it is drawn.
    pub style: CellStyle,
}

/// A cell as the contracts see it.
pub ghost struct CellView {
    pub row: int,
    pub column: int,
    pub x: int,
    pub y: int,
    pub text: Seq<char>,
    pub style: CellStyle,
}

impl View for CellDescriptor {
    type V = CellView;

    open spec fn view(&self) -> CellView {
        CellView {
            row: self.row as int,
            column: self.column as int,
            x: self.x as int,
            y: self.y as int,
            text: self.text@,
            style: self.style,
        }
    }
}

/// A horizontal ruled line.
#[derive(Clone, Copy, Debug)]
pub struct RuleLine {
    /// Where it starts on the left.
    pub x_start: i64,
    /// Where it ends on the right.
    pub x_end: i64,
    /// Its height on the page.
    pub y: i64,
    /// Its colour.
    pub tone: RuleTone,
}

/// A ruled line as the contracts see it.
pub ghost struct RuleView {
    pub x_start: int,
    pub x_end: int,
    pub y: int,
    pub tone: RuleTone,
}

impl View for RuleLine {
    type V = RuleView;

    open spec fn view(&self) -> RuleView {
        RuleView {
            x_start: self.x_start as int,
            x_end: self.x_end as int,
            y: self.y as int,
            tone: self.tone,
        }
    }
}

/// The table of one page.
#[derive(Debug)]
pub struct TableLayout {
    /// The number of columns of the grid.
    pub columns: usize,
    /// The cells, row after row, each row from left to right.
    pub cells: Vec<CellDescriptor>,
    /// The ruled lines, from the top down.
    pub rules: Vec<RuleLine>,
}

/// A table as the contracts see it.
pub ghost struct TableView {
    pub columns: int,
    pub cells: Seq<CellView>,
    pub rules: Seq<RuleView>,
}

/// The views of the cells of `cells`, in order.
pub open spec fn cell_views(cells: Seq<CellDescriptor>) -> Seq<CellView> {
    cells.map_values(|c: CellDescriptor| c@)
}

/// The views of the ruled lines of `rules`, in order.
pub open spec fn rule_views(rules: Seq<RuleLine>) -> Seq<RuleView> {
    rules.map_values(|r: RuleLine| r@)
}

impl View for TableLayout {
    type V = TableView;

    open spec fn view(&self) -> TableView {
        TableView {
            columns: self.columns as int,
            cells: cell_views(self.cells@),
            rules: rule_views(self.rules@),
        }
    }
}

impl TableLayout {
    /// The cell in row `row` and column `column`, or `None` where the grid has
    /// no such cell.
    pub fn cell(&self, row: usize, column: usize) -> (r: Option<&CellDescriptor>)
        ensures
            r is Some <==> column < self.columns && row * self.columns + column < self.cells.len(),
            r matches Some(c) ==> *c == self.cells[row * self.columns + column],
    {
        if column >= self.columns {
            return None;
        }
        let n: usize = self.cells.len();
        if row >= n {
            assert(row * self.columns + column >= n) by (nonlinear_arith)
                requires
                    row >= n,
                    self.columns >= 1,
                    column >= 0,
            ;
            return None;
        }
        assert(0 <= row * self.columns <= 0xffff_ffff_ffff_ffff * 0xffff_ffff_ffff_ffff)
            by (nonlinear_arith)
            requires
                0 <= row <= 0xffff_ffff_ffff_ffff,
                0 <= self.columns <= 0xffff_ffff_ffff_ffff,
        ;
        let index: u128 = (row as u128) * (self.columns as u128) + (column as u128);
        if index >= n as u128 {
            return None;
        }
        Some(&self.cells[index as usize])
    }
}

/// One page of a statement, before its table is laid out.
#[derive(Debug)]
pub struct PageLayout {
    /// Number of the page, from zero.
    pub page_index: usize,
    /// Number of pages of the statement.
    pub total_pages: usize,
    /// Whether this is the first page.
    pub is_first: bool,
    /// Whether this is the last page.
    pub is_last: bool,
    /// Where the row of titles of the page's table stands.
    pub origin_y: i64,
    /// The records shown on the page.
    pub records: Vec<Transaction>,
    /// Whether the totals follow the records.
    pub render_summary: bool,
}

/// A page as the contracts see it.
pub ghost struct PageLayoutView {
    pub page_index: int,
    pub total_pages: int,
    pub is_first: bool,
    pub is_last: bool,
    pub origin_y: int,
    pub records: Seq<TransactionView>,
    pub render_summary: bool,
}

impl View for PageLayout {
    type V = PageLayoutView;

    open spec fn view(&self) -> PageLayoutView {
        PageLayoutView {
            page_index: self.page_index as int,
            total_pages: self.total_pages as int,
            is_first: self.is_first,
            is_last: self.is_last,
            origin_y: self.origin_y as int,
            records: views(self.records@),
            render_summary: self.render_summary,
        }
    }
}

/// The number of rows of a table with `n` records.
pub open spec fn row_count(totals: AggregatesView, n: int, summary: bool) -> int {
    header_rows(totals) + n + if summary {
        summary_rows(totals)
    } else {
        0
    }
}

/// How far below the table's origin row `r` stands, in rows: none for the
/// row of titles, one for the first record.
pub open spec fn rows_below_origin(totals: AggregatesView, r: int) -> int {
    r - (header_rows(totals) - 1)
}

/// The vertical position of the text of row `r`: the origin, lowered by one
/// row height for every row below the titles, and by the cell padding.
pub open spec fn row_y(g: TableGeometry, totals: AggregatesView, origin: int, r: int) -> int {
    origin - rows_below_origin(totals, r) * g.row_height - g.padding
}

/// How row `r` of a table with `n` records is drawn.
pub open spec fn row_style(totals: AggregatesView, n: int, r: int) -> CellStyle {
    if r < header_rows(totals) {
        CellStyle::Header
    } else if r < header_rows(totals) + n {
        CellStyle::Body
    } else {
        CellStyle::Summary
    }
}

/// The cell in row `r` and column `c` of the table of `records` and `totals`.
pub open spec fn cell_at(
    g: TableGeometry,
    totals: AggregatesView,
    records: Seq<TransactionView>,
    origin: int,
    r: int,
    c: int,
) -> CellView {
    CellView {
        row: r,
        column: c,
        x: g.x_of(c),
        y: row_y(g, totals, origin, r),
        text: cell_text(totals, records, r, c),
        style: row_style(totals, records.len() as int, r),
    }
}

/// The cells of row `r`, from left to right.
pub open spec fn row_cells(
    g: TableGeometry,
    totals: AggregatesView,
    records: Seq<TransactionView>,
    origin: int,
    r: int,
) -> Seq<CellView> {
    Seq::new(
        column_count(totals.variant()),
        |c: int| cell_at(g, totals, records, origin, r, c),
    )
}

/// The cells of the first `rows` rows, row after row.
pub open spec fn cells_of_rows(
    g: TableGeometry,
    totals: AggregatesView,
    records: Seq<TransactionView>,
    origin: int,
    rows: int,
) -> Seq<CellView>
    decreases rows,
{
    if rows <= 0 {
        Seq::<CellView>::empty()
    } else {
        cells_of_rows(g, totals, records, origin, rows - 1) + row_cells(
            g,
            totals,
            records,
            origin,
            rows - 1,
        )
    }
}

/// The grid in one sequence: the first `rows` rows hold `rows` times the
/// column count of cells, and the cell of row `r` and column `c` is the one at
/// `r` times the column count plus `c`.
pub proof fn lemma_cell_index(
    g: TableGeometry,
    totals: AggregatesView,
    records: Seq<TransactionView>,
    origin: int,
    rows: int,
    r: int,
    c: int,
)
    requires
        0 <= r < rows,
        0 <= c < column_count(totals.variant()),
    ensures
        cells_of_rows(g, totals, records, origin, rows).len() == rows * column_count(
            totals.variant(),
        ),
        0 <= r * column_count(totals.variant()) + c < rows * column_count(totals.variant()),
        cells_of_rows(g, totals, records, origin, rows)[r * column_count(totals.variant()) + c]
            == cell_at(g, totals, records, origin, r, c),
    decreases rows,
{
    let cols = column_count(totals.variant()) as int;
    lemma_cells_len(g, totals, records, origin, rows - 1);
    assert((rows - 1) * cols + cols == rows * cols) by (nonlinear_arith);
    if r == rows - 1 {
        assert(row_cells(g, totals, records, origin, r)[c] == cell_at(
            g,
            totals,
            records,
            origin,
            r,
            c,
        ));
    } else {
        lemma_cell_index(g, totals, records, origin, rows - 1, r, c);
        assert(r * cols + c < (rows - 1) * cols) by (nonlinear_arith)
            requires
                r < rows - 1,
                0 <= c < cols,
        ;
    }
    assert(0 <= r * cols + c) by (nonlinear_arith)
        requires
            0 <= r,
            0 <= c,
            cols >= 0,
    ;
    assert(r * cols + c < rows * cols) by (nonlinear_arith)
        requires
            r < rows,
            0 <= c < cols,
    ;
}

/// The first `rows` rows hold `rows` times the column count of cells.
proof fn lemma_cells_len(
    g: TableGeometry,
    totals: AggregatesView,
    records: Seq<TransactionView>,
    origin: int,
    rows: int,
)
    requires
        rows >= 0,
    ensures
        cells_of_rows(g, totals, records, origin, rows).len() == rows * column_count(
            totals.variant(),
        ),
    decreases rows,
{
    let cols = column_count(totals.variant()) as int;
    if rows > 0 {
        lemma_cells_len(g, totals, records, origin, rows - 1);
        assert((rows - 1) * cols + cols == rows * cols) by (nonlinear_arith);
    } else {
        assert(0 * cols == 0);
    }
}

/// The number of ruled lines of a table with `n` records: one above the
/// titles, one above each record, one below the last record, and one below
/// each row of the totals.
pub open spec fn rule_count(totals: AggregatesView, n: int, summary: bool) -> int {
    n + 2 + if summary {
        summary_rows(totals)
    } else {
        0
    }
}

/// Ruled line `k` of a table with `n` records, counted from the line above
/// the titles.  It spans the usable width of the page, `k` row heights below
/// the origin.  The line above the titles has the accent colour, and so have
/// the lines above and below the totals; the others are neutral.
pub open spec fn rule_at(g: TableGeometry, origin: int, n: int, summary: bool, k: int) -> RuleView {
    RuleView {
        x_start: g.left,
        x_end: g.left + g.width,
        y: origin - k * g.row_height,
        tone: if k == 0 || (summary && k > n) {
            RuleTone::Accent
        } else {
            RuleTone::Neutral
        },
    }
}

/// The table of the records `records` with its origin at `origin`, followed
/// by `totals` where `summary` holds.
pub open spec fn table_of(
    g: TableGeometry,
    totals: AggregatesView,
    records: Seq<TransactionView>,
    summary: bool,
    origin: int,
) -> TableView {
    TableView {
        columns: column_count(totals.variant()) as int,
        cells: cells_of_rows(
            g,
            totals,
            records,
            origin,
            row_count(totals, records.len() as int, summary),
        ),
        rules: Seq::new(
            rule_count(totals, records.len() as int, summary) as nat,
            |k: int| rule_at(g, origin, records.len() as int, summary, k),
        ),
    }
}

/// Whether `v` can be the origin of a table: at most four times `MAX_LENGTH`
/// in magnitude.
pub open spec fn is_origin(v: int) -> bool {
    -4 * MAX_LENGTH <= v <= 4 * MAX_LENGTH
}

/// The text of column `c` of row `r`.
fn cell_text_of(aggregates: &Aggregates, records: &Vec<Transaction>, r: usize, c: usize) -> (t:
    String)
    requires
        r < header_rows(aggregates@) + records.len() + summary_rows(aggregates@),
    ensures
        t@ == cell_text(aggregates@, views(records@), r as int, c as int),
{
    let n: usize = records.len();
    match aggregates {
        Aggregates::CashFlow(sums) => {
            if r == 0 {
                cash_title_of(c)
            } else if r <= n {
                cash_body_text_of(&records[r - 1], c)
            } else {
                cash_summary_text_of(sums, c)
            }
        },
        Aggregates::UnitFund(sums) => {
            if r == 0 {
                group_title_of(c)
            } else if r == 1 {
                unit_title_of(c)
            } else if r - 2 < n {
                unit_body_text_of(&records[r - 2], c)
            } else {
                unit_summary_text_of(sums, r - 2 - n, c)
            }
        },
    }
}

/// The number of rows above the records.
fn header_rows_of(aggregates: &Aggregates) -> (h: usize)
    ensures
        h == header_rows(aggregates@),
        h == summary_rows(aggregates@),
        1 <= h <= 2,
{
    match aggregates {
        Aggregates::CashFlow(_) => 1,
        Aggregates::UnitFund(_) => 2,
    }
}

/// The number of columns of the table.
fn column_count_of(aggregates: &Aggregates) -> (n: usize)
    ensures
        n == column_count(aggregates@.variant()),
{
    match aggregates {
        Aggregates::CashFlow(_) => 8,
        Aggregates::UnitFund(_) => 11,
    }
}

/// The vertical position of the text of row `r`.
fn row_y_of(g: &PageGeometry, aggregates: &Aggregates, origin: i64, r: usize) -> (y: i64)
    requires
        g.wf(),
        is_origin(origin as int),
        r <= MAX_COUNT + 4,
    ensures
        y == row_y(g.table(), aggregates@, origin as int, r as int),
{
    let above: i64 = (header_rows_of(aggregates) - 1) as i64;
    let below: i64 = r as i64 - above;
    assert(-5_000_000_000_000_000_000 <= below * g.row_height <= 5_000_000_000_000_000_000)
        by (nonlinear_arith)
        requires
            -1 <= below <= 1_000_000_004,
            -1_000_000_000 <= g.row_height <= 1_000_000_000,
    ;
    origin - below * g.row_height - g.cell_padding
}

/// How row `r` of a table with `n` records is drawn.
fn row_style_of(aggregates: &Aggregates, n: usize, r: usize) -> (s: CellStyle)
    requires
        n <= MAX_COUNT,
    ensures
        s == row_style(aggregates@, n as int, r as int),
{
    let h: usize = header_rows_of(aggregates);
    if r < h {
        CellStyle::Header
    } else if r - h < n {
        CellStyle::Body
    } else {
        CellStyle::Summary
    }
}

/// The cells of the table.
fn build_cells(
    g: &PageGeometry,
    aggregates: &Aggregates,
    records: &Vec<Transaction>,
    summary: bool,
    origin: i64,
) -> (cells: Vec<CellDescriptor>)
    requires
        g.wf(),
        is_origin(origin as int),
        records.len() <= MAX_COUNT,
        g.column_schedule.len() == column_count(aggregates@.variant()),
    ensures
        cell_views(cells@) == cells_of_rows(
            g.table(),
            aggregates@,
            views(records@),
            origin as int,
            row_count(aggregates@, records.len() as int, summary),
        ),
{
    let ghost totals = aggregates@;
    let ghost recs = views(records@);
    let n: usize = records.len();
    let h: usize = header_rows_of(aggregates);
    let cols: usize = column_count_of(aggregates);
    let rows: usize = if summary {
        h + n + h
    } else {
        h + n
    };
    let xs: Vec<i64> = g.column_positions();
    let mut cells: Vec<CellDescriptor> = Vec::new();
    let mut r: usize = 0;
    assert(cell_views(cells@) =~= cells_of_rows(g.table(), totals, recs, origin as int, 0));
    while r < rows
        invariant
            g.wf(),
            is_origin(origin as int),
            totals == aggregates@,
            recs == views(records@),
            n == records.len(),
            n <= MAX_COUNT,
            h == header_rows(totals),
            h == summary_rows(totals),
            1 <= h <= 2,
            cols == column_count(totals.variant()),
            cols == g.column_schedule.len(),
            rows == row_count(totals, n as int, summary),
            xs.len() == cols,
            forall|k: int| 0 <= k < xs.len() ==> (#[trigger] xs[k]) == g.x_of(k),
            0 <= r <= rows,
            cell_views(cells@) == cells_of_rows(g.table(), totals, recs, origin as int, r as int),
        decreases rows - r,
    {
        let y: i64 = row_y_of(g, aggregates, origin, r);
        let style: CellStyle = row_style_of(aggregates, n, r);
        let ghost before = cell_views(cells@);
        let ghost row = row_cells(g.table(), totals, recs, origin as int, r as int);
        let mut c: usize = 0;
        assert(cell_views(cells@) =~= before + row.take(0));
        while c < cols
            invariant
                totals == aggregates@,
                recs == views(records@),
                n == records.len(),
                h == header_rows(totals),
                h == summary_rows(totals),
                cols == column_count(totals.variant()),
                rows == row_count(totals, n as int, summary),
                xs.len() == cols,
                forall|k: int| 0 <= k < xs.len() ==> (#[trigger] xs[k]) == g.x_of(k),
                r < rows,
                0 <= c <= cols,
                y == row_y(g.table(), totals, origin as int, r as int),
                style == row_style(totals, n as int, r as int),
                row == row_cells(g.table(), totals, recs, origin as int, r as int),
                cell_views(cells@) == before + row.take(c as int),
            decreases cols - c,
        {
            let text: String = cell_text_of(aggregates, records, r, c);
            let cell = CellDescriptor { row: r, column: c, x: xs[c], y, text, style };
            assert(cell@ == row[c as int]);
            let ghost old_cells = cells@;
            cells.push(cell);
            assert(cell_views(cells@) =~= cell_views(old_cells).push(cell@));
            assert(row.take(c as int + 1) =~= row.take(c as int).push(row[c as int]));
            assert(before + row.take(c as int + 1) =~= (before + row.take(c as int)).push(
                row[c as int],
            ));
            c = c + 1;
        }
        assert(row.take(cols as int) =~= row);
        r = r + 1;
    }
    cells
}

/// The ruled lines of the table.
fn build_rules(g: &PageGeometry, aggregates: &Aggregates, n: usize, summary: bool, origin: i64) -> (
    rules: Vec<RuleLine>)
    requires
        g.wf(),
        is_origin(origin as int),
        n <= MAX_COUNT,
    ensures
        rule_views(rules@) == Seq::new(
            rule_count(aggregates@, n as int, summary) as nat,
            |k: int| rule_at(g.table(), origin as int, n as int, summary, k),
        ),
{
    let h: usize = header_rows_of(aggregates);
    let count: usize = if summary {
        n + 2 + h
    } else {
        n + 2
    };
    let x_start: i64 = g.table_left_origin;
    let x_end: i64 = g.table_left_origin + g.usable_width_of();
    let mut rules: Vec<RuleLine> = Vec::new();
    let mut k: usize = 0;
    while k < count
        invariant
            g.wf(),
            is_origin(origin as int),
            n <= MAX_COUNT,
            count == rule_count(aggregates@, n as int, summary),
            count <= MAX_COUNT + 4,
            x_start == g.table_left_origin,
            x_end == g.table_left_origin + g.usable_width(),
            0 <= k <= count,
            rules.len() == k,
            forall|j: int|
                0 <= j < k ==> (#[trigger] rules[j])@ == rule_at(
                    g.table(),
                    origin as int,
                    n as int,
                    summary,
                    j,
                ),
        decreases count - k,
    {
        assert(-5_000_000_000_000_000_000 <= k * g.row_height <= 5_000_000_000_000_000_000)
            by (nonlinear_arith)
            requires
                0 <= k <= 1_000_000_004,
                -1_000_000_000 <= g.row_height <= 1_000_000_000,
        ;
        let y: i64 = origin - (k as i64) * g.row_height;
        let tone: RuleTone = if k == 0 || (summary && k > n) {
            RuleTone::Accent
        } else {
            RuleTone::Neutral
        };
        rules.push(RuleLine { x_start, x_end, y, tone });
        k = k + 1;
    }
    assert(rule_views(rules@) =~= Seq::new(
        rule_count(aggregates@, n as int, summary) as nat,
        |k: int| rule_at(g.table(), origin as int, n as int, summary, k),
    ));
    rules
}

/// The table of `records` with its row of titles at `origin`, followed by the
/// totals where `summary` holds.
///
/// Fails with `ColumnScheduleMismatch` where the geometry's column schedule
/// does not have as many columns as the table of the totals' kind.
pub fn layout_table(
    g: &PageGeometry,
    aggregates: &Aggregates,
    records: &Vec<Transaction>,
    summary: bool,
    origin: i64,
) -> (r: Result<TableLayout, StatementError>)
    requires
        g.wf(),
        is_origin(origin as int),
        records.len() <= MAX_COUNT,
    ensures
        g.column_schedule.len() != column_count(aggregates@.variant()) ==> r is Err && r->Err_0
            == StatementError::ColumnScheduleMismatch,
        g.column_schedule.len() == column_count(aggregates@.variant()) ==> r is Ok,
        r matches Ok(t) ==> t@ == table_of(
            g.table(),
            aggregates@,
            views(records@),
            summary,
            origin as int,
        ),
{
    if g.column_schedule.len() != column_count_of(aggregates) {
        return Err(StatementError::ColumnScheduleMismatch);
    }
    let cells = build_cells(g, aggregates, records, summary, origin);
    let rules = build_rules(g, aggregates, records.len(), summary, origin);
    Ok(TableLayout { columns: column_count_of(aggregates), cells, rules })
}

/// The table of the page `page`: its records, with the row of titles at the
/// page's origin, and the totals where the page renders the summary.
///
/// Fails with `ColumnScheduleMismatch` where the geometry's column schedule
/// does not have as many columns as the table of the totals' kind.
pub fn layout_page(page: &PageLayout, aggregates: &Aggregates, geometry: &PageGeometry) -> (r:
    Result<TableLayout, StatementError>)
    requires
        geometry.wf(),
        is_length(page.origin_y as int),
        page.records.len() <= MAX_COUNT,
    ensures
        geometry.column_schedule.len() != column_count(aggregates@.variant()) ==> r is Err
            && r->Err_0 == StatementError::ColumnScheduleMismatch,
        geometry.column_schedule.len() == column_count(aggregates@.variant()) ==> r is Ok,
        r matches Ok(t) ==> t@ == table_of(
            geometry.table(),
            aggregates@,
            views(page.records@),
            page.render_summary,
            page.origin_y as int,
        ),
{
    layout_table(geometry, aggregates, &page.records, page.render_summary, page.origin_y)
}

/// The unit-fund table of `transactions` in the unit-fund geometry, with the
/// row of group names one row height below `top_pos`, the row of titles two,
/// and the totals `sums` below the records where `summations` holds.
pub fn gen_table(top_pos: i64, transactions: &Vec<Transaction>, summations: bool, sums: BFSummation)
    -> (t: TableLayout)
    requires
        is_length(top_pos as int),
        transactions.len() <= MAX_COUNT,
    ensures
        t@ == table_of(
            unit_fund_table(),
            AggregatesView::UnitFund(sums@),
            views(transactions@),
            summations,
            top_pos - 16_000,
        ),
{
    let g = PageGeometry::unit_fund();
    let aggregates = Aggregates::UnitFund(sums);
    match layout_table(&g, &aggregates, transactions, summations, top_pos - 16_000) {
        Ok(t) => t,
        Err(_) => vstd::pervasive::unreached(),
    }
}

/// The cash-flow table of `transactions` in the money-market geometry, with
/// the row of titles at `top_pos` and the totals `sums` below the records
/// where `summations` holds.
pub fn gen_table_mmf(
    top_pos: i64,
    transactions: &Vec<Transaction>,
    summations: bool,
    sums: Summation,
) -> (t: TableLayout)
    requires
        is_length(top_pos as int),
        transactions.len() <= MAX_COUNT,
    ensures
        t@ == table_of(
            money_market_table(),
            AggregatesView::CashFlow(sums@),
            views(transactions@),
            summations,
            top_pos as int,
        ),
{
    let g = PageGeometry::money_market();
    let aggregates = Aggregates::CashFlow(sums);
    match layout_table(&g, &aggregates, transactions, summations, top_pos) {
        Ok(t) => t,
        Err(_) => vstd::pervasive::unreached(),
    }
}

} // verus!
