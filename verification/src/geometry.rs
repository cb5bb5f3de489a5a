//! Page geometry: the lengths and capacities that a statement is laid out
//! with.  Every length is a whole number of micrometres.

use vstd::prelude::*;
use crate::aggregate::Variant;

verus! {

/// One millimetre.
pub const MM: i64 = 1000;

/// The largest magnitude of a length of a well-formed geometry: one kilometre.
pub const MAX_LENGTH: i64 = 1_000_000_000;

/// The largest number of rows on a page, and of columns in a schedule, of a
/// well-formed geometry.
pub const MAX_COUNT: usize = 1_000_000_000;

/// Whether `v` is a length that the layout arithmetic accepts.
pub open spec fn is_length(v: int) -> bool {
    -MAX_LENGTH <= v <= MAX_LENGTH
}

/// The number of columns of the table of a statement of kind `variant`.
pub open spec fn column_count(variant: Variant) -> nat {
    match variant {
        Variant::CashFlow => 8,
        Variant::UnitFund => 11,
    }
}

/// The widths of the first `k` columns together.
pub open spec fn width_before(widths: Seq<i64>, k: int) -> int
    decreases k,
{
    if k <= 0 {
        0
    } else {
        width_before(widths, k - 1) + widths[k - 1]
    }
}

/// The horizontal position of column `k`: the left origin, the widths of the
/// columns before it, and one padding for each of them.
pub open spec fn column_x(left: int, widths: Seq<i64>, padding: int, k: int) -> int {
    left + width_before(widths, k) + padding * k
}

/// The lengths that a table is laid out with.
pub ghost struct TableGeometry {
    /// Where the table starts on the left.
    pub left: int,
    /// The widths of the columns, left to right.
    pub widths: Seq<i64>,
    /// The padding of a cell.
    pub padding: int,
    /// The height of a row.
    pub row_height: int,
    /// The length of a ruled line.
    pub width: int,
}

impl TableGeometry {
    /// The horizontal position of column `k`.
    pub open spec fn x_of(self, k: int) -> int {
        column_x(self.left, self.widths, self.padding, k)
    }
}

/// The column widths of the cash-flow table.
pub open spec fn cash_flow_widths() -> Seq<i64> {
    seq![
        15_000i64,
        20_000i64,
        20_000i64,
        15_000i64,
        15_000i64,
        20_000i64,
        23_000i64,
        20_000i64,
    ]
}

/// The column widths of the unit-fund table.
pub open spec fn unit_fund_widths() -> Seq<i64> {
    seq![
        10_000i64,
        12_000i64,
        15_000i64,
        13_000i64,
        10_000i64,
        13_000i64,
        15_000i64,
        12_000i64,
        15_000i64,
        15_000i64,
        10_000i64,
    ]
}

/// The table geometry of money-market statements.
pub open spec fn money_market_table() -> TableGeometry {
    TableGeometry {
        left: 10_000,
        widths: cash_flow_widths(),
        padding: 5_000,
        row_height: 8_000,
        width: 190_000,
    }
}

/// The table geometry of dollar-fund statements.
pub open spec fn dollar_fund_table() -> TableGeometry {
    TableGeometry {
        left: 10_000,
        widths: cash_flow_widths(),
        padding: 5_000,
        row_height: 7_000,
        width: 190_000,
    }
}

/// The table geometry of unit-fund statements.
pub open spec fn unit_fund_table() -> TableGeometry {
    TableGeometry {
        left: 10_000,
        widths: unit_fund_widths(),
        padding: 5_000,
        row_height: 8_000,
        width: 190_000,
    }
}

/// The lengths and capacities of a statement's pages.
#[derive(Debug)]
pub struct PageGeometry {
    /// Width of the page.
    pub page_width: i64,
    /// Height of the page.
    pub page_height: i64,
    /// Margin above the content.
    pub margin_top: i64,
    /// Margin below the content.
    pub margin_bottom: i64,
    /// Margin left of the content.
    pub margin_left: i64,
    /// Margin right of the content.
    pub margin_right: i64,
    /// Records on the first page.
    pub first_page_capacity: usize,
    /// Records on every later page.
    pub later_page_capacity: usize,
    /// Height of a table row.
    pub row_height: i64,
    /// Padding of a table cell.
    pub cell_padding: i64,
    /// Widths of the table's columns, left to right.
    pub column_schedule: Vec<i64>,
    /// Where the table starts on the left.
    pub table_left_origin: i64,
    /// Where the table's header row stands on the first page.
    pub first_page_origin: i64,
    /// Where the table's header row stands on every later page.
    pub later_page_origin: i64,
}

impl PageGeometry {
    /// Whether the layout arithmetic accepts the geometry: every length is at
    /// most `MAX_LENGTH` in magnitude, and the capacities and the number of
    /// columns are at most `MAX_COUNT`.
    pub open spec fn wf(&self) -> bool {
        &&& is_length(self.page_width as int)
        &&& is_length(self.page_height as int)
        &&& is_length(self.margin_top as int)
        &&& is_length(self.margin_bottom as int)
        &&& is_length(self.margin_left as int)
        &&& is_length(self.margin_right as int)
        &&& is_length(self.row_height as int)
        &&& is_length(self.cell_padding as int)
        &&& is_length(self.table_left_origin as int)
        &&& is_length(self.first_page_origin as int)
        &&& is_length(self.later_page_origin as int)
        &&& self.first_page_capacity <= MAX_COUNT
        &&& self.later_page_capacity <= MAX_COUNT
        &&& self.column_schedule.len() <= MAX_COUNT
        &&& forall|k: int|
            0 <= k < self.column_schedule.len() ==> is_length(
                (#[trigger] self.column_schedule[k]) as int,
            )
    }

    /// The lengths that the table is laid out with.
    pub open spec fn table(&self) -> TableGeometry {
        TableGeometry {
            left: self.table_left_origin as int,
            widths: self.column_schedule@,
            padding: self.cell_padding as int,
            row_height: self.row_height as int,
            width: self.usable_width(),
        }
    }

    /// The horizontal position of column `k`.
    pub open spec fn x_of(&self, k: int) -> int {
        self.table().x_of(k)
    }

    /// The width between the left and the right margin.
    pub open spec fn usable_width(&self) -> int {
        self.page_width - self.margin_left - self.margin_right
    }

    /// The height between the top and the bottom margin.
    pub open spec fn usable_height(&self) -> int {
        self.page_height - self.margin_top - self.margin_bottom
    }

    /// Where the table's header row stands on page `p`.
    pub open spec fn origin_of(&self, p: int) -> int {
        if p == 0 {
            self.first_page_origin as int
        } else {
            self.later_page_origin as int
        }
    }

    /// Whether the geometry is well formed.
    pub fn is_well_formed(&self) -> (ok: bool)
        ensures
            ok == self.wf(),
    {
        if !(length_ok(self.page_width) && length_ok(self.page_height) && length_ok(
            self.margin_top,
        ) && length_ok(self.margin_bottom) && length_ok(self.margin_left) && length_ok(
            self.margin_right,
        ) && length_ok(self.row_height) && length_ok(self.cell_padding) && length_ok(
            self.table_left_origin,
        ) && length_ok(self.first_page_origin) && length_ok(self.later_page_origin)) {
            return false;
        }
        if self.first_page_capacity > MAX_COUNT || self.later_page_capacity > MAX_COUNT
            || self.column_schedule.len() > MAX_COUNT {
            return false;
        }
        let n: usize = self.column_schedule.len();
        let mut k: usize = 0;
        while k < n
            invariant
                n == self.column_schedule.len(),
                0 <= k <= n,
                forall|j: int| 0 <= j < k ==> is_length((#[trigger] self.column_schedule[j]) as int),
            decreases n - k,
        {
            if !length_ok(self.column_schedule[k]) {
                return false;
            }
            k = k + 1;
        }
        true
    }

    /// The width between the left and the right margin.
    pub fn usable_width_of(&self) -> (w: i64)
        requires
            self.wf(),
        ensures
            w == self.usable_width(),
    {
        self.page_width - self.margin_left - self.margin_right
    }

    /// The height between the top and the bottom margin.
    pub fn usable_height_of(&self) -> (h: i64)
        requires
            self.wf(),
        ensures
            h == self.usable_height(),
    {
        self.page_height - self.margin_top - self.margin_bottom
    }

    /// The horizontal position of column `k`: the table's left origin, plus
    /// the widths of the columns before `k`, plus the cell padding once for
    /// each of them.
    pub fn column_position(&self, k: usize) -> (x: i64)
        requires
            self.wf(),
            k <= self.column_schedule.len(),
        ensures
            x == self.x_of(k as int),
    {
        let mut sum: i64 = 0;
        let mut j: usize = 0;
        while j < k
            invariant
                self.wf(),
                k <= self.column_schedule.len(),
                0 <= j <= k,
                sum == width_before(self.column_schedule@, j as int),
                -(j * MAX_LENGTH) <= sum <= j * MAX_LENGTH,
            decreases k - j,
        {
            assert(is_length(self.column_schedule[j as int] as int));
            assert((j + 1) * MAX_LENGTH == j * MAX_LENGTH + MAX_LENGTH) by (nonlinear_arith);
            assert(j * MAX_LENGTH <= MAX_COUNT * MAX_LENGTH) by (nonlinear_arith)
                requires
                    j <= MAX_COUNT,
            ;
            sum = sum + self.column_schedule[j];
            j = j + 1;
        }
        assert(k * MAX_LENGTH <= MAX_COUNT * MAX_LENGTH) by (nonlinear_arith)
            requires
                k <= MAX_COUNT,
        ;
        assert(-(k * MAX_LENGTH) <= self.cell_padding * k <= k * MAX_LENGTH) by (nonlinear_arith)
            requires
                -MAX_LENGTH <= self.cell_padding <= MAX_LENGTH,
                k >= 0,
        ;
        let pad: i64 = self.cell_padding * (k as i64);
        self.table_left_origin + sum + pad
    }

    /// The horizontal positions of all columns, left to right.
    pub fn column_positions(&self) -> (xs: Vec<i64>)
        requires
            self.wf(),
        ensures
            xs.len() == self.column_schedule.len(),
            forall|k: int| 0 <= k < xs.len() ==> (#[trigger] xs[k]) == self.x_of(k),
    {
        let n: usize = self.column_schedule.len();
        let mut xs: Vec<i64> = Vec::new();
        let mut k: usize = 0;
        while k < n
            invariant
                self.wf(),
                n == self.column_schedule.len(),
                0 <= k <= n,
                xs.len() == k,
                forall|j: int| 0 <= j < k ==> (#[trigger] xs[j]) == self.x_of(j),
            decreases n - k,
        {
            let x: i64 = self.column_position(k);
            xs.push(x);
            k = k + 1;
        }
        xs
    }

    /// The pages of money-market statements: A4, margins of 10 mm, 26 records
    /// on the first page and 31 on every later one, rows of 8 mm, and the
    /// eight columns of the cash-flow table.
    pub fn money_market() -> (g: PageGeometry)
        ensures
            g.wf(),
            g.first_page_capacity == 26,
            g.later_page_capacity == 31,
            g.first_page_origin == 231 * MM,
            g.later_page_origin == 275 * MM,
            g.page_width == 210 * MM,
            g.page_height == 297 * MM,
            g.margin_top == 10 * MM,
            g.margin_bottom == 10 * MM,
            g.margin_left == 10 * MM,
            g.margin_right == 10 * MM,
            g.table() == money_market_table(),
    {
        let g = PageGeometry {
            page_width: 210_000,
            page_height: 297_000,
            margin_top: 10_000,
            margin_bottom: 10_000,
            margin_left: 10_000,
            margin_right: 10_000,
            first_page_capacity: 26,
            later_page_capacity: 31,
            row_height: 8_000,
            cell_padding: 5_000,
            column_schedule: vec![15_000, 20_000, 20_000, 15_000, 15_000, 20_000, 23_000, 20_000],
            table_left_origin: 10_000,
            first_page_origin: 231_000,
            later_page_origin: 275_000,
        };
        assert(g.column_schedule@ =~= cash_flow_widths());
        g
    }

    /// The pages of dollar-fund statements: the cash-flow table with 28
    /// records on the first page and 35 on every later one, and rows of 7 mm.
    pub fn dollar_fund() -> (g: PageGeometry)
        ensures
            g.wf(),
            g.first_page_capacity == 28,
            g.later_page_capacity == 35,
            g.first_page_origin == 224 * MM,
            g.later_page_origin == 272 * MM,
            g.page_width == 210 * MM,
            g.page_height == 297 * MM,
            g.margin_top == 10 * MM,
            g.margin_bottom == 10 * MM,
            g.margin_left == 10 * MM,
            g.margin_right == 10 * MM,
            g.table() == dollar_fund_table(),
    {
        let g = PageGeometry {
            page_width: 210_000,
            page_height: 297_000,
            margin_top: 10_000,
            margin_bottom: 10_000,
            margin_left: 10_000,
            margin_right: 10_000,
            first_page_capacity: 28,
            later_page_capacity: 35,
            row_height: 7_000,
            cell_padding: 5_000,
            column_schedule: vec![15_000, 20_000, 20_000, 15_000, 15_000, 20_000, 23_000, 20_000],
            table_left_origin: 10_000,
            first_page_origin: 224_000,
            later_page_origin: 272_000,
        };
        assert(g.column_schedule@ =~= cash_flow_widths());
        g
    }

    /// The pages of unit-fund statements: A4, margins of 10 mm, 26 records on
    /// the first page and 31 on every later one, rows of 8 mm, and the eleven
    /// columns of the unit-fund table.
    pub fn unit_fund() -> (g: PageGeometry)
        ensures
            g.wf(),
            g.first_page_capacity == 26,
            g.later_page_capacity == 31,
            g.first_page_origin == 221 * MM,
            g.later_page_origin == 259 * MM,
            g.page_width == 210 * MM,
            g.page_height == 297 * MM,
            g.margin_top == 10 * MM,
            g.margin_bottom == 10 * MM,
            g.margin_left == 10 * MM,
            g.margin_right == 10 * MM,
            g.table() == unit_fund_table(),
    {
        let g = PageGeometry {
            page_width: 210_000,
            page_height: 297_000,
            margin_top: 10_000,
            margin_bottom: 10_000,
            margin_left: 10_000,
            margin_right: 10_000,
            first_page_capacity: 26,
            later_page_capacity: 31,
            row_height: 8_000,
            cell_padding: 5_000,
            column_schedule: vec![
                10_000,
                12_000,
                15_000,
                13_000,
                10_000,
                13_000,
                15_000,
                12_000,
                15_000,
                15_000,
                10_000,
            ],
            table_left_origin: 10_000,
            first_page_origin: 221_000,
            later_page_origin: 259_000,
        };
        assert(g.column_schedule@ =~= unit_fund_widths());
        g
    }
}

/// Whether `v` is a length that the layout arithmetic accepts.
fn length_ok(v: i64) -> (ok: bool)
    ensures
        ok == is_length(v as int),
{
    -MAX_LENGTH <= v && v <= MAX_LENGTH
}

} // verus!
