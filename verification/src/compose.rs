//! The page composer: the pages of a whole statement, in order.

use vstd::prelude::*;
use crate::aggregate::{aggregate, totals_of, Aggregates, Variant};
use crate::error::StatementError;
use crate::geometry::{column_count, dollar_fund_table, PageGeometry, TableGeometry};
use crate::layout::{layout_page, table_of, PageLayout, PageLayoutView, TableLayout, TableView};
use crate::paginate::{is_last_page, page_count, page_end, page_start, plan, PagePlan};
use crate::transaction::{views, Transaction, TransactionView};

verus! {

/// A statement to lay out: its records, in the order of their dates, the kind
/// of statement, and the geometry of its pages.
#[derive(Debug)]
pub struct StatementContext {
    /// The records, oldest first.
    pub transactions: Vec<Transaction>,
    /// The kind of statement.
    pub variant: Variant,
    /// The geometry of the pages.
    pub geometry: PageGeometry,
}

/// What stands above the table of a page.  The renderer draws it.
#[derive(Clone, Copy, Debug, PartialEq, Eq, Structural)]
pub enum PageHeader {
    /// The statement's header block: the holder's details and the address.
    StatementBlock,
    /// The compact header of a later page, with the page's number.
    PageNumber,
}

/// What stands below the table of a page.  The renderer draws it.
#[derive(Clone, Copy, Debug, PartialEq, Eq, Structural)]
pub enum PageFooter {
    /// The paragraph of bank details, the same on every page.
    BankDetails,
}

/// One page of a statement, ready to be drawn: the page, what stands above
/// and below its table, and the table.
#[derive(Debug)]
pub struct PageRenderPlan {
    /// The page and its records.
    pub page: PageLayout,
    /// What stands above the table.
    pub header: PageHeader,
    /// What stands below the table.
    pub footer: PageFooter,
    /// The table.
    pub table: TableLayout,
}

/// A page ready to be drawn, as the contracts see it.
pub ghost struct PageRenderPlanView {
    pub page: PageLayoutView,
    pub header: PageHeader,
    pub footer: PageFooter,
    pub table: TableView,
}

impl View for PageRenderPlan {
    type V = PageRenderPlanView;

    open spec fn view(&self) -> PageRenderPlanView {
        PageRenderPlanView {
            page: self.page@,
            header: self.header,
            footer: self.footer,
            table: self.table@,
        }
    }
}

/// Where the row of titles stands on page `p`.
pub open spec fn origin_of(first_page_origin: int, later_page_origin: int, p: int) -> int {
    if p == 0 {
        first_page_origin
    } else {
        later_page_origin
    }
}

/// What is laid out: the records and the numbers that the pages depend on.
pub ghost struct StatementView {
    pub records: Seq<TransactionView>,
    pub variant: Variant,
    pub first_capacity: nat,
    pub later_capacity: nat,
    pub first_origin: int,
    pub later_origin: int,
    pub table: TableGeometry,
}

impl View for StatementContext {
    type V = StatementView;

    open spec fn view(&self) -> StatementView {
        statement_view(self.transactions@, self.variant, self.geometry)
    }
}

/// The statement of `transactions`, of kind `variant`, on pages of the
/// geometry `g`.
pub open spec fn statement_view(transactions: Seq<Transaction>, variant: Variant, g: PageGeometry)
    -> StatementView {
    StatementView {
        records: views(transactions),
        variant,
        first_capacity: g.first_page_capacity as nat,
        later_capacity: g.later_page_capacity as nat,
        first_origin: g.first_page_origin as int,
        later_origin: g.later_page_origin as int,
        table: g.table(),
    }
}

impl StatementView {
    /// Why the statement cannot be laid out, if it cannot: it has no record;
    /// or else a page capacity is zero; or else it is a unit-fund statement
    /// whose last record has no unit price; or else the column schedule does
    /// not have the column count of the statement's kind.
    pub open spec fn failure(self) -> Option<StatementError> {
        if self.records.len() == 0 {
            Some(StatementError::EmptyStatement)
        } else if self.first_capacity == 0 || self.later_capacity == 0 {
            Some(StatementError::InvalidCapacity)
        } else if self.variant == Variant::UnitFund && self.records.last().price is None {
            Some(StatementError::MissingUnitPrice)
        } else if self.table.widths.len() != column_count(self.variant) {
            Some(StatementError::ColumnScheduleMismatch)
        } else {
            None
        }
    }

    /// The number of pages.
    pub open spec fn pages(self) -> nat {
        page_count(self.records.len(), self.first_capacity, self.later_capacity)
    }

    /// The records of page `p`.
    pub open spec fn records_of(self, p: nat) -> Seq<TransactionView> {
        self.records.subrange(
            page_start(self.first_capacity, self.later_capacity, p) as int,
            page_end(self.records.len(), self.first_capacity, self.later_capacity, p) as int,
        )
    }

    /// Page `p`: its number, whether it is the first or the last, where its
    /// table stands, its records, and whether the totals follow them, which
    /// they do on the last page only.
    pub open spec fn page(self, p: nat) -> PageLayoutView {
        PageLayoutView {
            page_index: p as int,
            total_pages: self.pages() as int,
            is_first: p == 0,
            is_last: p + 1 == self.pages(),
            origin_y: origin_of(self.first_origin, self.later_origin, p as int),
            records: self.records_of(p),
            render_summary: is_last_page(
                self.records.len(),
                self.first_capacity,
                self.later_capacity,
                p,
            ),
        }
    }

    /// Page `p`, ready to be drawn: the first page under the statement's
    /// header block, every later one under its page number, each above the
    /// bank details, and the table of the page's records with the totals of
    /// the whole statement.
    pub open spec fn render_plan(self, p: nat) -> PageRenderPlanView {
        let page = self.page(p);
        PageRenderPlanView {
            page,
            header: if p == 0 {
                PageHeader::StatementBlock
            } else {
                PageHeader::PageNumber
            },
            footer: PageFooter::BankDetails,
            table: table_of(
                self.table,
                totals_of(self.records, self.variant),
                page.records,
                page.render_summary,
                page.origin_y,
            ),
        }
    }

    /// The records of the first `p` pages, one page after another.
    pub open spec fn records_before(self, p: nat) -> Seq<TransactionView>
        decreases p,
    {
        if p == 0 {
            Seq::<TransactionView>::empty()
        } else {
            self.records_before((p - 1) as nat) + self.records_of((p - 1) as nat)
        }
    }

    /// Whether `plans` are the pages of the statement, in order.
    pub open spec fn is_composed_as(self, plans: Seq<PageRenderPlan>) -> bool {
        &&& plans.len() == self.pages()
        &&& forall|p: int|
            0 <= p < plans.len() ==> (#[trigger] plans[p])@ == self.render_plan(p as nat)
    }
}

/// Copies of the `count` records of `transactions` from `start` on.
fn copy_records(transactions: &Vec<Transaction>, start: usize, count: usize) -> (out: Vec<
    Transaction,
>)
    requires
        start + count <= transactions.len(),
    ensures
        out@ == transactions@.subrange(start as int, start + count),
{
    let mut out: Vec<Transaction> = Vec::new();
    let mut i: usize = 0;
    while i < count
        invariant
            start + count <= transactions.len(),
            0 <= i <= count,
            out@ == transactions@.subrange(start as int, start + i),
        decreases count - i,
    {
        let t = transactions[start + i].clone();
        out.push(t);
        assert(out@ =~= transactions@.subrange(start as int, start + i + 1));
        i = i + 1;
    }
    out
}

/// The pages of the statement of `transactions`.
fn compose_pages(transactions: &Vec<Transaction>, variant: Variant, geometry: &PageGeometry) -> (r:
    Result<Vec<PageRenderPlan>, StatementError>)
    requires
        geometry.wf(),
    ensures
        match statement_view(transactions@, variant, *geometry).failure() {
            Some(e) => r is Err && r->Err_0 == e,
            None => r is Ok && statement_view(transactions@, variant, *geometry).is_composed_as(r->Ok_0@),
        },
{
    let ghost sv = statement_view(transactions@, variant, *geometry);
    let page_plan: PagePlan = match plan(
        transactions.len(),
        geometry.first_page_capacity,
        geometry.later_page_capacity,
    ) {
        Ok(p) => p,
        Err(e) => {
            return Err(e);
        },
    };
    let aggregates: Aggregates = match aggregate(transactions, variant) {
        Ok(a) => a,
        Err(e) => {
            return Err(e);
        },
    };
    let columns: usize = match variant {
        Variant::CashFlow => 8,
        Variant::UnitFund => 11,
    };
    if geometry.column_schedule.len() != columns {
        return Err(StatementError::ColumnScheduleMismatch);
    }
    assert(sv.failure() is None);
    let total_pages: usize = page_plan.total_pages();
    let mut plans: Vec<PageRenderPlan> = Vec::new();
    let mut p: usize = 0;
    while p < total_pages
        invariant
            geometry.wf(),
            sv == statement_view(transactions@, variant, *geometry),
            sv.failure() is None,
            page_plan.records() == transactions.len(),
            page_plan.first() == geometry.first_page_capacity,
            page_plan.later() == geometry.later_page_capacity,
            page_plan.pages() == sv.pages(),
            total_pages == sv.pages(),
            aggregates@ == totals_of(views(transactions@), variant),
            0 <= p <= total_pages,
            plans.len() == p,
            forall|q: int| 0 <= q < p ==> (#[trigger] plans[q])@ == sv.render_plan(q as nat),
        decreases total_pages - p,
    {
        let slice = match page_plan.slice_for(p) {
            Some(s) => s,
            None => vstd::pervasive::unreached(),
        };
        let records: Vec<Transaction> = copy_records(transactions, slice.start, slice.count);
        assert(views(records@) =~= sv.records_of(p as nat));
        let page = PageLayout {
            page_index: p,
            total_pages,
            is_first: p == 0,
            is_last: p + 1 == total_pages,
            origin_y: if p == 0 {
                geometry.first_page_origin
            } else {
                geometry.later_page_origin
            },
            records,
            render_summary: slice.render_summary,
        };
        assert(page@ == sv.page(p as nat));
        let table: TableLayout = match layout_page(&page, &aggregates, geometry) {
            Ok(t) => t,
            Err(_) => vstd::pervasive::unreached(),
        };
        let header: PageHeader = if p == 0 {
            PageHeader::StatementBlock
        } else {
            PageHeader::PageNumber
        };
        plans.push(PageRenderPlan { page, header, footer: PageFooter::BankDetails, table });
        p = p + 1;
    }
    Ok(plans)
}

/// The pages of a statement, in order.
///
/// The statement fails as a whole, for the first of these reasons that holds:
/// `EmptyStatement` where it has no record, `InvalidCapacity` where a page
/// capacity is zero, `MissingUnitPrice` where it is a unit-fund statement
/// whose last record has no unit price, `ColumnScheduleMismatch` where the
/// column schedule does not fit its kind.  Otherwise every page carries its
/// records and its table, and the last page the totals.
pub fn compose(context: &StatementContext) -> (r: Result<Vec<PageRenderPlan>, StatementError>)
    requires
        context.geometry.wf(),
    ensures
        match context@.failure() {
            Some(e) => r is Err && r->Err_0 == e,
            None => r is Ok && context@.is_composed_as(r->Ok_0@),
        },
{
    compose_pages(&context.transactions, context.variant, &context.geometry)
}

/// The pages of a statement of `data`: a money-market statement where `mmf`
/// holds, and otherwise a unit-fund statement, each on its own pages.
pub fn create_pdf(data: Vec<Transaction>, mmf: bool) -> (r: Result<
    Vec<PageRenderPlan>,
    StatementError,
>)
    ensures
        match built_in_statement(data@, mmf).failure() {
            Some(e) => r is Err && r->Err_0 == e,
            None => r is Ok && built_in_statement(data@, mmf).is_composed_as(r->Ok_0@),
        },
{
    if mmf {
        let g = PageGeometry::money_market();
        compose_pages(&data, Variant::CashFlow, &g)
    } else {
        let g = PageGeometry::unit_fund();
        compose_pages(&data, Variant::UnitFund, &g)
    }
}

/// The statement that `create_pdf` lays out.
pub open spec fn built_in_statement(data: Seq<Transaction>, mmf: bool) -> StatementView {
    if mmf {
        StatementView {
            records: views(data),
            variant: Variant::CashFlow,
            first_capacity: 26,
            later_capacity: 31,
            first_origin: 231_000,
            later_origin: 275_000,
            table: crate::geometry::money_market_table(),
        }
    } else {
        StatementView {
            records: views(data),
            variant: Variant::UnitFund,
            first_capacity: 26,
            later_capacity: 31,
            first_origin: 221_000,
            later_origin: 259_000,
            table: crate::geometry::unit_fund_table(),
        }
    }
}

/// The dollar-fund statement of `data`.
pub open spec fn dollar_fund_statement(data: Seq<Transaction>) -> StatementView {
    StatementView {
        records: views(data),
        variant: Variant::CashFlow,
        first_capacity: 28,
        later_capacity: 35,
        first_origin: 224_000,
        later_origin: 272_000,
        table: dollar_fund_table(),
    }
}

/// The pages of the dollar-fund statement of `data`: a cash-flow statement
/// with 28 records on the first page and 35 on every later one.
pub fn generate_pdf(data: Vec<Transaction>) -> (r: Result<Vec<PageRenderPlan>, StatementError>)
    ensures
        match dollar_fund_statement(data@).failure() {
            Some(e) => r is Err && r->Err_0 == e,
            None => r is Ok && dollar_fund_statement(data@).is_composed_as(r->Ok_0@),
        },
{
    let g = PageGeometry::dollar_fund();
    compose_pages(&data, Variant::CashFlow, &g)
}

/// The first `p` pages hold the records before the start of page `p`, or all
/// records where `p` is the number of pages.
proof fn lemma_records_before(sv: StatementView, p: nat)
    requires
        sv.records.len() > 0,
        sv.first_capacity > 0,
        sv.later_capacity > 0,
        p <= sv.pages(),
    ensures
        sv.records_before(p) == sv.records.take(
            if p == sv.pages() {
                sv.records.len() as int
            } else {
                page_start(sv.first_capacity, sv.later_capacity, p) as int
            },
        ),
    decreases p,
{
    let total = sv.records.len();
    crate::paginate::lemma_pages_partition(total, sv.first_capacity, sv.later_capacity);
    if p == 0 {
        assert(sv.records_before(p) =~= sv.records.take(0));
    } else {
        let q = (p - 1) as nat;
        lemma_records_before(sv, q);
        let start = page_start(sv.first_capacity, sv.later_capacity, q);
        let end = page_end(total, sv.first_capacity, sv.later_capacity, q);
        assert(start < end <= total);
        assert(sv.records.take(start as int) + sv.records.subrange(start as int, end as int)
            =~= sv.records.take(end as int));
    }
}

/// The pages of a statement that has a record and positive capacities hold,
/// one after another, the statement's records, each once and in order; and
/// the totals stand on exactly one page, the last.
pub proof fn lemma_pages_hold_the_statement(sv: StatementView)
    requires
        sv.records.len() > 0,
        sv.first_capacity > 0,
        sv.later_capacity > 0,
    ensures
        sv.records_before(sv.pages()) == sv.records,
        forall|p: nat| p < sv.pages() ==> (#[trigger] sv.page(p)).records.len() > 0,
        forall|p: nat|
            p < sv.pages() ==> ((#[trigger] sv.page(p)).render_summary <==> p + 1 == sv.pages()),
        forall|p: nat| p < sv.pages() ==> (#[trigger] sv.page(p)).render_summary == sv.page(p).is_last,
        sv.page((sv.pages() - 1) as nat).render_summary,
{
    let total = sv.records.len();
    lemma_records_before(sv, sv.pages());
    assert(sv.records.take(total as int) =~= sv.records);
    crate::paginate::lemma_pages_partition(total, sv.first_capacity, sv.later_capacity);
    crate::paginate::lemma_page_bounds(total, sv.first_capacity, sv.later_capacity, 0);
    assert forall|p: nat| p < sv.pages() implies (#[trigger] sv.page(p)).records.len() > 0 by {
        let start = page_start(sv.first_capacity, sv.later_capacity, p);
        let end = page_end(total, sv.first_capacity, sv.later_capacity, p);
        assert(start < end <= total);
    }
}

} // verus!
