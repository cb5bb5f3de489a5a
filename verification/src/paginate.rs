//! The paginator: how many pages a statement takes and which records each
//! page carries.

use vstd::prelude::*;
use crate::error::StatementError;

verus! {

/// The quotient of `a` by `b`, rounded up.
pub open spec fn ceil_div(a: nat, b: nat) -> nat
    recommends
        b > 0,
{
    if a % b == 0 {
        a / b
    } else {
        a / b + 1
    }
}

/// The number of pages that `total` records take when the first page holds
/// `first` of them and every later page `later`.
pub open spec fn page_count(total: nat, first: nat, later: nat) -> nat
    recommends
        later > 0,
{
    if total <= first {
        1
    } else {
        1 + ceil_div((total - first) as nat, later)
    }
}

/// The offset of the first record of page `p`.
pub open spec fn page_start(first: nat, later: nat, p: nat) -> nat {
    if p == 0 {
        0
    } else {
        (first + (p - 1) * later) as nat
    }
}

/// One past the offset of the last record of page `p`: the page's nominal
/// end, clipped to the number of records.
pub open spec fn page_end(total: nat, first: nat, later: nat, p: nat) -> nat {
    let nominal = first + p * later;
    if nominal < total {
        nominal
    } else {
        total
    }
}

/// Whether record `i` stands on page `p`.
pub open spec fn on_page(total: nat, first: nat, later: nat, p: nat, i: nat) -> bool {
    page_start(first, later, p) <= i < page_end(total, first, later, p)
}

/// Whether page `p` is the last one, the page that carries the totals row.
pub open spec fn is_last_page(total: nat, first: nat, later: nat, p: nat) -> bool {
    p + 1 == page_count(total, first, later)
}

/// The page on which record `i` stands.
pub open spec fn page_of(first: nat, later: nat, i: nat) -> nat
    recommends
        later > 0,
{
    if i < first {
        0
    } else {
        1 + (i - first) as nat / later
    }
}

/// The records of one page, as a range of the statement, and whether the
/// totals row follows them.
#[derive(Clone, Copy, Debug, PartialEq, Eq, Structural)]
pub struct PageSlice {
    /// Offset of the page's first record.
    pub start: usize,
    /// Number of records on the page.
    pub count: usize,
    /// True on the last page only.
    pub render_summary: bool,
}

/// A pagination of a statement.
#[derive(Clone, Copy, Debug)]
pub struct PagePlan {
    total_records: usize,
    first_capacity: usize,
    later_capacity: usize,
    total_pages: usize,
}

impl PagePlan {
    #[verifier::type_invariant]
    spec fn inv(self) -> bool {
        &&& self.total_records >= 1
        &&& self.first_capacity >= 1
        &&& self.later_capacity >= 1
        &&& self.total_pages == page_count(
            self.total_records as nat,
            self.first_capacity as nat,
            self.later_capacity as nat,
        )
    }

    /// The number of records that were planned for.
    pub closed spec fn records(self) -> nat {
        self.total_records as nat
    }

    /// The capacity of the first page.
    pub closed spec fn first(self) -> nat {
        self.first_capacity as nat
    }

    /// The capacity of every later page.
    pub closed spec fn later(self) -> nat {
        self.later_capacity as nat
    }

    /// The number of pages.
    pub closed spec fn pages(self) -> nat {
        page_count(self.records(), self.first(), self.later())
    }

    /// The number of pages of the plan.
    pub fn total_pages(&self) -> (n: usize)
        ensures
            n == self.pages(),
            n >= 1,
    {
        proof {
            use_type_invariant(self);
        }
        self.total_pages
    }

    /// The number of records of the plan.
    pub fn total_records(&self) -> (n: usize)
        ensures
            n == self.records(),
            n >= 1,
    {
        proof {
            use_type_invariant(self);
        }
        self.total_records
    }

    /// The records of page `page_index`, or `None` where the plan has no such
    /// page.
    pub fn slice_for(&self, page_index: usize) -> (r: Option<PageSlice>)
        ensures
            r is Some <==> page_index < self.pages(),
            r matches Some(s) ==> {
                &&& s.start == page_start(self.first(), self.later(), page_index as nat)
                &&& s.start + s.count == page_end(
                    self.records(),
                    self.first(),
                    self.later(),
                    page_index as nat,
                )
                &&& s.count >= 1
                &&& s.count <= if page_index == 0 {
                    self.first()
                } else {
                    self.later()
                }
                &&& s.render_summary == is_last_page(
                    self.records(),
                    self.first(),
                    self.later(),
                    page_index as nat,
                )
            },
    {
        proof {
            use_type_invariant(self);
            lemma_page_bounds(
                self.total_records as nat,
                self.first_capacity as nat,
                self.later_capacity as nat,
                page_index as nat,
            );
        }
        if page_index >= self.total_pages {
            return None;
        }
        let last: bool = page_index + 1 == self.total_pages;
        if page_index == 0 {
            let count: usize = if self.total_records <= self.first_capacity {
                self.total_records
            } else {
                self.first_capacity
            };
            return Some(PageSlice { start: 0, count, render_summary: last });
        }
        let before: usize = page_index - 1;
        assert(before * self.later_capacity == (page_index - 1) * self.later_capacity);
        let start: usize = self.first_capacity + before * self.later_capacity;
        let rest: usize = self.total_records - start;
        let count: usize = if rest <= self.later_capacity {
            rest
        } else {
            self.later_capacity
        };
        assert(self.first_capacity + page_index * self.later_capacity == start
            + self.later_capacity) by (nonlinear_arith)
            requires
                start == self.first_capacity + (page_index - 1) * self.later_capacity,
        ;
        Some(PageSlice { start, count, render_summary: last })
    }
}

/// Plans the pages of a statement of `total_records` records.
///
/// Fails with `EmptyStatement` where there is no record, and otherwise with
/// `InvalidCapacity` where a capacity is zero.
pub fn plan(total_records: usize, first_page_capacity: usize, later_page_capacity: usize) -> (r:
    Result<PagePlan, StatementError>)
    ensures
        total_records == 0 ==> r == Err::<PagePlan, StatementError>(StatementError::EmptyStatement),
        total_records > 0 && (first_page_capacity == 0 || later_page_capacity == 0) ==> r == Err::<
            PagePlan,
            StatementError,
        >(StatementError::InvalidCapacity),
        total_records > 0 && first_page_capacity > 0 && later_page_capacity > 0 ==> r is Ok,
        r matches Ok(p) ==> {
            &&& p.records() == total_records
            &&& p.first() == first_page_capacity
            &&& p.later() == later_page_capacity
            &&& p.pages() == page_count(
                total_records as nat,
                first_page_capacity as nat,
                later_page_capacity as nat,
            )
        },
{
    if total_records == 0 {
        return Err(StatementError::EmptyStatement);
    }
    if first_page_capacity == 0 || later_page_capacity == 0 {
        return Err(StatementError::InvalidCapacity);
    }
    let total_pages: usize = if total_records <= first_page_capacity {
        1
    } else {
        let rest: usize = total_records - first_page_capacity;
        proof {
            lemma_ceil_div(rest as nat, later_page_capacity as nat);
        }
        (rest - 1) / later_page_capacity + 2
    };
    Ok(
        PagePlan {
            total_records,
            first_capacity: first_page_capacity,
            later_capacity: later_page_capacity,
            total_pages,
        },
    )
}

/// For positive `a` and `b`, the rounded-up quotient is one more than the
/// quotient of `a - 1`, and it is the least `k` with `k * b >= a`.
pub proof fn lemma_ceil_div(a: nat, b: nat)
    requires
        a >= 1,
        b >= 1,
    ensures
        ceil_div(a, b) == (a - 1) / (b as int) + 1,
        1 <= ceil_div(a, b) <= a,
        ceil_div(a, b) * b >= a,
        (ceil_div(a, b) - 1) * b < a,
{
    let q = a / b;
    let r = a % b;
    vstd::arithmetic::div_mod::lemma_fundamental_div_mod(a as int, b as int);
    vstd::arithmetic::div_mod::lemma_mod_bound(a as int, b as int);
    assert(q >= 0) by {
        vstd::arithmetic::div_mod::lemma_div_pos_is_pos(a as int, b as int);
    }
    if r == 0 {
        assert(q >= 1) by (nonlinear_arith)
            requires
                a == b * q + r,
                r == 0,
                a >= 1,
                q >= 0,
        ;
        assert(a - 1 == (q - 1) * b + (b - 1)) by (nonlinear_arith)
            requires
                a == b * q + r,
                r == 0,
        ;
        vstd::arithmetic::div_mod::lemma_fundamental_div_mod_converse(
            a - 1,
            b as int,
            q - 1,
            b - 1,
        );
        assert(q * b >= a && (q - 1) * b < a && q <= a) by (nonlinear_arith)
            requires
                a == b * q + r,
                r == 0,
                b >= 1,
                q >= 1,
        ;
    } else {
        assert(a - 1 == q * b + (r - 1)) by (nonlinear_arith)
            requires
                a == b * q + r,
        ;
        vstd::arithmetic::div_mod::lemma_fundamental_div_mod_converse(
            a - 1,
            b as int,
            q as int,
            r - 1,
        );
        assert((q + 1) * b >= a && q * b < a && q + 1 <= a) by (nonlinear_arith)
            requires
                a == b * q + r,
                0 < r < b,
                b >= 1,
                q >= 0,
        ;
    }
}

/// Where a page lies among the records: every page of a plan starts inside
/// the statement, and a page index at or past the page count starts outside it.
pub proof fn lemma_page_bounds(total: nat, first: nat, later: nat, p: nat)
    requires
        total >= 1,
        first >= 1,
        later >= 1,
    ensures
        1 <= page_count(total, first, later) <= total,
        p < page_count(total, first, later) ==> page_start(first, later, p) < total,
        p >= page_count(total, first, later) ==> first + (p - 1) * later >= total,
        p + 1 == page_count(total, first, later) <==> page_start(first, later, p) < total <= first
            + p * later,
{
    let n = page_count(total, first, later);
    if total <= first {
        assert(p >= 1 ==> first + (p - 1) * later >= total) by (nonlinear_arith)
            requires
                total <= first,
                later >= 1,
        ;
        assert(p >= 1 ==> first + p * later >= total) by (nonlinear_arith)
            requires
                total <= first,
                later >= 1,
        ;
    } else {
        let d = (total - first) as nat;
        let c = ceil_div(d, later);
        lemma_ceil_div(d, later);
        assert(n == 1 + c);
        // c * later >= d and (c - 1) * later < d
        if p < n {
            assert(p >= 1 ==> (p - 1) * later < d) by (nonlinear_arith)
                requires
                    p - 1 <= c - 1,
                    (c - 1) * later < d,
                    later >= 1,
            ;
        }
        if p >= n {
            assert((p - 1) * later >= d) by (nonlinear_arith)
                requires
                    p - 1 >= c,
                    c * later >= d,
                    later >= 1,
            ;
        }
        if p + 1 == n {
            assert(p * later >= d) by (nonlinear_arith)
                requires
                    p == c,
                    c * later >= d,
            ;
        }
        if p + 1 < n {
            assert(p * later < d) by (nonlinear_arith)
                requires
                    p <= c - 1,
                    (c - 1) * later < d,
                    later >= 1,
            ;
        }
        if p + 1 > n {
            assert(p >= 1 && (p - 1) * later >= d) by (nonlinear_arith)
                requires
                    p - 1 >= c,
                    c >= 1,
                    c * later >= d,
                    later >= 1,
            ;
        }
    }
}

/// The pages partition the statement: page 0 starts at record 0, every page
/// but the last ends where the next one starts, the last page ends at the
/// last record, no page is empty, and every record stands on the page
/// `page_of` names and on no other.
pub proof fn lemma_pages_partition(total: nat, first: nat, later: nat)
    requires
        total >= 1,
        first >= 1,
        later >= 1,
    ensures
        page_start(first, later, 0) == 0,
        forall|p: nat|
            p + 1 < page_count(total, first, later) ==> #[trigger] page_end(total, first, later, p)
                == page_start(first, later, p + 1),
        page_end(total, first, later, (page_count(total, first, later) - 1) as nat) == total,
        forall|p: nat|
            p < page_count(total, first, later) ==> #[trigger] page_start(first, later, p)
                < page_end(total, first, later, p),
        forall|i: nat|
            i < total ==> #[trigger] page_of(first, later, i) < page_count(total, first, later)
                && on_page(total, first, later, page_of(first, later, i), i),
        forall|p: nat, i: nat| #[trigger]
            on_page(total, first, later, p, i) ==> i < total && p == page_of(first, later, i),
{
    let n = page_count(total, first, later);
    assert forall|p: nat| p + 1 < n implies #[trigger] page_end(total, first, later, p)
        == page_start(first, later, p + 1) by {
        lemma_page_bounds(total, first, later, p + 1);
        assert((p + 1 - 1) * later == p * later);
    }
    assert(page_end(total, first, later, (n - 1) as nat) == total) by {
        lemma_page_bounds(total, first, later, (n - 1) as nat);
    }
    assert forall|p: nat| p < n implies #[trigger] page_start(first, later, p) < page_end(
        total,
        first,
        later,
        p,
    ) by {
        lemma_page_bounds(total, first, later, p);
        assert(p >= 1 ==> (p - 1) * later < p * later) by (nonlinear_arith)
            requires
                later >= 1,
        ;
    }
    assert forall|p: nat, i: nat| #[trigger] on_page(total, first, later, p, i) implies i < total
        && p == page_of(first, later, i) by {
        lemma_page_of(first, later, p, i);
    }
    assert forall|i: nat| i < total implies #[trigger] page_of(first, later, i) < n && on_page(
        total,
        first,
        later,
        page_of(first, later, i),
        i,
    ) by {
        let p = page_of(first, later, i);
        lemma_page_of_covers(first, later, i);
        lemma_page_bounds(total, first, later, p);
    }
}

/// A record between the start and the nominal end of page `p` has `p` as its
/// page.
proof fn lemma_page_of(first: nat, later: nat, p: nat, i: nat)
    requires
        first >= 1,
        later >= 1,
        page_start(first, later, p) <= i < first + p * later,
    ensures
        p == page_of(first, later, i),
{
    if p >= 1 {
        assert(i >= first) by (nonlinear_arith)
            requires
                i >= first + (p - 1) * later,
                p >= 1,
                later >= 1,
        ;
        let d = (i - first) as nat;
        let r = d - (p - 1) * later;
        assert(0 <= r < later) by (nonlinear_arith)
            requires
                r == d - (p - 1) * later,
                first + (p - 1) * later <= i,
                i < first + p * later,
                d == i - first,
        ;
        vstd::arithmetic::div_mod::lemma_fundamental_div_mod_converse(
            d as int,
            later as int,
            p - 1,
            r,
        );
    }
}

/// Every record lies between the start and the nominal end of its page.
proof fn lemma_page_of_covers(first: nat, later: nat, i: nat)
    requires
        first >= 1,
        later >= 1,
    ensures
        page_start(first, later, page_of(first, later, i)) <= i < first + page_of(first, later, i)
            * later,
{
    if i >= first {
        let d = (i - first) as nat;
        let q = d / later;
        vstd::arithmetic::div_mod::lemma_fundamental_div_mod(d as int, later as int);
        vstd::arithmetic::div_mod::lemma_mod_bound(d as int, later as int);
        vstd::arithmetic::div_mod::lemma_div_pos_is_pos(d as int, later as int);
        assert(first + q * later <= i < first + (1 + q) * later) by (nonlinear_arith)
            requires
                d == later * q + d % later,
                0 <= d % later < later,
                d == i - first,
        ;
        assert((1 + q - 1) * later == q * later);
    }
}

/// The page count is the least number of pages whose capacities together
/// reach the number of records: one page where the first page holds them all,
/// and otherwise the least `k` with `first + (k - 1) * later >= total`.
pub proof fn lemma_page_count_minimal(total: nat, first: nat, later: nat)
    requires
        total >= 1,
        first >= 1,
        later >= 1,
    ensures
        total <= first ==> page_count(total, first, later) == 1,
        first + (page_count(total, first, later) - 1) * later >= total,
        total > first ==> forall|k: int|
            first + #[trigger] ((k - 1) * later) >= total ==> k >= page_count(total, first, later),
{
    let n = page_count(total, first, later);
    lemma_page_bounds(total, first, later, (n - 1) as nat);
    if total > first {
        let d = (total - first) as nat;
        lemma_ceil_div(d, later);
        assert forall|k: int| first + #[trigger] ((k - 1) * later) >= total implies k >= n by {
            if k < n {
                assert((k - 1) * later <= (n - 2) * later) by (nonlinear_arith)
                    requires
                        k - 1 <= n - 2,
                        later >= 1,
                ;
            }
        }
    }
}

/// Exactly one page carries the totals row, and it is the last page.
pub proof fn lemma_one_summary_page(total: nat, first: nat, later: nat)
    requires
        total >= 1,
        first >= 1,
        later >= 1,
    ensures
        is_last_page(total, first, later, (page_count(total, first, later) - 1) as nat),
        forall|p: nat| #[trigger]
            is_last_page(total, first, later, p) ==> p == page_count(total, first, later) - 1,
        forall|p: nat| #[trigger]
            is_last_page(total, first, later, p) <==> p < page_count(total, first, later)
                && page_end(total, first, later, p) == total && page_start(first, later, p)
                < total,
{
    assert forall|p: nat| #[trigger]
        is_last_page(total, first, later, p) <==> p < page_count(total, first, later) && page_end(
            total,
            first,
            later,
            p,
        ) == total && page_start(first, later, p) < total by {
        lemma_page_bounds(total, first, later, p);
    }
}

} // verus!
