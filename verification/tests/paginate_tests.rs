use statement_layout::error::StatementError;
use statement_layout::paginate::plan;

fn slices_of(total: usize, first: usize, later: usize) -> Vec<(usize, usize, bool)> {
    let p = plan(total, first, later).unwrap();
    let mut out = Vec::new();
    for i in 0..p.total_pages() {
        let s = p.slice_for(i).unwrap();
        out.push((s.start, s.count, s.render_summary));
    }
    out
}

#[test]
fn single_page_when_records_fit_the_first_page() {
    let p = plan(28, 28, 35).unwrap();
    assert_eq!(p.total_pages(), 1);
    assert_eq!(p.total_records(), 28);
    let s = p.slice_for(0).unwrap();
    assert_eq!((s.start, s.count, s.render_summary), (0, 28, true));
    assert!(p.slice_for(1).is_none());
}

#[test]
fn one_record_takes_one_page() {
    assert_eq!(slices_of(1, 28, 35), vec![(0, 1, true)]);
    assert_eq!(slices_of(1, 1, 1), vec![(0, 1, true)]);
}

#[test]
fn thirty_records_take_two_pages() {
    assert_eq!(slices_of(30, 28, 35), vec![(0, 28, false), (28, 2, true)]);
}

#[test]
fn page_count_is_one_plus_the_rounded_up_quotient() {
    let cases: [(usize, usize); 8] =
        [(1, 1), (28, 1), (29, 2), (63, 2), (64, 3), (98, 3), (99, 4), (1000, 29)];
    for (total, pages) in cases {
        assert_eq!(plan(total, 28, 35).unwrap().total_pages(), pages, "total {}", total);
    }
    assert_eq!(plan(26, 26, 31).unwrap().total_pages(), 1);
    assert_eq!(plan(27, 26, 31).unwrap().total_pages(), 2);
    assert_eq!(plan(57, 26, 31).unwrap().total_pages(), 2);
    assert_eq!(plan(58, 26, 31).unwrap().total_pages(), 3);
}

#[test]
fn page_count_is_the_least_that_holds_all_records() {
    for total in 1usize..200 {
        for first in 1usize..8 {
            for later in 1usize..8 {
                let pages = plan(total, first, later).unwrap().total_pages();
                if total <= first {
                    assert_eq!(pages, 1);
                } else {
                    assert!(first + (pages - 1) * later >= total);
                    assert!(first + (pages - 2) * later < total);
                }
            }
        }
    }
}

#[test]
fn slices_are_contiguous_and_cover_every_record_once() {
    for total in 1usize..120 {
        for first in 1usize..6 {
            for later in 1usize..6 {
                let slices = slices_of(total, first, later);
                let mut next = 0usize;
                for (start, count, _) in &slices {
                    assert_eq!(*start, next);
                    assert!(*count >= 1);
                    next = start + count;
                }
                assert_eq!(next, total);
            }
        }
    }
}

#[test]
fn later_pages_are_full_but_the_last() {
    let slices = slices_of(100, 28, 35);
    assert_eq!(slices, vec![(0, 28, false), (28, 35, false), (63, 35, false), (98, 2, true)]);
}

#[test]
fn only_the_last_page_renders_the_summary() {
    for total in 1usize..150 {
        let slices = slices_of(total, 26, 31);
        let with_summary = slices.iter().filter(|s| s.2).count();
        assert_eq!(with_summary, 1);
        assert!(slices.last().unwrap().2);
    }
}

#[test]
fn slice_past_the_last_page_is_none() {
    let p = plan(30, 28, 35).unwrap();
    assert!(p.slice_for(2).is_none());
    assert!(p.slice_for(usize::MAX).is_none());
}

#[test]
fn no_record_is_an_empty_statement() {
    assert_eq!(plan(0, 28, 35).err(), Some(StatementError::EmptyStatement));
    assert_eq!(plan(0, 0, 0).err(), Some(StatementError::EmptyStatement));
}

#[test]
fn zero_capacity_is_invalid() {
    assert_eq!(plan(5, 0, 35).err(), Some(StatementError::InvalidCapacity));
    assert_eq!(plan(5, 28, 0).err(), Some(StatementError::InvalidCapacity));
}

#[test]
fn largest_statement_is_planned() {
    let p = plan(usize::MAX, 1, 1).unwrap();
    assert_eq!(p.total_pages(), usize::MAX);
    let s = p.slice_for(usize::MAX - 1).unwrap();
    assert_eq!((s.start, s.count, s.render_summary), (usize::MAX - 1, 1, true));
    let q = plan(usize::MAX, usize::MAX, usize::MAX).unwrap();
    assert_eq!(q.total_pages(), 1);
}
