//! Splitting the rows of a table over pages: each page repeats the header, and a row goes on
//! the current page when it still fits below the rows already there, else it starts a new page.
//!
//! Heights are of any unit; what is stated of fitting holds for units whose addition and
//! comparison follow vstd's specifications of `std::ops` and `std::cmp`.
use vstd::prelude::*;
use vstd::std_specs::ops::AddSpec;
use vstd::std_specs::cmp::PartialOrdSpec;
use core::ops::Add;
use core::cmp::Ordering;

verus! {

/// Whether `a` is at most `room`.
pub open spec fn within<U: PartialOrd>(a: U, room: U) -> bool {
    a.partial_cmp_spec(&room) matches Some(Ordering::Less | Ordering::Equal)
}

/// Whether comparing values of `U` follows vstd's specification of `PartialOrd`.
pub open spec fn ordered_by_spec<U: PartialOrd>() -> bool {
    U::obeys_partial_cmp_spec()
}

} // verus!

verus! {

/// The height of `hs` stacked below `base`.
pub open spec fn stacked<U: Add<Output = U>>(base: U, hs: Seq<U>) -> U
    decreases hs.len(),
{
    if hs.len() == 0 {
        base
    } else {
        stacked(base, hs.drop_last()).add_spec(hs.last())
    }
}

/// The height of row `i`.
pub open spec fn height_at<U>(hs: Seq<U>, i: usize) -> U {
    hs[i as int]
}

/// The heights of the given rows.
pub open spec fn heights_of<U>(hs: Seq<U>, rows: Seq<usize>) -> Seq<U> {
    rows.map_values(|i: usize| hs[i as int])
}

/// The pages as sequences of row indices.
pub open spec fn pages_view(r: Seq<Vec<usize>>) -> Seq<Seq<usize>> {
    r.map_values(|v: Vec<usize>| v@)
}

/// The number of rows on the pages before page `k`.
pub open spec fn page_start(ps: Seq<Seq<usize>>, k: int) -> int
    decreases k,
{
    if k <= 0 {
        0
    } else {
        page_start(ps, k - 1) + ps[k - 1].len()
    }
}

/// Whether the pages hold the rows in order: each page the rows that follow those of the
/// pages before it.
pub open spec fn consecutive(ps: Seq<Seq<usize>>) -> bool {
    forall|k: int, j: int| 0 <= k < ps.len() && 0 <= j < ps[k].len() ==> #[trigger] ps[k][j] == page_start(ps, k) + j
}

/// The height available on page `k`.
pub open spec fn room_of<U>(k: int, first: U, next: U) -> U {
    if k == 0 {
        first
    } else {
        next
    }
}

/// Whether every row, but the first row of a page after the first, fits below the header and
/// the rows before it on its page (the first `m` rows of a page, for each such row).
pub open spec fn rows_fit<U: Add<Output = U> + PartialOrd>(
    hs: Seq<U>,
    ps: Seq<Seq<usize>>,
    header: U,
    first: U,
    next: U,
) -> bool {
    forall|k: int, m: int|
        0 <= k < ps.len() && 1 <= m <= ps[k].len() && (k == 0 || m > 1) ==> within(
            stacked(header, heights_of(hs, #[trigger] ps[k].take(m))),
            room_of(k, first, next),
        )
}

/// Whether each page after the first holds rows, and starts with a row that did not fit on
/// the page before it.
pub open spec fn pages_full<U: Add<Output = U> + PartialOrd>(
    hs: Seq<U>,
    ps: Seq<Seq<usize>>,
    header: U,
    first: U,
    next: U,
) -> bool {
    forall|k: int|
        0 < k < ps.len() ==> (#[trigger] ps[k]).len() > 0 && !within(
            stacked(header, heights_of(hs, ps[k - 1])).add_spec(height_at(hs, ps[k][0])),
            room_of(k - 1, first, next),
        )
}

/// Whether `ps` splits the rows of heights `hs` over pages: at least one page; the rows in
/// order, each once; every page after the first holds rows; and, for units whose addition and
/// comparison follow vstd's specifications, each row but the first of a later page fits on its
/// page, and each later page starts with a row that did not fit on the page before.
pub open spec fn paginated<U: Add<Output = U> + PartialOrd>(
    hs: Seq<U>,
    ps: Seq<Seq<usize>>,
    header: U,
    first: U,
    next: U,
) -> bool {
    &&& ps.len() >= 1
    &&& consecutive(ps)
    &&& page_start(ps, ps.len() as int) == hs.len()
    &&& forall|k: int| 0 < k < ps.len() ==> (#[trigger] ps[k]).len() > 0
    &&& U::obeys_add_spec() && ordered_by_spec::<U>() ==> rows_fit(hs, ps, header, first, next)
        && pages_full(hs, ps, header, first, next)
}

/// The rows of a table, by index, split over pages. Page 0 has `first_available` of height,
/// each later page `next_available`; each page starts with the header. A row goes on the
/// current page when the header and the rows there with it still fit; otherwise a new page
/// starts with it, whether it fits there or not. Page 0 may be left without rows.
pub fn paginate_rows<U: Copy + Add<Output = U> + PartialOrd>(
    row_heights: &Vec<U>,
    header_height: U,
    first_available: U,
    next_available: U,
) -> (r: Vec<Vec<usize>>)
    requires
        forall|a: U, b: U| #[trigger] a.add_req(b),
    ensures
        paginated(row_heights@, pages_view(r@), header_height, first_available, next_available),
{
    let ghost hs = row_heights@;
    let mut pages: Vec<Vec<usize>> = Vec::new();
    pages.push(Vec::new());
    let mut used = header_height;
    let mut room = first_available;
    let mut i: usize = 0;
    proof {
        assert(pages_view(pages@) =~= seq![Seq::<usize>::empty()]);
        assert(heights_of(hs, Seq::<usize>::empty()) =~= Seq::<U>::empty());
        assert(page_start(pages_view(pages@), 1) == 0) by {
            reveal_with_fuel(page_start, 2);
        }
    }
    while i < row_heights.len()
        invariant
            forall|a: U, b: U| #[trigger] a.add_req(b),
            hs == row_heights@,
            i <= hs.len(),
            pages@.len() >= 1,
            consecutive(pages_view(pages@)),
            page_start(pages_view(pages@), pages@.len() as int) == i,
            forall|k: int| 0 < k < pages@.len() ==> (#[trigger] pages@[k])@.len() > 0,
            room == room_of(pages@.len() - 1, first_available, next_available),
            U::obeys_add_spec() ==> used == stacked(header_height, heights_of(hs, pages@.last()@)),
            U::obeys_add_spec() && ordered_by_spec::<U>() ==> rows_fit(
                hs,
                pages_view(pages@),
                header_height,
                first_available,
                next_available,
            ) && pages_full(hs, pages_view(pages@), header_height, first_available, next_available),
        decreases hs.len() - i,
    {
        let h = row_heights[i];
        let total = used + h;
        let ghost before = pages_view(pages@);
        let fits = total <= room;
        if !fits {
            pages.push(Vec::new());
            used = header_height;
            room = next_available;
            proof {
                let ps = pages_view(pages@);
                assert(ps =~= before.push(Seq::<usize>::empty()));
                assert(heights_of(hs, pages@.last()@) =~= Seq::<U>::empty());
                assert(page_start(ps, ps.len() - 1) == page_start(before, before.len() as int)) by {
                    lemma_page_start_prefix(ps, before, before.len() as int);
                }
            }
        }
        let ghost mid = pages_view(pages@);
        let ghost mid_used = used;
        let mut last = pages.pop().unwrap();
        let ghost last_before = last@;
        last.push(i);
        pages.push(last);
        used = used + h;
        proof {
            let ps = pages_view(pages@);
            let n = ps.len() as int;
            assert(ps =~= mid.drop_last().push(last_before.push(i)));
            assert(heights_of(hs, last_before.push(i)) =~= heights_of(hs, last_before).push(height_at(hs, i)));
            assert(heights_of(hs, last_before.push(i)).drop_last() =~= heights_of(hs, last_before));
            assert(mid.len() == n);
            assert(mid[n - 1] == last_before);
            assert(page_start(mid, n) == i) by {
                if mid.len() > before.len() {
                    assert(page_start(mid, n) == page_start(mid, n - 1) + mid[n - 1].len());
                } else {
                    assert(mid == before);
                }
            }
            assert(page_start(mid, n) == page_start(mid, n - 1) + last_before.len());
            lemma_page_start_prefix(ps, mid, n - 1);
            if U::obeys_add_spec() {
                assert(mid_used == stacked(header_height, heights_of(hs, last_before)));
                assert(heights_of(hs, last_before.push(i)).last() == height_at(hs, i));
                assert(used == stacked(header_height, heights_of(hs, pages@.last()@)));
            }
            assert forall|k: int, j: int| 0 <= k < ps.len() && 0 <= j < ps[k].len() implies #[trigger] ps[k][j]
                == page_start(ps, k) + j by {
                lemma_page_start_prefix(ps, mid, k);
                if k < n - 1 {
                    assert(ps[k] == mid[k]);
                    assert(mid[k] == before[k]);
                    lemma_page_start_prefix(ps, before, k);
                } else if j < last_before.len() {
                    assert(ps[k][j] == mid[k][j]);
                    assert(mid == before);
                } else {
                    assert(ps[k][j] == i);
                }
            }
            assert(page_start(ps, n) == page_start(ps, n - 1) + ps[n - 1].len());
            if U::obeys_add_spec() && ordered_by_spec::<U>() {
                assert forall|k: int, m: int|
                    0 <= k < ps.len() && 1 <= m <= ps[k].len() && (k == 0 || m > 1) implies within(
                    stacked(header_height, heights_of(hs, #[trigger] ps[k].take(m))),
                    room_of(k, first_available, next_available),
                ) by {
                    if k < n - 1 {
                        assert(ps[k] == mid[k]);
                    } else if m <= last_before.len() {
                        assert(ps[k].take(m) =~= mid[k].take(m));
                    } else {
                        assert(ps[k].take(m) =~= last_before.push(i));
                        assert(fits);
                    }
                }
                assert forall|k: int| 0 < k < ps.len() implies (#[trigger] ps[k]).len() > 0 && !within(
                    stacked(header_height, heights_of(hs, ps[k - 1])).add_spec(height_at(hs, ps[k][0])),
                    room_of(k - 1, first_available, next_available),
                ) by {
                    if k < n - 1 {
                        assert(ps[k] == mid[k] && ps[k - 1] == mid[k - 1]);
                        assert(mid[k] == before[k] && mid[k - 1] == before[k - 1]);
                    } else if last_before.len() > 0 {
                        assert(ps[k][0] == mid[k][0]);
                        assert(ps[k - 1] == mid[k - 1]);
                        if mid.len() > before.len() {
                            assert(false);
                        }
                        assert(mid[k] == before[k] && mid[k - 1] == before[k - 1]);
                    } else {
                        assert(mid.len() == before.len() + 1);
                        assert(ps[k - 1] == before[k - 1]);
                        assert(!fits);
                    }
                }
            }
        }
        i = i + 1;
    }
    pages
}

/// A page-start count depends only on the pages before it.
proof fn lemma_page_start_prefix(a: Seq<Seq<usize>>, b: Seq<Seq<usize>>, k: int)
    requires
        0 <= k <= a.len(),
        k <= b.len(),
        forall|j: int| 0 <= j < k ==> a[j] == b[j],
    ensures
        page_start(a, k) == page_start(b, k),
    decreases k,
{
    if k > 0 {
        lemma_page_start_prefix(a, b, k - 1);
    }
}

} // verus!
