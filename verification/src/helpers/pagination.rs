//! Page parameters, page metadata and the window of page links shown to the user.

use vstd::prelude::*;

verus! {

/// The page asked for: pages count from 1.
#[derive(Clone, Copy, Debug)]
pub struct PageParams {
    pub page: u64,
    pub per_page: u64,
}

/// Where a page stands in the whole listing.
#[derive(Clone, Copy, Debug)]
pub struct PaginationMeta {
    /// The number of rows in the whole listing.
    pub total: u64,
    pub per_page: u64,
    /// The page shown, between 1 and `total_pages`.
    pub page: u64,
    /// The number of pages; an empty listing still has one (empty) page.
    pub total_pages: u64,
}

/// The page requested, where a missing or zero page means the first.
pub open spec fn requested_page(page: Option<u64>) -> u64 {
    match page {
        Some(p) => if p >= 1 { p } else { 1 },
        None => 1,
    }
}

/// The page size requested, where a missing or zero size means the default.
pub open spec fn requested_per_page(per_page: Option<u64>, default_per_page: u64) -> u64 {
    match per_page {
        Some(n) => if n >= 1 { n } else { default_per_page },
        None => default_per_page,
    }
}

/// The number of pages that `total` rows fill, `per_page` at a time (at least one).
pub open spec fn total_pages_spec(total: int, per_page: int) -> int {
    if total == 0 {
        1
    } else {
        (total - 1) / per_page + 1
    }
}

/// The page numbers from `lo` to `hi`, both included, as links.
pub open spec fn page_run(lo: int, hi: int) -> Seq<Option<u64>> {
    if lo <= hi {
        Seq::new((hi - lo + 1) as nat, |i: int| Some((lo + i) as u64))
    } else {
        Seq::empty()
    }
}

/// The lowest page shown around the current one (the first page is always shown apart).
pub open spec fn window_lo(current: int) -> int {
    if current - 2 > 2 {
        current - 2
    } else {
        2
    }
}

/// The highest page shown around the current one (the last page is always shown apart).
pub open spec fn window_hi(current: int, total_pages: int) -> int {
    if current + 2 < total_pages - 1 {
        current + 2
    } else {
        total_pages - 1
    }
}

/// The page links: the first page, the pages within two of the current one, and the last
/// page, in increasing order, with a gap (`None`) wherever pages are skipped.
pub open spec fn window_spec(current: int, total_pages: int) -> Seq<Option<u64>> {
    if total_pages <= 1 {
        seq![Some(1u64)]
    } else {
        let lo = window_lo(current);
        let hi = window_hi(current, total_pages);
        seq![Some(1u64)] + (if lo > 2 { seq![None] } else { Seq::empty() }) + page_run(lo, hi) + (
        if hi < total_pages - 1 {
            seq![None]
        } else {
            Seq::empty()
        }) + seq![Some(total_pages as u64)]
    }
}

impl PageParams {
    /// The page parameters of a request.
    pub fn new(page: Option<u64>, per_page: Option<u64>, default_per_page: u64) -> (r: PageParams)
        requires
            default_per_page >= 1,
        ensures
            r.page == requested_page(page),
            r.per_page == requested_per_page(per_page, default_per_page),
            r.page >= 1,
            r.per_page >= 1,
    {
        let p: u64 = match page {
            Some(p) => if p >= 1 { p } else { 1 },
            None => 1,
        };
        let n: u64 = match per_page {
            Some(n) => if n >= 1 { n } else { default_per_page },
            None => default_per_page,
        };
        PageParams { page: p, per_page: n }
    }
}

impl PaginationMeta {
    /// The metadata of the page asked for by `params` in a listing of `total` rows; a page
    /// past the end is brought back to the last page.
    pub fn new(total: u64, params: PageParams) -> (m: PaginationMeta)
        requires
            params.per_page >= 1,
            params.page >= 1,
        ensures
            m.total == total,
            m.per_page == params.per_page,
            m.total_pages == total_pages_spec(total as int, params.per_page as int),
            m.page == (if params.page <= m.total_pages { params.page } else { m.total_pages }),
            1 <= m.page <= m.total_pages,
    {
        let total_pages: u64 = if total == 0 {
            1
        } else {
            (total - 1) / params.per_page + 1
        };
        let page: u64 = if params.page <= total_pages {
            params.page
        } else {
            total_pages
        };
        PaginationMeta { total, per_page: params.per_page, page, total_pages }
    }
}

/// The page links to show around `current` in a listing of `total_pages` pages.
pub fn page_window(current: u64, total_pages: u64) -> (w: Vec<Option<u64>>)
    requires
        1 <= current <= total_pages,
    ensures
        w@ == window_spec(current as int, total_pages as int),
{
    let mut w: Vec<Option<u64>> = Vec::new();
    w.push(Some(1));
    if total_pages <= 1 {
        return w;
    }
    let lo: u64 = if current > 4 {
        current - 2
    } else {
        2
    };
    let hi: u64 = if total_pages >= 3 && current < total_pages - 3 {
        current + 2
    } else {
        total_pages - 1
    };
    assert(lo == window_lo(current as int));
    assert(hi == window_hi(current as int, total_pages as int));
    if lo > 2 {
        w.push(None);
    }
    let ghost prefix = w@;
    let mut p: u64 = lo;
    while p <= hi
        invariant
            lo <= p,
            p <= hi + 1,
            hi < total_pages,
            lo >= 2,
            w@ == prefix + page_run(lo as int, p as int - 1),
        decreases hi + 1 - p,
    {
        w.push(Some(p));
        assert(page_run(lo as int, p as int) =~= page_run(lo as int, p as int - 1).push(Some(p)));
        p = p + 1;
    }
    if hi < total_pages - 1 {
        w.push(None);
    }
    w.push(Some(total_pages));
    assert(w@ =~= window_spec(current as int, total_pages as int));
    w
}

/// The window always links the first page, the current page and the last page, never shows
/// two gaps side by side, and lists its pages in strictly increasing order.
pub proof fn lemma_window_shape(current: int, total_pages: int)
    requires
        1 <= current <= total_pages <= u64::MAX,
    ensures
        ({
            let w = window_spec(current, total_pages);
            &&& w.contains(Some(1u64))
            &&& w.contains(Some(current as u64))
            &&& w.contains(Some(total_pages as u64))
            &&& w[0] == Some(1u64)
            &&& w.last() == Some(total_pages as u64)
            &&& forall|i: int| 0 <= i < w.len() - 1 ==> !(#[trigger] w[i] is None && w[i + 1] is None)
            &&& forall|i: int, j: int|
                0 <= i < j < w.len() && w[i] is Some && w[j] is Some ==> (#[trigger] w[i])->0 < (
                #[trigger] w[j])->0
        }),
{
    let w = window_spec(current, total_pages);
    if total_pages <= 1 {
        assert(w[0] == Some(1u64));
        return;
    }
    let lo = window_lo(current);
    let hi = window_hi(current, total_pages);
    let a: Seq<Option<u64>> = seq![Some(1u64)];
    let b: Seq<Option<u64>> = if lo > 2 { seq![None] } else { Seq::empty() };
    let r = page_run(lo, hi);
    let c: Seq<Option<u64>> = if hi < total_pages - 1 { seq![None] } else { Seq::empty() };
    let d: Seq<Option<u64>> = seq![Some(total_pages as u64)];
    assert(w =~= a + b + r + c + d);
    let nb = b.len() as int;
    let nr = r.len() as int;
    let nc = c.len() as int;
    assert forall|k: int| 0 <= k < nr implies w[1 + nb + k] == r[k] by {}
    assert(w[0] == Some(1u64));
    assert(w[w.len() - 1] == Some(total_pages as u64));
    if current == 1 {
        assert(w[0] == Some(current as u64));
    } else if current == total_pages {
        assert(w[w.len() - 1] == Some(current as u64));
    } else {
        assert(lo <= current <= hi);
        assert(r[current - lo] == Some(current as u64));
        assert(w[1 + nb + (current - lo)] == Some(current as u64));
    }
    // The page linked at each position of the window.
    let val = |i: int|
        if i == 0 {
            1
        } else if i == w.len() - 1 {
            total_pages
        } else {
            lo + (i - 1 - nb)
        };
    assert forall|i: int| 0 <= i < w.len() && (#[trigger] w[i]) is Some implies (w[i]->0 as int)
        == val(i) && (1 <= i < w.len() - 1 ==> 1 + nb <= i < 1 + nb + nr) by {
        if 1 <= i < 1 + nb {
            assert(w[i] == b[i - 1]);
        } else if 1 + nb <= i < 1 + nb + nr {
            assert(w[i] == r[i - 1 - nb]);
        } else if 1 + nb + nr <= i < w.len() - 1 {
            assert(w[i] == c[i - 1 - nb - nr]);
        }
    }
    assert forall|i: int| 0 <= i < w.len() - 1 implies !(#[trigger] w[i] is None && w[i + 1] is None) by {
        if w[i] is None {
            if 1 <= i < 1 + nb {
                assert(i == 1);
                if nr > 0 {
                    assert(w[i + 1] == r[0]);
                } else {
                    assert(lo > hi);
                    assert(false);
                }
            } else if 1 + nb + nr <= i < w.len() - 1 {
                assert(i + 1 == w.len() - 1);
            } else if 1 + nb <= i < 1 + nb + nr {
                assert(w[i] == r[i - 1 - nb]);
            }
        }
    }
    assert forall|i: int, j: int|
        0 <= i < j < w.len() && w[i] is Some && w[j] is Some implies (#[trigger] w[i])->0 < (
        #[trigger] w[j])->0 by {
        assert(w[i]->0 as int == val(i));
        assert(w[j]->0 as int == val(j));
    }
}

/// The page count is the least number of pages of `per_page` rows that hold `total` rows, and
/// at least one.
pub proof fn lemma_total_pages_bounds(total: int, per_page: int)
    requires
        total >= 0,
        per_page >= 1,
    ensures
        total_pages_spec(total, per_page) >= 1,
        total <= total_pages_spec(total, per_page) * per_page,
        total > 0 ==> (total_pages_spec(total, per_page) - 1) * per_page < total,
        total == 0 ==> total_pages_spec(total, per_page) == 1,
{
    if total > 0 {
        let q = (total - 1) / per_page;
        assert(q * per_page <= total - 1 && total - 1 < (q + 1) * per_page) by (nonlinear_arith)
            requires
                q == (total - 1) / per_page,
                total >= 1,
                per_page >= 1,
        ;
        assert((q + 1) * per_page == q * per_page + per_page) by (nonlinear_arith);
    }
}

/// A page that exists is the page shown; a page past the end shows the last page; a missing
/// page or page 0 shows the first.
pub proof fn lemma_requested_page_reading(page: Option<u64>)
    ensures
        match page {
            Some(p) => if p >= 1 { requested_page(page) == p } else { requested_page(page) == 1 },
            None => requested_page(page) == 1,
        },
{
}

} // verus!
