use vstd::prelude::*;

verus! {

/// How many pages `total_items` records make with `page_size` on a page: as many as are needed
/// to hold them all, and one where there is none.
pub open spec fn page_count(total_items: int, page_size: int) -> int {
    if total_items <= 0 {
        1
    } else {
        (total_items - 1) / page_size + 1
    }
}

/// The page that is shown when `requested` is asked for: `requested` itself, or the last page
/// where it lies beyond.
pub open spec fn clamped_page(requested: int, pages: int) -> int {
    if requested < pages {
        requested
    } else {
        pages - 1
    }
}

/// Where a page begins in the whole set.
pub open spec fn page_start(page: int, page_size: int) -> int {
    page * page_size
}

/// Where a page ends in a set of `total_items`.
pub open spec fn page_end(total_items: int, page: int, page_size: int) -> int {
    if (page + 1) * page_size < total_items {
        (page + 1) * page_size
    } else {
        total_items
    }
}

/// The items of one page.
pub open spec fn page_window<T>(items: Seq<T>, page: int, page_size: int) -> Seq<T> {
    items.subrange(page_start(page, page_size), page_end(items.len() as int, page, page_size))
}

/// The number of pages is the least number of pages that hold all the items, and one where
/// there is no item.
pub proof fn lemma_page_count(total_items: int, page_size: int)
    requires
        total_items >= 0,
        page_size > 0,
    ensures
        page_count(total_items, page_size) >= 1,
        total_items <= page_count(total_items, page_size) * page_size,
        total_items > 0 ==> (page_count(total_items, page_size) - 1) * page_size < total_items,
        total_items == 0 ==> page_count(total_items, page_size) == 1,
{
    if total_items > 0 {
        let q = (total_items - 1) / page_size;
        assert(q * page_size <= total_items - 1 < (q + 1) * page_size) by (nonlinear_arith)
            requires
                q == (total_items - 1) / page_size,
                page_size > 0,
                total_items - 1 >= 0,
        ;
        assert(q >= 0) by (nonlinear_arith)
            requires
                q == (total_items - 1) / page_size,
                page_size > 0,
                total_items - 1 >= 0,
        ;
    } else {
        assert(1 * page_size == page_size);
    }
}

/// The page shown is one of the pages, whatever page was asked for, and its items lie within
/// the set.
pub proof fn lemma_page_in_range(total_items: int, page_size: int, requested_page: int)
    requires
        total_items >= 0,
        page_size > 0,
        requested_page >= 0,
    ensures
        0 <= clamped_page(requested_page, page_count(total_items, page_size)) < page_count(
            total_items,
            page_size,
        ),
        0 <= page_start(
            clamped_page(requested_page, page_count(total_items, page_size)),
            page_size,
        ) <= page_end(
            total_items,
            clamped_page(requested_page, page_count(total_items, page_size)),
            page_size,
        ) <= total_items,
{
    lemma_page_count(total_items, page_size);
    let pages = page_count(total_items, page_size);
    let page = clamped_page(requested_page, pages);
    assert(page * page_size <= (pages - 1) * page_size) by (nonlinear_arith)
        requires
            0 <= page <= pages - 1,
            page_size > 0,
    ;
    assert(0 <= page * page_size) by (nonlinear_arith)
        requires
            0 <= page,
            page_size > 0,
    ;
    assert((page + 1) * page_size == page * page_size + page_size) by (nonlinear_arith);
}

/// How many pages `total_items` records make with `page_size` on a page.
pub fn total_pages(total_items: usize, page_size: usize) -> (pages: usize)
    requires
        page_size > 0,
    ensures
        pages == page_count(total_items as int, page_size as int),
        pages >= 1,
        total_items <= pages * page_size,
        total_items > 0 ==> (pages - 1) * page_size < total_items,
{
    proof {
        lemma_page_count(total_items as int, page_size as int);
    }
    if total_items == 0 {
        1
    } else {
        proof {
            assert((page_count(total_items as int, page_size as int) - 1) * 1 <= (page_count(
                total_items as int,
                page_size as int,
            ) - 1) * page_size) by (nonlinear_arith)
                requires
                    page_count(total_items as int, page_size as int) - 1 >= 0,
                    page_size >= 1,
            ;
        }
        (total_items - 1) / page_size + 1
    }
}

/// The page that is shown when `requested_page` of `pages_count` pages is asked for:
/// `requested_page` itself, or the last page where it lies beyond.
pub fn clamp_page(requested_page: usize, pages_count: usize) -> (page: usize)
    requires
        pages_count >= 1,
    ensures
        page == clamped_page(requested_page as int, pages_count as int),
        page < pages_count,
{
    if requested_page < pages_count {
        requested_page
    } else {
        pages_count - 1
    }
}

/// Every page but the last holds as many items as a page can hold; the last holds the rest,
/// at least one where there is any item.
pub proof fn lemma_page_len(total_items: int, page_size: int, page: int)
    requires
        total_items >= 0,
        page_size > 0,
        0 <= page < page_count(total_items, page_size),
    ensures
        page < page_count(total_items, page_size) - 1 ==> page_end(total_items, page, page_size)
            - page_start(page, page_size) == page_size,
        page == page_count(total_items, page_size) - 1 ==> page_end(
            total_items,
            page,
            page_size,
        ) - page_start(page, page_size) == total_items - (page_count(total_items, page_size) - 1)
            * page_size,
        total_items > 0 ==> page_end(total_items, page, page_size) - page_start(page, page_size)
            > 0,
{
    lemma_page_count(total_items, page_size);
    let pages = page_count(total_items, page_size);
    assert((page + 1) * page_size == page * page_size + page_size) by (nonlinear_arith);
    if page < pages - 1 {
        assert((page + 1) * page_size <= (pages - 1) * page_size) by (nonlinear_arith)
            requires
                page + 1 <= pages - 1,
                page_size > 0,
        ;
    } else {
        assert(pages * page_size == (pages - 1) * page_size + page_size) by (nonlinear_arith);
    }
}

} // verus!
