//! Page numbers.
use vstd::prelude::*;

verus! {

/// How many pages of `limit` items hold `total` items.
pub open spec fn page_count(total: int, limit: int) -> int {
    if total == 0 {
        0
    } else {
        (total + limit - 1) / limit
    }
}

/// The number of the page that begins after `offset` items; the first page is page 1.
pub open spec fn page_number(offset: int, limit: int) -> int {
    offset / limit + 1
}

/// Whether pages can be counted in whole numbers: there are no items, or a page holds something and
/// the items are at most 2 to the 53rd.
pub open spec fn pages_countable(total: i64, limit: i64) -> bool {
    total == 0 || 0 < total <= 0x20_0000_0000_0000 && 0 < limit
}

/// Whether a page can be found in whole numbers: a page holds something, and the items before it are
/// at most 2 to the 53rd. The one pair left out is that of 2 to the 53rd items before the page and
/// one more on it, which doubles do not tell apart.
pub open spec fn page_findable(offset: i64, limit: i64) -> bool {
    &&& 0 <= offset <= 0x20_0000_0000_0000
    &&& 0 < limit
    &&& !(offset == 0x20_0000_0000_0000 && limit == 0x20_0000_0000_0001)
}

proof fn lemma_page_count(total: int, limit: int)
    requires
        0 < total,
        0 < limit,
    ensures
        page_count(total, limit) == (total - 1) / limit + 1,
        0 <= (total - 1) / limit <= total - 1,
{
    vstd::arithmetic::div_mod::lemma_div_plus_one(total - 1, limit);
    vstd::arithmetic::div_mod::lemma_div_pos_is_pos(total - 1, limit);
    vstd::arithmetic::div_mod::lemma_div_is_ordered_by_denominator(total - 1, 1, limit);
}

/// Works out how many pages there are.
pub fn count_pages(total: i64, limit: i64) -> (pages: Option<i64>)
    ensures
        pages is Some <==> pages_countable(total, limit),
        pages is Some ==> pages->0 == page_count(total as int, limit as int),
{
    if total == 0 {
        return Some(0);
    }
    if total < 0 || total > 0x20_0000_0000_0000 || limit <= 0 {
        return None;
    }
    proof {
        lemma_page_count(total as int, limit as int);
    }
    Some((total - 1) / limit + 1)
}

/// Works out which page is shown.
pub fn find_page(offset: i64, limit: i64) -> (page: Option<i64>)
    ensures
        page is Some <==> page_findable(offset, limit),
        page is Some ==> page->0 == page_number(offset as int, limit as int),
{
    let most: i64 = 0x20_0000_0000_0000;
    if offset < 0 || offset > most || limit <= 0 || (offset == most && limit
        == 0x20_0000_0000_0001) {
        return None;
    }
    proof {
        vstd::arithmetic::div_mod::lemma_div_is_ordered_by_denominator(
            offset as int,
            1,
            limit as int,
        );
    }
    Some(offset / limit + 1)
}

/// The number of pages is the least that holds all items.
pub proof fn law_pages_are_least(total: int, limit: int, pages: int)
    requires
        0 <= total,
        0 < limit,
        0 <= pages,
        total <= pages * limit,
    ensures
        0 <= page_count(total, limit) <= pages,
{
    law_pages_hold_all(total, limit);
    if total > 0 {
        let least = page_count(total, limit);
        lemma_page_count(total, limit);
        if pages < least {
            assert(pages * limit <= (least - 1) * limit) by (nonlinear_arith)
                requires
                    pages <= least - 1,
                    0 < limit,
            ;
        }
    }
}

/// The pages hold all items, and one page less would not.
pub proof fn law_pages_hold_all(total: int, limit: int)
    requires
        0 <= total,
        0 < limit,
    ensures
        total <= page_count(total, limit) * limit,
        total > 0 ==> (page_count(total, limit) - 1) * limit < total,
{
    if total > 0 {
        let pages = page_count(total, limit);
        vstd::arithmetic::div_mod::lemma_fundamental_div_mod(total + limit - 1, limit);
        assert(limit * pages == pages * limit) by (nonlinear_arith);
        assert((pages - 1) * limit == pages * limit - limit) by (nonlinear_arith);
    }
}

/// The items after `offset` begin on the page that is shown.
pub proof fn law_page_shows_offset(offset: int, limit: int)
    requires
        0 <= offset,
        0 < limit,
    ensures
        (page_number(offset, limit) - 1) * limit <= offset < page_number(offset, limit) * limit,
{
    vstd::arithmetic::div_mod::lemma_fundamental_div_mod(offset, limit);
    let page = page_number(offset, limit);
    assert((page - 1) * limit == limit * (offset / limit)) by (nonlinear_arith)
        requires
            page == offset / limit + 1,
    ;
    assert(page * limit == limit * (offset / limit) + limit) by (nonlinear_arith)
        requires
            page == offset / limit + 1,
    ;
}

} // verus!
