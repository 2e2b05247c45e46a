//! How the pages of a list are numbered.
use crate::handlers::listings::{ListOrders, ListProducts};
use crate::models::Page;
use crate::pages::{
    law_pages_are_least, law_pages_hold_all, page_count, page_findable, pages_countable,
};
use crate::protocol::{Body, Command, Outcome, Step};
use crate::sql::SqlQuery;
use crate::store::{at_rest, lemma_goes_on, runs, Service, World};
use vstd::prelude::*;

verus! {

/// Whether `pages` pages of `limit` items are the fewest that hold `total` items.
pub open spec fn fewest_pages(total: int, limit: int, pages: int) -> bool {
    &&& 0 <= pages
    &&& total <= pages * limit
    &&& forall|other: int| #![trigger other * limit]
        0 <= other && total <= other * limit ==> pages <= other
}

/// Whether a page carries the numbers that were asked for: how many items are on it, the fewest pages
/// that hold all items, and which of them it is.
pub open spec fn numbered<T>(page: Page<T>, limit: i64, offset: i64) -> bool {
    &&& page.per_page == limit
    &&& page.total_items == 0 ==> page.total_pages == 0
    &&& 0 < limit && 0 <= page.total_items <= 0x20_0000_0000_0000 ==> fewest_pages(
        page.total_items as int,
        limit as int,
        page.total_pages as int,
    )
    &&& 0 < limit && 0 <= offset <= 0x20_0000_0000_0000 && !(offset == 0x20_0000_0000_0000 && limit
        == 0x20_0000_0000_0001) ==> page.current_page == offset as int / limit as int + 1
}

/// The pages that are counted are the fewest.
pub proof fn lemma_fewest(total: int, limit: int)
    requires
        0 <= total,
        0 < limit,
    ensures
        fewest_pages(total, limit, page_count(total, limit)),
{
    law_pages_hold_all(total, limit);
    assert forall|other: int| #![trigger other * limit]
        0 <= other && total <= other * limit implies page_count(total, limit) <= other by {
        law_pages_are_least(total, limit, other);
    }
    assert(0 <= page_count(total, limit)) by {
        assert(total <= total * limit) by (nonlinear_arith)
            requires
                0 <= total,
                0 < limit,
        ;
        law_pages_are_least(total, limit, total);
    }
}

/// The numbers of a page fit.
proof fn lemma_page_numbers(total: i64, limit: i64, offset: i64)
    ensures
        0 < limit && pages_countable(total, limit) ==> {
            &&& fewest_pages(total as int, limit as int, page_count(total as int, limit as int))
            &&& page_count(total as int, limit as int) <= total
        },
        page_findable(offset, limit) ==> 0 <= offset as int / limit as int <= offset,
{
    if 0 < limit && pages_countable(total, limit) {
        lemma_fewest(total as int, limit as int);
        assert(total <= total * limit) by (nonlinear_arith)
            requires
                0 <= total,
                0 < limit,
        ;
    }
    if page_findable(offset, limit) {
        vstd::arithmetic::div_mod::lemma_div_is_ordered_by_denominator(
            offset as int,
            1,
            limit as int,
        );
        vstd::arithmetic::div_mod::lemma_div_pos_is_pos(offset as int, limit as int);
    }
}

/// Unless a command fails, a list of products is answered with a page that is rightly numbered and
/// holds what was counted and listed. Nothing is changed.
pub proof fn law_product_pages_numbered(
    count: SqlQuery,
    list: SqlQuery,
    limit: i64,
    offset: i64,
    start: World,
    outcome: Outcome,
    end: World,
    fuel: nat,
)
    requires
        runs(
            Step::Perform(ListProducts::Counting { list, limit, offset }, Command::Count(count)),
            start,
            outcome,
            end,
            fuel,
        ),
        at_rest(start),
    ensures
        end.committed == start.committed,
        outcome is Ok == !end.failed,
        outcome matches Ok(response) ==> {
            &&& response.status == 200
            &&& response.body matches Body::Products(page)
            &&& numbered(page, limit, offset)
            &&& end.services == start.services.push(
                Service::Counted { query: count, total: page.total_items },
            ).push(Service::ListedProducts { query: list, products: page.data })
        },
{
    let s0 = Step::Perform(ListProducts::Counting { list, limit, offset }, Command::Count(count));
    let (r1, w1, s1) = lemma_goes_on(s0, start, outcome, end, fuel);
    if s1 is Perform {
        let total = r1->Count_0;
        let (r2, w2, s2) = lemma_goes_on(s1, w1, outcome, end, (fuel - 1) as nat);
        lemma_page_numbers(total, limit, offset);
        if s2 is Perform {
            let (r3, w3, s3) = lemma_goes_on(s2, w2, outcome, end, (fuel - 2) as nat);
            assert(s3 !is Perform);
        }
    }
}

/// Unless a command fails, a list of orders is answered with a page that is rightly numbered and holds
/// what was counted and listed. Nothing is changed.
pub proof fn law_order_pages_numbered(
    count: SqlQuery,
    list: SqlQuery,
    limit: i64,
    offset: i64,
    start: World,
    outcome: Outcome,
    end: World,
    fuel: nat,
)
    requires
        runs(
            Step::Perform(ListOrders::Counting { list, limit, offset }, Command::Count(count)),
            start,
            outcome,
            end,
            fuel,
        ),
        at_rest(start),
    ensures
        end.committed == start.committed,
        outcome is Ok == !end.failed,
        outcome matches Ok(response) ==> {
            &&& response.status == 200
            &&& response.body matches Body::Orders(page)
            &&& numbered(page, limit, offset)
            &&& end.services == start.services.push(
                Service::Counted { query: count, total: page.total_items },
            ).push(Service::ListedOrders { query: list, orders: page.data })
        },
{
    let s0 = Step::Perform(ListOrders::Counting { list, limit, offset }, Command::Count(count));
    let (r1, w1, s1) = lemma_goes_on(s0, start, outcome, end, fuel);
    if s1 is Perform {
        let total = r1->Count_0;
        let (r2, w2, s2) = lemma_goes_on(s1, w1, outcome, end, (fuel - 1) as nat);
        lemma_page_numbers(total, limit, offset);
        if s2 is Perform {
            let (r3, w3, s3) = lemma_goes_on(s2, w2, outcome, end, (fuel - 2) as nat);
            assert(s3 !is Perform);
        }
    }
}

} // verus!
