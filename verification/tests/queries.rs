use storefront::handlers::listings::{
    order_texts_fit, product_texts_fit, ListOrders, ListProducts,
};
use storefront::handlers::{list_orders_handler, list_products};
use storefront::models::{
    ListingParams, OrderListingParams, OrderStatus, ProductStatus, Role, TokenClaims,
};
use storefront::pages::{count_pages, find_page};
use storefront::protocol::{AppError, Body, CartOwner, Command, Query, Reply, Stage, Step};
use storefront::sql::SqlQuery;
use storefront::statements::{sql, statement, Bind};

fn params() -> ListingParams {
    ListingParams {
        limit: 20,
        offset: 40,
        gender: None,
        category: None,
        condition: None,
        status: None,
        price_min: None,
        price_max: None,
        on_sale: None,
        search: None,
        sort_by: "name".to_string(),
        order: "ASC".to_string(),
    }
}

fn order_params() -> OrderListingParams {
    OrderListingParams {
        limit: 10,
        offset: 0,
        status: None,
        date_from: None,
        date_to: None,
        search: None,
        sort_by: "order_date".to_string(),
        order: "DESC".to_string(),
    }
}

fn claims(role: Role) -> TokenClaims {
    TokenClaims { sub: 7, role, exp: 0 }
}

fn text(query: SqlQuery) -> String {
    query.builder.sql().to_string()
}

fn product_queries(params: ListingParams) -> (String, String) {
    match list_products(params) {
        Step::Perform(ListProducts::Counting { list, .. }, Command::Count(count)) => {
            (text(count), text(list))
        }
        _ => panic!("products are counted first"),
    }
}

fn order_queries(claims: TokenClaims, params: OrderListingParams) -> (String, String) {
    match list_orders_handler(claims, params) {
        Step::Perform(ListOrders::Counting { list, .. }, Command::Count(count)) => {
            (text(count), text(list))
        }
        _ => panic!("orders are counted first"),
    }
}

const COLUMNS: &str = "SELECT id, name, description, price, gender, condition, category, status, images, on_sale, created_at, updated_at FROM products";

#[test]
fn products_without_filters() {
    let (count, list) = product_queries(params());
    assert_eq!(count, "SELECT COUNT(*) FROM products");
    assert_eq!(list, format!("{COLUMNS} ORDER BY name ASC LIMIT $1 OFFSET $2"));
}

#[test]
fn products_with_every_filter() {
    let mut all = params();
    all.gender = Some("Damskie".to_string());
    all.category = Some("Buty".to_string());
    all.condition = Some("Nowy".to_string());
    all.status = Some(ProductStatus::Sold);
    all.price_min = Some(100);
    all.price_max = Some(900);
    all.on_sale = Some(true);
    all.search = Some("kurtka".to_string());
    all.sort_by = "price".to_string();
    all.order = "DESC".to_string();
    let (count, list) = product_queries(all);
    let filter = " WHERE gender = $1 AND category = $2 AND condition = $3 AND status = $4 AND price >= $5 AND price <= $6 AND on_sale = $7 AND (name ILIKE $8 OR description ILIKE $9)";
    assert_eq!(count, format!("SELECT COUNT(*) FROM products{filter}"));
    assert_eq!(
        list,
        format!("{COLUMNS}{filter} ORDER BY price DESC LIMIT $10 OFFSET $11")
    );
}

#[test]
fn products_are_sorted_by_known_columns_only() {
    for (asked, column) in [
        ("price", "price"),
        ("created_at", "created_at"),
        ("name", "name"),
        ("password_hash; --", "name"),
    ] {
        let mut sorted = params();
        sorted.sort_by = asked.to_string();
        let (_, list) = product_queries(sorted);
        assert_eq!(
            list,
            format!("{COLUMNS} ORDER BY {column} ASC LIMIT $1 OFFSET $2")
        );
    }
}

#[test]
fn customers_list_their_own_orders_only() {
    let mut asked = order_params();
    asked.status = Some(OrderStatus::Pending);
    asked.search = Some("kowalski".to_string());
    let (count, list) = order_queries(claims(Role::Customer), asked);
    assert_eq!(
        count,
        "SELECT COUNT(DISTINCT o.id) FROM orders o LEFT JOIN users u ON o.user_id = u.id WHERE  o.user_id = $1"
    );
    assert!(
        list.ends_with(" WHERE  o.user_id = $1 ORDER BY o.order_date DESC LIMIT $2 OFFSET $3")
    );
}

#[test]
fn administrators_filter_orders() {
    let mut asked = order_params();
    asked.status = Some(OrderStatus::Named("Shipped".to_string()));
    asked.date_from = Some(1_700_000_000_000_000);
    asked.date_to = Some(1_800_000_000_000_000);
    asked.search = Some("kowalski".to_string());
    asked.sort_by = "total_price".to_string();
    let (count, list) = order_queries(claims(Role::Admin), asked);
    let filter = " WHERE  o.status = $1 AND  o.order_date >= $2 AND  o.order_date <= $3 AND  (CAST(o.id AS TEXT) ILIKE $4 OR o.shipping_last_name ILIKE $5 OR o.guest_email ILIKE $6 OR u.email ILIKE $7) ";
    assert_eq!(
        count,
        format!("SELECT COUNT(DISTINCT o.id) FROM orders o LEFT JOIN users u ON o.user_id = u.id{filter}")
    );
    assert!(list.ends_with(&format!(
        "{filter} ORDER BY o.total_price DESC LIMIT $8 OFFSET $9"
    )));
    assert!(list.contains("COALESCE(u.email, o.guest_email) as customer_email"));
}

#[test]
fn orders_are_sorted_by_known_columns_only() {
    for (asked, column) in [
        ("status", "o.status"),
        ("total_price", "o.total_price"),
        ("guest_email", "o.order_date"),
    ] {
        let mut sorted = order_params();
        sorted.sort_by = asked.to_string();
        let (_, list) = order_queries(claims(Role::Admin), sorted);
        assert!(list.ends_with(&format!(" ORDER BY {column} DESC LIMIT $1 OFFSET $2")));
    }
}

#[test]
fn dates_are_bound_at_both_ends_of_the_calendar() {
    let mut asked = order_params();
    asked.date_from = Some(-8_334_601_228_800_000_000);
    asked.date_to = Some(8_210_266_876_799_999_999);
    let (count, _) = order_queries(claims(Role::Admin), asked);
    assert!(count.ends_with(" WHERE  o.order_date >= $1 AND  o.order_date <= $2"));
}

fn listed(total: i64, limit: i64, offset: i64) -> Step<ListProducts> {
    let mut asked = params();
    asked.limit = limit;
    asked.offset = offset;
    let step = match list_products(asked) {
        Step::Perform(stage, _) => stage.resume(Reply::Count(total)),
        _ => panic!("products are counted first"),
    };
    match step {
        Step::Perform(stage, Command::ListProducts(_)) => stage.resume(Reply::Products(vec![])),
        _ => panic!("products are listed second"),
    }
}

#[test]
fn a_page_is_numbered() {
    match listed(41, 20, 20) {
        Step::Finish(Ok(response)) => {
            assert_eq!(response.status, 200);
            assert!(response.headers.is_empty());
            match response.body {
                Body::Products(page) => {
                    assert_eq!(page.total_items, 41);
                    assert_eq!(page.total_pages, 3);
                    assert_eq!(page.current_page, 2);
                    assert_eq!(page.per_page, 20);
                    assert!(page.data.is_empty());
                }
                _ => panic!("a page of products is shown"),
            }
        }
        _ => panic!("the list is shown"),
    }
}

#[test]
fn uncountable_pages_are_worked_out_elsewhere() {
    match listed(5, 0, 0) {
        Step::Perform(stage, Command::CountPages { total_items, offset, limit }) => {
            assert_eq!((total_items, offset, limit), (5, 0, 0));
            match stage.resume(Reply::Pages { total_pages: i64::MAX, current_page: 1 }) {
                Step::Finish(Ok(response)) => match response.body {
                    Body::Products(page) => {
                        assert_eq!(page.total_pages, i64::MAX);
                        assert_eq!(page.current_page, 1);
                        assert_eq!(page.per_page, 0);
                    }
                    _ => panic!("a page of products is shown"),
                },
                _ => panic!("the list is shown"),
            }
        }
        _ => panic!("page numbers are asked for"),
    }
}

/// The numbers of a list, where whole numbers do not give both of them.
fn numbers(total: i64, limit: i64, offset: i64, worked_out: (i64, i64)) -> (i64, i64) {
    let (total_pages, current_page) = worked_out;
    match listed(total, limit, offset) {
        Step::Perform(stage, Command::CountPages { .. }) => {
            match stage.resume(Reply::Pages { total_pages, current_page }) {
                Step::Finish(Ok(response)) => match response.body {
                    Body::Products(page) => (page.total_pages, page.current_page),
                    _ => panic!("a page of products is shown"),
                },
                _ => panic!("the list is shown"),
            }
        }
        _ => panic!("page numbers are asked for"),
    }
}

#[test]
fn what_whole_numbers_give_is_not_taken_from_elsewhere() {
    assert_eq!(numbers(41, 20, (1 << 53) + 2, (7, 8)), (3, 8));
    assert_eq!(numbers((1 << 53) + 2, 20, 40, (7, 8)), (7, 3));
    assert_eq!(numbers(0, 0, 0, (7, 8)), (0, 8));
    assert_eq!(numbers(-1, 20, -1, (7, 8)), (7, 8));
}

#[test]
fn a_customer_may_name_any_date() {
    let mut never = order_params();
    never.date_from = Some(i64::MAX);
    let (count, _) = order_queries(claims(Role::Customer), never);
    assert!(count.ends_with(" WHERE  o.user_id = $1"));
}

#[test]
fn ordinary_texts_fit() {
    let mut all = params();
    all.gender = Some("Damskie".to_string());
    all.search = Some("x".repeat(100_000));
    assert!(product_texts_fit(&all));
    let mut orders = order_params();
    orders.status = Some(OrderStatus::Named("Shipped".to_string()));
    orders.search = Some(String::new());
    assert!(order_texts_fit(&orders));
}

#[test]
fn a_failed_count_is_reported() {
    let step = match list_orders_handler(claims(Role::Customer), order_params()) {
        Step::Perform(stage, _) => stage.resume(Reply::Failed(AppError::NotFound)),
        _ => panic!("orders are counted first"),
    };
    assert!(matches!(step, Step::Finish(Err(AppError::NotFound))));
}

#[test]
fn page_numbers_are_those_of_division() {
    for total in [0i64, 1, 19, 20, 21, 1_000_003, (1 << 53) - 1, 1 << 53] {
        for limit in [
            1i64,
            2,
            3,
            20,
            100,
            1 << 40,
            (1 << 53) - 1,
            1 << 53,
            (1 << 53) + 2,
            (1 << 53) + 3,
            1 << 62,
            i64::MAX,
        ] {
            for offset in [0i64, 1, 20, 39, 40, 1 << 52, 1 << 53] {
                let pages = if total == 0 {
                    0
                } else {
                    (total as f64 / limit as f64).ceil() as i64
                };
                let page = (offset as f64 / limit as f64).floor() as i64 + 1;
                assert_eq!(count_pages(total, limit), Some(pages));
                assert_eq!(find_page(offset, limit), Some(page));
            }
        }
    }
    assert_eq!(count_pages(1, 0), None);
    assert_eq!(count_pages(0, 0), Some(0));
    assert_eq!(count_pages(-1, 1), None);
    assert_eq!(count_pages((1 << 53) + 1, 1), None);
    assert_eq!(count_pages(1 << 53, (1 << 53) + 1), Some(1));
    assert_eq!(find_page(0, 0), None);
    assert_eq!(find_page(-1, 1), None);
    assert_eq!(find_page((1 << 53) + 1, 1), None);
    assert_eq!(find_page(1 << 53, (1 << 53) + 1), None);
    assert_eq!(find_page((1 << 53) - 1, (1 << 53) + 1), Some(1));
}

#[test]
fn all_items_have_a_page() {
    for total in 0..200i64 {
        for limit in 1..30i64 {
            let pages = count_pages(total, limit).unwrap();
            assert!(pages * limit >= total);
            assert!(total == 0 || (pages - 1) * limit < total);
            let page = find_page(total, limit).unwrap();
            assert!((page - 1) * limit <= total && total < page * limit);
        }
    }
}

#[test]
fn statements_bind_what_they_name() {
    let moved = statement(Query::MoveCartItems { to: 1, from: 2 });
    assert!(moved.sql.contains("SET cart_id = $1"));
    assert!(matches!(moved.binds[..], [Bind::Id(1), Bind::Id(2)]));

    let sold = statement(Query::SetStatuses { ids: vec![3, 4], status: ProductStatus::Sold });
    assert_eq!(sold.sql, "UPDATE products SET status = $1 WHERE id = ANY($2)");
    match &sold.binds[..] {
        [Bind::Status(ProductStatus::Sold), Bind::Ids(ids)] => assert_eq!(ids, &vec![3, 4]),
        _ => panic!("the status comes first"),
    }

    assert_eq!(
        sql(&Query::SelectCart { owner: CartOwner::Guest(1), lock: true }),
        "SELECT * FROM shopping_carts WHERE guest_session_id = $1 FOR UPDATE"
    );
    assert_eq!(
        sql(&Query::SelectCart { owner: CartOwner::User(1), lock: false }),
        "SELECT * FROM shopping_carts WHERE user_id = $1"
    );
    assert_eq!(
        sql(&Query::SelectProducts { ids: vec![], lock: true }),
        "SELECT * FROM products WHERE id = ANY($1) FOR UPDATE"
    );
}

#[test]
fn statements_have_a_value_for_each_placeholder() {
    let queries = vec![
        Query::SelectProduct { id: 1 },
        Query::LockProduct { id: 1 },
        Query::SelectProducts { ids: vec![1], lock: false },
        Query::SetProductStatus { id: 1, status: ProductStatus::Archived },
        Query::SetStatuses { ids: vec![1], status: ProductStatus::Available },
        Query::FindProductInOrders { id: 1 },
        Query::DeleteProduct { id: 1 },
        Query::SelectUser { email: String::new() },
        Query::InsertUser {
            email: String::new(),
            password_hash: String::new(),
            role: Role::Customer,
        },
        Query::SelectCart { owner: CartOwner::User(1), lock: true },
        Query::SelectCartById { id: 1 },
        Query::InsertCart { owner: CartOwner::Guest(1) },
        Query::SelectCartItems { cart_id: 1 },
        Query::InsertCartItem { cart_id: 1, product_id: 2 },
        Query::DeleteCartItem { cart_id: 1, product_id: 2 },
        Query::DeleteCartItems { cart_id: 1 },
        Query::MoveCartItems { to: 1, from: 2 },
        Query::DetachGuest { cart_id: 1, user_id: 2 },
        Query::DeleteCart { id: 1 },
        Query::InsertOrderItem { order_id: 1, product_id: 2, price: 3 },
        Query::SelectOrder { id: 1 },
        Query::SelectOrderItems { order_id: 1 },
        Query::SelectOrderProducts { order_id: 1 },
        Query::UpdateOrderStatus { id: 1, order_status: OrderStatus::Pending },
        Query::DeleteOrderItems { order_id: 1 },
        Query::DeleteOrder { id: 1 },
    ];
    for query in queries {
        let made = statement(query);
        let count = made.binds.len();
        assert!(made.sql.contains(&format!("${count}")), "{}", made.sql);
        assert!(!made.sql.contains(&format!("${}", count + 1)), "{}", made.sql);
    }
}
