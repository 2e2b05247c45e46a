//! What the statements that store orders and addresses do, column by column, and that every statement
//! stores the row that the tables hold after it.
use crate::ids::Id;
use crate::laws::statements::{
    lemma_placeholders, listed, markers, new_product_cells, product_cells, values, Cell,
};
use crate::models::{ProductShown, ProductStatus};
use crate::protocol::{LabelKind, OrderRow, ProductRow, Query, Reply, ShippingRow};
use crate::sql::placeholder;
use crate::statements::{statement_binds, statement_sql, Bind, UPSERT_SHIPPING};
use crate::store::{runs_query, Store};
use vstd::prelude::*;

verus! {

/// The columns of an order's row that say whose it is, how far it is and what it costs.
pub open spec fn order_head_cells(order: OrderRow) -> Seq<Cell> {
    seq![
        ("id"@, Bind::Id(order.id)),
        ("user_id"@, Bind::OptionalId(order.user_id)),
        ("guest_email"@, Bind::OptionalText(order.guest_email)),
        ("guest_session_id"@, Bind::OptionalId(order.guest_session_id)),
        ("status"@, Bind::OrderStatus(order.status)),
        ("total_price"@, Bind::Number(order.total_price)),
    ]
}

/// The columns of an order's row that say to whom it goes, and to which house.
pub open spec fn order_name_cells(order: OrderRow) -> Seq<Cell> {
    seq![
        ("shipping_first_name"@, Bind::Text(order.shipping_first_name)),
        ("shipping_last_name"@, Bind::Text(order.shipping_last_name)),
        ("shipping_address_line1"@, Bind::Text(order.shipping_address_line1)),
        ("shipping_address_line2"@, Bind::OptionalText(order.shipping_address_line2)),
    ]
}

/// The columns of an order's row that say to which place it goes, and whom to call.
pub open spec fn order_place_cells(order: OrderRow) -> Seq<Cell> {
    seq![
        ("shipping_city"@, Bind::Text(order.shipping_city)),
        ("shipping_postal_code"@, Bind::Text(order.shipping_postal_code)),
        ("shipping_country"@, Bind::Text(order.shipping_country)),
        ("shipping_phone"@, Bind::Text(order.shipping_phone)),
    ]
}

/// The columns of an order's row that say how it is paid and sent.
pub open spec fn order_method_cells(order: OrderRow) -> Seq<Cell> {
    seq![
        ("payment_method"@, Bind::Label(LabelKind::PaymentMethod, order.payment_method)),
        ("shipping_method_name"@, Bind::FixedText(order.shipping_method_name)),
    ]
}

/// An order is stored column by column: each column that the text names has the value of the same
/// name.
#[verifier::rlimit(50)]
pub proof fn law_order_written(order: OrderRow)
    ensures
        ({
            let head = order_head_cells(order);
            let name = order_name_cells(order);
            let place = order_place_cells(order);
            let method = order_method_cells(order);
            let query = Query::InsertOrder { order };
            &&& statement_sql(query)@ == "
            INSERT INTO orders (
                "@ + listed(head, 6) + ",
                "@ + listed(name, 4) + ",
                "@
                + listed(place, 4) + ", 
                "@ + listed(method, 2) + "
            ) VALUES ("@ + markers(16) + ")
        "@
            &&& statement_binds(query) == values(head) + values(name) + values(place) + values(
                method,
            )
        }),
{
    let head = order_head_cells(order);
    let name = order_name_cells(order);
    let place = order_place_cells(order);
    let method = order_method_cells(order);
    let query = Query::InsertOrder { order };
    lemma_placeholders();
    reveal_strlit("$1");
    reveal_strlit("$2");
    reveal_strlit("$3");
    reveal_strlit("$4");
    reveal_strlit("$5");
    reveal_strlit("$6");
    reveal_strlit("$7");
    reveal_strlit("$8");
    reveal_strlit("$9");
    reveal_strlit(", ");
    reveal_strlit("id");
    reveal_strlit("$10");
    reveal_strlit("$11");
    reveal_strlit("$12");
    reveal_strlit("$13");
    reveal_strlit("$14");
    reveal_strlit("$15");
    reveal_strlit("$16");
    reveal_strlit("status");
    reveal_strlit("user_id");
    reveal_strlit(")
        ");
    reveal_strlit("guest_email");
    reveal_strlit("total_price");
    reveal_strlit("shipping_city");
    reveal_strlit("payment_method");
    reveal_strlit("shipping_phone");
    reveal_strlit("guest_session_id");
    reveal_strlit("shipping_country");
    reveal_strlit(",
                ");
    reveal_strlit("shipping_last_name");
    reveal_strlit(", 
                ");
    reveal_strlit("shipping_first_name");
    reveal_strlit("shipping_method_name");
    reveal_strlit("shipping_postal_code");
    reveal_strlit("shipping_address_line1");
    reveal_strlit("shipping_address_line2");
    reveal_strlit("
            ) VALUES (");
    reveal_strlit("
            INSERT INTO orders (
                ");
    reveal_strlit("
            INSERT INTO orders (
                id, user_id, guest_email, guest_session_id, status, total_price,
                shipping_first_name, shipping_last_name, shipping_address_line1, shipping_address_line2,
                shipping_city, shipping_postal_code, shipping_country, shipping_phone, 
                payment_method, shipping_method_name
            ) VALUES ($1, $2, $3, $4, $5, $6, $7, $8, $9, $10, $11, $12, $13, $14, $15, $16)
        ");
    reveal_strlit("payment_method, shipping_method_name");
    reveal_strlit("id, user_id, guest_email, guest_session_id, status, total_price");
    reveal_strlit("$1, $2, $3, $4, $5, $6, $7, $8, $9, $10, $11, $12, $13, $14, $15, $16");
    reveal_strlit("shipping_city, shipping_postal_code, shipping_country, shipping_phone");
    reveal_strlit("shipping_first_name, shipping_last_name, shipping_address_line1, shipping_address_line2");
    reveal_with_fuel(listed, 7);
    reveal_with_fuel(markers, 17);
    assert(listed(head, 6) =~= "id, user_id, guest_email, guest_session_id, status, total_price"@);
    assert(listed(name, 4) =~= "shipping_first_name, shipping_last_name, shipping_address_line1, shipping_address_line2"@);
    assert(listed(place, 4) =~= "shipping_city, shipping_postal_code, shipping_country, shipping_phone"@);
    assert(listed(method, 2) =~= "payment_method, shipping_method_name"@);
    assert(markers(16) =~= "$1, $2, $3, $4, $5, $6, $7, $8, $9, $10, $11, $12, $13, $14, $15, $16"@);
    assert(statement_sql(query)@ =~= "
            INSERT INTO orders (
                "@ + listed(head, 6) + ",
                "@ + listed(name, 4) + ",
                "@
        + listed(place, 4) + ", 
                "@ + listed(method, 2) + "
            ) VALUES ("@ + markers(16) + ")
        "@);
    assert(statement_binds(query) =~= values(head) + values(name) + values(place) + values(method));
}

/// The first columns of an address's row.
pub open spec fn address_head_cells(row: ShippingRow) -> Seq<Cell> {
    seq![
        ("user_id"@, Bind::Id(row.user_id)),
        ("shipping_first_name"@, Bind::OptionalText(row.first_name)),
        ("shipping_last_name"@, Bind::OptionalText(row.last_name)),
        ("shipping_address_line1"@, Bind::OptionalText(row.address_line1)),
    ]
}

/// The other columns of an address's row.
pub open spec fn address_place_cells(row: ShippingRow) -> Seq<Cell> {
    seq![
        ("shipping_address_line2"@, Bind::OptionalText(row.address_line2)),
        ("shipping_city"@, Bind::OptionalText(row.city)),
        ("shipping_postal_code"@, Bind::OptionalText(row.postal_code)),
        ("shipping_country"@, Bind::OptionalText(row.country)),
        ("shipping_phone"@, Bind::OptionalText(row.phone)),
    ]
}

/// The columns from `from` on, up to `count`, each replaced by what was to be stored in it.
pub open spec fn replaced(cells: Seq<Cell>, from: int, count: int) -> Seq<char>
    decreases count - from,
{
    if count <= from {
        Seq::empty()
    } else if count == from + 1 {
        cells[from].0 + " = EXCLUDED."@ + cells[from].0
    } else {
        replaced(cells, from, count - 1) + ",
                "@ + cells[count - 1].0 + " = EXCLUDED."@ + cells[count
            - 1].0
    }
}

/// An address is stored column by column, and where the user has one, every column of it but the
/// user's id is replaced by the new one.
#[verifier::rlimit(50)]
pub proof fn law_address_written(shipping: ShippingRow)
    ensures
        ({
            let head = address_head_cells(shipping);
            let place = address_place_cells(shipping);
            let query = Query::UpsertShipping { shipping };
            &&& statement_sql(query)@ == "
            INSERT INTO user_shipping_details (
                "@ + listed(head, 4) + ",
                "@ + listed(place, 5) + "
            ) VALUES ("@
                + markers(9) + ")
            ON CONFLICT (user_id) DO UPDATE SET
                "@ + replaced(head, 1, 4) + ",
                "@ + replaced(place, 0, 5) + ",
                updated_at = NOW()
            RETURNING *
        "@
            &&& statement_binds(query) == values(head) + values(place)
        }),
{
    let head = address_head_cells(shipping);
    let place = address_place_cells(shipping);
    let query = Query::UpsertShipping { shipping };
    lemma_address_columns(shipping);
    lemma_address_replaced(shipping);
    lemma_address_statement();
    assert(statement_sql(query)@ == UPSERT_SHIPPING@);
    let columns = "
            INSERT INTO user_shipping_details (
                "@ + listed(head, 4) + ",
                "@ + listed(place, 5) + "
            ) VALUES ("@ + markers(9) + ")
            ON CONFLICT (user_id) DO UPDATE SET
                "@;
    let update = replaced(head, 1, 4) + ",
                "@ + replaced(place, 0, 5) + ",
                updated_at = NOW()
            RETURNING *
        "@;
    assert(columns + update =~= "
            INSERT INTO user_shipping_details (
                "@ + listed(head, 4) + ",
                "@ + listed(place, 5) + "
            ) VALUES ("@ + markers(
        9,
    ) + ")
            ON CONFLICT (user_id) DO UPDATE SET
                "@ + replaced(head, 1, 4) + ",
                "@ + replaced(place, 0, 5) + ",
                updated_at = NOW()
            RETURNING *
        "@);
    assert(statement_binds(query) =~= values(head) + values(place));
}

/// The statement that stores an address, cut in two.
#[verifier::rlimit(50)]
proof fn lemma_address_statement()
    ensures
        UPSERT_SHIPPING@ == "
            INSERT INTO user_shipping_details (
                user_id, shipping_first_name, shipping_last_name, shipping_address_line1,
                shipping_address_line2, shipping_city, shipping_postal_code, shipping_country, shipping_phone
            ) VALUES ($1, $2, $3, $4, $5, $6, $7, $8, $9)
            ON CONFLICT (user_id) DO UPDATE SET
                "@ + "shipping_first_name = EXCLUDED.shipping_first_name,
                shipping_last_name = EXCLUDED.shipping_last_name,
                shipping_address_line1 = EXCLUDED.shipping_address_line1,
                shipping_address_line2 = EXCLUDED.shipping_address_line2,
                shipping_city = EXCLUDED.shipping_city,
                shipping_postal_code = EXCLUDED.shipping_postal_code,
                shipping_country = EXCLUDED.shipping_country,
                shipping_phone = EXCLUDED.shipping_phone,
                updated_at = NOW()
            RETURNING *
        "@,
{
    reveal_strlit("
            INSERT INTO user_shipping_details (
                user_id, shipping_first_name, shipping_last_name, shipping_address_line1,
                shipping_address_line2, shipping_city, shipping_postal_code, shipping_country, shipping_phone
            ) VALUES ($1, $2, $3, $4, $5, $6, $7, $8, $9)
            ON CONFLICT (user_id) DO UPDATE SET
                ");
    reveal_strlit("shipping_first_name = EXCLUDED.shipping_first_name,
                shipping_last_name = EXCLUDED.shipping_last_name,
                shipping_address_line1 = EXCLUDED.shipping_address_line1,
                shipping_address_line2 = EXCLUDED.shipping_address_line2,
                shipping_city = EXCLUDED.shipping_city,
                shipping_postal_code = EXCLUDED.shipping_postal_code,
                shipping_country = EXCLUDED.shipping_country,
                shipping_phone = EXCLUDED.shipping_phone,
                updated_at = NOW()
            RETURNING *
        ");
    reveal_strlit("
            INSERT INTO user_shipping_details (
                user_id, shipping_first_name, shipping_last_name, shipping_address_line1,
                shipping_address_line2, shipping_city, shipping_postal_code, shipping_country, shipping_phone
            ) VALUES ($1, $2, $3, $4, $5, $6, $7, $8, $9)
            ON CONFLICT (user_id) DO UPDATE SET
                shipping_first_name = EXCLUDED.shipping_first_name,
                shipping_last_name = EXCLUDED.shipping_last_name,
                shipping_address_line1 = EXCLUDED.shipping_address_line1,
                shipping_address_line2 = EXCLUDED.shipping_address_line2,
                shipping_city = EXCLUDED.shipping_city,
                shipping_postal_code = EXCLUDED.shipping_postal_code,
                shipping_country = EXCLUDED.shipping_country,
                shipping_phone = EXCLUDED.shipping_phone,
                updated_at = NOW()
            RETURNING *
        ");
    assert(UPSERT_SHIPPING@ =~= "
            INSERT INTO user_shipping_details (
                user_id, shipping_first_name, shipping_last_name, shipping_address_line1,
                shipping_address_line2, shipping_city, shipping_postal_code, shipping_country, shipping_phone
            ) VALUES ($1, $2, $3, $4, $5, $6, $7, $8, $9)
            ON CONFLICT (user_id) DO UPDATE SET
                "@ + "shipping_first_name = EXCLUDED.shipping_first_name,
                shipping_last_name = EXCLUDED.shipping_last_name,
                shipping_address_line1 = EXCLUDED.shipping_address_line1,
                shipping_address_line2 = EXCLUDED.shipping_address_line2,
                shipping_city = EXCLUDED.shipping_city,
                shipping_postal_code = EXCLUDED.shipping_postal_code,
                shipping_country = EXCLUDED.shipping_country,
                shipping_phone = EXCLUDED.shipping_phone,
                updated_at = NOW()
            RETURNING *
        "@);
}

#[verifier::rlimit(50)]
proof fn lemma_address_columns(shipping: ShippingRow)
    ensures
        ({
            let head = address_head_cells(shipping);
            let place = address_place_cells(shipping);
            "
            INSERT INTO user_shipping_details (
                user_id, shipping_first_name, shipping_last_name, shipping_address_line1,
                shipping_address_line2, shipping_city, shipping_postal_code, shipping_country, shipping_phone
            ) VALUES ($1, $2, $3, $4, $5, $6, $7, $8, $9)
            ON CONFLICT (user_id) DO UPDATE SET
                "@ == "
            INSERT INTO user_shipping_details (
                "@ + listed(head, 4) + ",
                "@ + listed(place, 5) + "
            ) VALUES ("@ + markers(9) + ")
            ON CONFLICT (user_id) DO UPDATE SET
                "@
        }),
{
    let head = address_head_cells(shipping);
    let place = address_place_cells(shipping);
    lemma_placeholders();
    reveal_strlit("$1");
    reveal_strlit("$2");
    reveal_strlit("$3");
    reveal_strlit("$4");
    reveal_strlit("$5");
    reveal_strlit("$6");
    reveal_strlit("$7");
    reveal_strlit("$8");
    reveal_strlit("$9");
    reveal_strlit(", ");
    reveal_strlit("user_id");
    reveal_strlit("shipping_city");
    reveal_strlit("shipping_phone");
    reveal_strlit("shipping_country");
    reveal_strlit(",
                ");
    reveal_strlit("shipping_last_name");
    reveal_strlit("shipping_first_name");
    reveal_strlit("shipping_postal_code");
    reveal_strlit("shipping_address_line1");
    reveal_strlit("shipping_address_line2");
    reveal_strlit("
            ) VALUES (");
    reveal_strlit("$1, $2, $3, $4, $5, $6, $7, $8, $9");
    reveal_strlit("
            INSERT INTO user_shipping_details (
                ");
    reveal_strlit(")
            ON CONFLICT (user_id) DO UPDATE SET
                ");
    reveal_strlit("user_id, shipping_first_name, shipping_last_name, shipping_address_line1");
    reveal_strlit("shipping_address_line2, shipping_city, shipping_postal_code, shipping_country, shipping_phone");
    reveal_strlit("
            INSERT INTO user_shipping_details (
                user_id, shipping_first_name, shipping_last_name, shipping_address_line1,
                shipping_address_line2, shipping_city, shipping_postal_code, shipping_country, shipping_phone
            ) VALUES ($1, $2, $3, $4, $5, $6, $7, $8, $9)
            ON CONFLICT (user_id) DO UPDATE SET
                ");
    reveal_with_fuel(listed, 6);
    reveal_with_fuel(markers, 10);
    assert(listed(head, 4) =~= "user_id, shipping_first_name, shipping_last_name, shipping_address_line1"@);
    assert(listed(place, 5) =~= "shipping_address_line2, shipping_city, shipping_postal_code, shipping_country, shipping_phone"@);
    assert(markers(9) =~= "$1, $2, $3, $4, $5, $6, $7, $8, $9"@);
    assert("
            INSERT INTO user_shipping_details (
                user_id, shipping_first_name, shipping_last_name, shipping_address_line1,
                shipping_address_line2, shipping_city, shipping_postal_code, shipping_country, shipping_phone
            ) VALUES ($1, $2, $3, $4, $5, $6, $7, $8, $9)
            ON CONFLICT (user_id) DO UPDATE SET
                "@ =~= "
            INSERT INTO user_shipping_details (
                "@ + listed(head, 4) + ",
                "@ + listed(place, 5) + "
            ) VALUES ("@ + markers(9) + ")
            ON CONFLICT (user_id) DO UPDATE SET
                "@);
}

#[verifier::rlimit(50)]
proof fn lemma_address_replaced(shipping: ShippingRow)
    ensures
        ({
            let head = address_head_cells(shipping);
            let place = address_place_cells(shipping);
            "shipping_first_name = EXCLUDED.shipping_first_name,
                shipping_last_name = EXCLUDED.shipping_last_name,
                shipping_address_line1 = EXCLUDED.shipping_address_line1,
                shipping_address_line2 = EXCLUDED.shipping_address_line2,
                shipping_city = EXCLUDED.shipping_city,
                shipping_postal_code = EXCLUDED.shipping_postal_code,
                shipping_country = EXCLUDED.shipping_country,
                shipping_phone = EXCLUDED.shipping_phone,
                updated_at = NOW()
            RETURNING *
        "@ == replaced(head, 1, 4) + ",
                "@ + replaced(place, 0, 5) + ",
                updated_at = NOW()
            RETURNING *
        "@
        }),
{
    let head = address_head_cells(shipping);
    let place = address_place_cells(shipping);
    reveal_strlit("user_id");
    reveal_strlit(" = EXCLUDED.");
    reveal_strlit("shipping_city");
    reveal_strlit("shipping_phone");
    reveal_strlit("shipping_country");
    reveal_strlit(",
                ");
    reveal_strlit("shipping_last_name");
    reveal_strlit("shipping_first_name");
    reveal_strlit("shipping_postal_code");
    reveal_strlit("shipping_address_line1");
    reveal_strlit("shipping_address_line2");
    reveal_strlit(",
                updated_at = NOW()
            RETURNING *
        ");
    reveal_strlit("shipping_first_name = EXCLUDED.shipping_first_name,
                shipping_last_name = EXCLUDED.shipping_last_name,
                shipping_address_line1 = EXCLUDED.shipping_address_line1");
    reveal_strlit("shipping_address_line2 = EXCLUDED.shipping_address_line2,
                shipping_city = EXCLUDED.shipping_city,
                shipping_postal_code = EXCLUDED.shipping_postal_code,
                shipping_country = EXCLUDED.shipping_country,
                shipping_phone = EXCLUDED.shipping_phone");
    reveal_strlit("shipping_first_name = EXCLUDED.shipping_first_name,
                shipping_last_name = EXCLUDED.shipping_last_name,
                shipping_address_line1 = EXCLUDED.shipping_address_line1,
                shipping_address_line2 = EXCLUDED.shipping_address_line2,
                shipping_city = EXCLUDED.shipping_city,
                shipping_postal_code = EXCLUDED.shipping_postal_code,
                shipping_country = EXCLUDED.shipping_country,
                shipping_phone = EXCLUDED.shipping_phone,
                updated_at = NOW()
            RETURNING *
        ");
    reveal_with_fuel(replaced, 6);
    assert(replaced(head, 1, 4) =~= "shipping_first_name = EXCLUDED.shipping_first_name,
                shipping_last_name = EXCLUDED.shipping_last_name,
                shipping_address_line1 = EXCLUDED.shipping_address_line1"@);
    assert(replaced(place, 0, 5) =~= "shipping_address_line2 = EXCLUDED.shipping_address_line2,
                shipping_city = EXCLUDED.shipping_city,
                shipping_postal_code = EXCLUDED.shipping_postal_code,
                shipping_country = EXCLUDED.shipping_country,
                shipping_phone = EXCLUDED.shipping_phone"@);
    assert("shipping_first_name = EXCLUDED.shipping_first_name,
                shipping_last_name = EXCLUDED.shipping_last_name,
                shipping_address_line1 = EXCLUDED.shipping_address_line1,
                shipping_address_line2 = EXCLUDED.shipping_address_line2,
                shipping_city = EXCLUDED.shipping_city,
                shipping_postal_code = EXCLUDED.shipping_postal_code,
                shipping_country = EXCLUDED.shipping_country,
                shipping_phone = EXCLUDED.shipping_phone,
                updated_at = NOW()
            RETURNING *
        "@ =~= replaced(head, 1, 4) + ",
                "@ + replaced(place, 0, 5) + ",
                updated_at = NOW()
            RETURNING *
        "@);
}

/// Several products are found, locked and marked by the list of their ids.
pub proof fn law_product_list_statements(ids: Vec<Id>, status: ProductStatus)
    ensures
        statement_sql(Query::SelectProducts { ids, lock: false })@ == "SELECT * FROM products WHERE "@
            + "id"@ + " = ANY("@ + placeholder(1) + ")"@,
        statement_sql(Query::SelectProducts { ids, lock: true })@ == "SELECT * FROM products WHERE "@
            + "id"@ + " = ANY("@ + placeholder(1) + ") FOR UPDATE"@,
        statement_binds(Query::SelectProducts { ids, lock: false }) == seq![Bind::Ids(ids)],
        statement_binds(Query::SelectProducts { ids, lock: true }) == seq![Bind::Ids(ids)],
        statement_sql(Query::SetStatuses { ids, status })@ == "UPDATE products SET "@ + "status"@
            + " = "@ + placeholder(1) + " WHERE "@ + "id"@ + " = ANY("@ + placeholder(2) + ")"@,
        statement_binds(Query::SetStatuses { ids, status }) == seq![
            Bind::Status(status),
            Bind::Ids(ids),
        ],
{
    lemma_placeholders();
    reveal_strlit(")");
    reveal_strlit("$1");
    reveal_strlit("$2");
    reveal_strlit("id");
    reveal_strlit(" = ");
    reveal_strlit("status");
    reveal_strlit(" = ANY(");
    reveal_strlit(" WHERE ");
    reveal_strlit(") FOR UPDATE");
    reveal_strlit("UPDATE products SET ");
    reveal_strlit("SELECT * FROM products WHERE ");
    reveal_strlit("SELECT * FROM products WHERE id = ANY($1)");
    reveal_strlit("UPDATE products SET status = $1 WHERE id = ANY($2)");
    reveal_strlit("SELECT * FROM products WHERE id = ANY($1) FOR UPDATE");
    assert(statement_sql(Query::SelectProducts { ids, lock: false })@
        =~= "SELECT * FROM products WHERE "@ + "id"@ + " = ANY("@ + placeholder(1) + ")"@);
    assert(statement_sql(Query::SelectProducts { ids, lock: true })@
        =~= "SELECT * FROM products WHERE "@ + "id"@ + " = ANY("@ + placeholder(1) + ") FOR UPDATE"@);
    assert(statement_sql(Query::SetStatuses { ids, status })@ =~= "UPDATE products SET "@ + "status"@
        + " = "@ + placeholder(1) + " WHERE "@ + "id"@ + " = ANY("@ + placeholder(2) + ")"@);
}

/// Whether a product's row has this value in this column.
pub open spec fn product_has(row: ProductShown, cell: Cell) -> bool {
    ||| cell == ("id"@, Bind::Id(row.id))
    ||| cell == ("name"@, Bind::Text(row.name))
    ||| cell == ("description"@, Bind::Text(row.description))
    ||| cell == ("price"@, Bind::Number(row.price))
    ||| cell == ("gender"@, Bind::Label(LabelKind::Gender, row.gender))
    ||| cell == ("condition"@, Bind::Label(LabelKind::Condition, row.condition))
    ||| cell == ("category"@, Bind::Label(LabelKind::Category, row.category))
    ||| cell == ("status"@, Bind::Status(row.status))
    ||| cell.0 == "images"@ && (cell.1 matches Bind::Texts(list) && list@ == row.images)
    ||| cell == ("on_sale"@, Bind::Flag(row.on_sale))
}

/// The row that the tables hold after a product was stored or changed has in each column the value that
/// the statement has for it.
pub proof fn law_product_row_is_as_bound(
    product: ProductRow,
    store: Store,
    reply: Reply,
    after: Store,
)
    ensures
        runs_query(store, Query::InsertProduct { product }, reply, after) ==> forall|i: int|
            0 <= i < 10 ==> product_has(
                after.products[product.id],
                #[trigger] new_product_cells(product)[i],
            ),
        runs_query(store, Query::UpdateProduct { product }, reply, after)
            && store.products.contains_key(product.id) ==> after.products[product.id].id
            == product.id && forall|i: int|
            0 <= i < 9 ==> product_has(
                after.products[product.id],
                #[trigger] product_cells(product)[i],
            ),
{
}

/// Whether an order's row has this value in this column.
pub open spec fn order_has(row: OrderRow, cell: Cell) -> bool {
    ||| cell == ("id"@, Bind::Id(row.id))
    ||| cell == ("user_id"@, Bind::OptionalId(row.user_id))
    ||| cell == ("guest_email"@, Bind::OptionalText(row.guest_email))
    ||| cell == ("guest_session_id"@, Bind::OptionalId(row.guest_session_id))
    ||| cell == ("status"@, Bind::OrderStatus(row.status))
    ||| cell == ("total_price"@, Bind::Number(row.total_price))
    ||| cell == ("shipping_first_name"@, Bind::Text(row.shipping_first_name))
    ||| cell == ("shipping_last_name"@, Bind::Text(row.shipping_last_name))
    ||| cell == ("shipping_address_line1"@, Bind::Text(row.shipping_address_line1))
    ||| cell == ("shipping_address_line2"@, Bind::OptionalText(row.shipping_address_line2))
    ||| cell == ("shipping_city"@, Bind::Text(row.shipping_city))
    ||| cell == ("shipping_postal_code"@, Bind::Text(row.shipping_postal_code))
    ||| cell == ("shipping_country"@, Bind::Text(row.shipping_country))
    ||| cell == ("shipping_phone"@, Bind::Text(row.shipping_phone))
    ||| cell == ("payment_method"@, Bind::Label(LabelKind::PaymentMethod, row.payment_method))
    ||| cell == ("shipping_method_name"@, Bind::FixedText(row.shipping_method_name))
}

/// The row that the tables hold after an order was stored has in each column the value that the
/// statement has for it.
pub proof fn law_order_row_is_as_bound(order: OrderRow, store: Store, reply: Reply, after: Store)
    requires
        runs_query(store, Query::InsertOrder { order }, reply, after),
    ensures
        forall|i: int|
            0 <= i < 6 ==> order_has(after.orders[order.id], #[trigger] order_head_cells(order)[i]),
        forall|i: int|
            0 <= i < 4 ==> order_has(after.orders[order.id], #[trigger] order_name_cells(order)[i]),
        forall|i: int|
            0 <= i < 4 ==> order_has(after.orders[order.id], #[trigger] order_place_cells(order)[i]),
        forall|i: int|
            0 <= i < 2 ==> order_has(
                after.orders[order.id],
                #[trigger] order_method_cells(order)[i],
            ),
{
}

/// Whether an address's row has this value in this column.
pub open spec fn address_has(row: ShippingRow, cell: Cell) -> bool {
    ||| cell == ("user_id"@, Bind::Id(row.user_id))
    ||| cell == ("shipping_first_name"@, Bind::OptionalText(row.first_name))
    ||| cell == ("shipping_last_name"@, Bind::OptionalText(row.last_name))
    ||| cell == ("shipping_address_line1"@, Bind::OptionalText(row.address_line1))
    ||| cell == ("shipping_address_line2"@, Bind::OptionalText(row.address_line2))
    ||| cell == ("shipping_city"@, Bind::OptionalText(row.city))
    ||| cell == ("shipping_postal_code"@, Bind::OptionalText(row.postal_code))
    ||| cell == ("shipping_country"@, Bind::OptionalText(row.country))
    ||| cell == ("shipping_phone"@, Bind::OptionalText(row.phone))
}

/// The row that the tables hold after an address was stored has in each column the value that the
/// statement has for it.
pub proof fn law_address_row_is_as_bound(
    shipping: ShippingRow,
    store: Store,
    reply: Reply,
    after: Store,
)
    requires
        runs_query(store, Query::UpsertShipping { shipping }, reply, after),
    ensures
        forall|i: int|
            0 <= i < 4 ==> address_has(
                after.shipping[shipping.user_id],
                #[trigger] address_head_cells(shipping)[i],
            ),
        forall|i: int|
            0 <= i < 5 ==> address_has(
                after.shipping[shipping.user_id],
                #[trigger] address_place_cells(shipping)[i],
            ),
{
}

} // verus!
