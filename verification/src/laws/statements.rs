//! What each statement does, column by column: which value stands behind the name of each column in
//! its text.
use crate::ids::Id;
use crate::models::{OrderStatus, ProductStatus, Role};
use crate::protocol::{CartOwner, LabelKind, ProductRow, Query};
use crate::sql::{decimal, placeholder};
use crate::statements::{statement_binds, statement_sql, Bind};
use vstd::prelude::*;

verus! {

/// A column's name, and the value that a statement has for it.
pub type Cell = (Seq<char>, Bind);

/// The names of the first `count` columns, with commas between them.
pub open spec fn listed(cells: Seq<Cell>, count: int) -> Seq<char>
    decreases count,
{
    if count <= 0 {
        Seq::empty()
    } else if count == 1 {
        cells[0].0
    } else {
        listed(cells, count - 1) + ", "@ + cells[count - 1].0
    }
}

/// The first `count` placeholders, with commas between them.
pub open spec fn markers(count: nat) -> Seq<char>
    decreases count,
{
    if count == 0 {
        Seq::empty()
    } else if count == 1 {
        placeholder(1)
    } else {
        markers((count - 1) as nat) + ", "@ + placeholder(count)
    }
}

/// The first `count` columns, each said to equal its placeholder; the first has the number `first`.
pub open spec fn equations(
    cells: Seq<Cell>,
    first: nat,
    separator: Seq<char>,
    count: int,
) -> Seq<char>
    decreases count,
{
    if count <= 0 {
        Seq::empty()
    } else if count == 1 {
        cells[0].0 + " = "@ + placeholder(first)
    } else {
        equations(cells, first, separator, count - 1) + separator + cells[count - 1].0 + " = "@
            + placeholder((first + count - 1) as nat)
    }
}

/// The values of the columns.
pub open spec fn values(cells: Seq<Cell>) -> Seq<Bind> {
    cells.map_values(|cell: Cell| cell.1)
}

/// Whether a statement is about the rows in which each of these columns has its value.
pub open spec fn finds(query: Query, head: Seq<char>, cells: Seq<Cell>, tail: Seq<char>) -> bool {
    &&& statement_sql(query)@ == head + equations(cells, 1, " AND "@, cells.len() as int) + tail
    &&& statement_binds(query) == values(cells)
}

/// Whether a statement stores a row in which each of these columns has its value.
pub open spec fn inserts(
    query: Query,
    head: Seq<char>,
    cells: Seq<Cell>,
    middle: Seq<char>,
    tail: Seq<char>,
) -> bool {
    &&& statement_sql(query)@ == head + listed(cells, cells.len() as int) + middle + markers(
        cells.len(),
    ) + tail
    &&& statement_binds(query) == values(cells)
}

/// Whether a statement gives the columns `set` their values in the rows in which each of the columns
/// `whose` has its value.
pub open spec fn changes(
    query: Query,
    head: Seq<char>,
    set: Seq<Cell>,
    middle: Seq<char>,
    whose: Seq<Cell>,
    tail: Seq<char>,
) -> bool {
    &&& statement_sql(query)@ == head + equations(set, 1, ", "@, set.len() as int) + middle
        + equations(whose, set.len() + 1, " AND "@, whose.len() as int) + tail
    &&& statement_binds(query) == values(set) + values(whose)
}

pub proof fn lemma_placeholders()
    ensures
        placeholder(1) == "$1"@,
        placeholder(2) == "$2"@,
        placeholder(3) == "$3"@,
        placeholder(4) == "$4"@,
        placeholder(5) == "$5"@,
        placeholder(6) == "$6"@,
        placeholder(7) == "$7"@,
        placeholder(8) == "$8"@,
        placeholder(9) == "$9"@,
        placeholder(10) == "$10"@,
        placeholder(11) == "$11"@,
        placeholder(12) == "$12"@,
        placeholder(13) == "$13"@,
        placeholder(14) == "$14"@,
        placeholder(15) == "$15"@,
        placeholder(16) == "$16"@,
{
    reveal_with_fuel(decimal, 3);
    reveal_strlit("$1");
    reveal_strlit("$2");
    reveal_strlit("$3");
    reveal_strlit("$4");
    reveal_strlit("$5");
    reveal_strlit("$6");
    reveal_strlit("$7");
    reveal_strlit("$8");
    reveal_strlit("$9");
    reveal_strlit("$10");
    reveal_strlit("$11");
    reveal_strlit("$12");
    reveal_strlit("$13");
    reveal_strlit("$14");
    reveal_strlit("$15");
    reveal_strlit("$16");
    assert(placeholder(1) =~= "$1"@);
    assert(placeholder(2) =~= "$2"@);
    assert(placeholder(3) =~= "$3"@);
    assert(placeholder(4) =~= "$4"@);
    assert(placeholder(5) =~= "$5"@);
    assert(placeholder(6) =~= "$6"@);
    assert(placeholder(7) =~= "$7"@);
    assert(placeholder(8) =~= "$8"@);
    assert(placeholder(9) =~= "$9"@);
    assert(placeholder(10) =~= "$10"@);
    assert(placeholder(11) =~= "$11"@);
    assert(placeholder(12) =~= "$12"@);
    assert(placeholder(13) =~= "$13"@);
    assert(placeholder(14) =~= "$14"@);
    assert(placeholder(15) =~= "$15"@);
    assert(placeholder(16) =~= "$16"@);
}

/// The columns of a product's row that a change sets.
pub open spec fn product_cells(product: ProductRow) -> Seq<Cell> {
    seq![
        ("name"@, Bind::Text(product.name)),
        ("description"@, Bind::Text(product.description)),
        ("price"@, Bind::Number(product.price)),
        ("gender"@, Bind::Label(LabelKind::Gender, product.gender)),
        ("condition"@, Bind::Label(LabelKind::Condition, product.condition)),
        ("category"@, Bind::Label(LabelKind::Category, product.category)),
        ("status"@, Bind::Status(product.status)),
        ("images"@, Bind::Texts(product.images)),
        ("on_sale"@, Bind::Flag(product.on_sale)),
    ]
}

/// The columns of a new product's row.
pub open spec fn new_product_cells(product: ProductRow) -> Seq<Cell> {
    seq![
        ("id"@, Bind::Id(product.id)),
        ("name"@, Bind::Text(product.name)),
        ("description"@, Bind::Text(product.description)),
        ("price"@, Bind::Number(product.price)),
        ("gender"@, Bind::Label(LabelKind::Gender, product.gender)),
        ("condition"@, Bind::Label(LabelKind::Condition, product.condition)),
        ("category"@, Bind::Label(LabelKind::Category, product.category)),
        ("status"@, Bind::Status(product.status)),
        ("images"@, Bind::Texts(product.images)),
        ("on_sale"@, Bind::Flag(product.on_sale)),
    ]
}

/// A new product is stored, and a product is changed, column by column: each column that the text names
/// has the value of the same name.
#[verifier::rlimit(50)]
pub proof fn law_product_written(product: ProductRow)
    ensures
        inserts(
            Query::InsertProduct { product },
            "
            INSERT INTO products ("@,
            new_product_cells(product),
            ")
            VALUES ("@,
            ")
            RETURNING id, name, description, price, gender, condition , category, status, images, on_sale, created_at, updated_at
        "@,
        ),
        changes(
            Query::UpdateProduct { product },
            "
            UPDATE products
            SET "@,
            product_cells(product),
            ", updated_at = NOW()
            WHERE "@,
            seq![("id"@, Bind::Id(product.id))],
            "
            RETURNING *
        "@,
        ),
{
    lemma_placeholders();
    reveal_strlit("$1");
    reveal_strlit("$2");
    reveal_strlit("$3");
    reveal_strlit("$4");
    reveal_strlit("$5");
    reveal_strlit("$6");
    reveal_strlit("$7");
    reveal_strlit("$8");
    reveal_strlit("$9");
    reveal_strlit(", ");
    reveal_strlit("id");
    reveal_strlit(" = ");
    reveal_strlit("$10");
    reveal_strlit("name");
    reveal_strlit(" AND ");
    reveal_strlit("price");
    reveal_strlit("gender");
    reveal_strlit("images");
    reveal_strlit("status");
    reveal_strlit("on_sale");
    reveal_strlit("category");
    reveal_strlit("condition");
    reveal_strlit("description");
    reveal_strlit(")
            VALUES (");
    reveal_strlit("
            RETURNING *
        ");
    reveal_strlit("
            INSERT INTO products (");
    reveal_strlit(", updated_at = NOW()
            WHERE ");
    reveal_strlit("
            UPDATE products
            SET ");
    reveal_strlit(")
            RETURNING id, name, description, price, gender, condition , category, status, images, on_sale, created_at, updated_at
        ");
    reveal_strlit("
            UPDATE products
            SET name = $1, description = $2, price = $3, gender = $4, condition = $5, category = $6, status = $7, images = $8, on_sale = $9, updated_at = NOW()
            WHERE id = $10
            RETURNING *
        ");
    reveal_strlit("
            INSERT INTO products (id, name, description, price, gender, condition, category, status, images, on_sale)
            VALUES ($1, $2, $3, $4, $5, $6, $7, $8, $9, $10)
            RETURNING id, name, description, price, gender, condition , category, status, images, on_sale, created_at, updated_at
        ");
    let cells = new_product_cells(product);
    assert(inserts(
        Query::InsertProduct { product },
        "
            INSERT INTO products ("@,
        cells,
        ")
            VALUES ("@,
        ")
            RETURNING id, name, description, price, gender, condition , category, status, images, on_sale, created_at, updated_at
        "@,
    )) by {
        reveal_with_fuel(listed, 11);
        reveal_with_fuel(markers, 11);
        let text = statement_sql(Query::InsertProduct { product })@;
        assert(text =~= "
            INSERT INTO products ("@ + listed(cells, 10) + ")
            VALUES ("@ + markers(10) + ")
            RETURNING id, name, description, price, gender, condition , category, status, images, on_sale, created_at, updated_at
        "@);
        assert(statement_binds(Query::InsertProduct { product }) =~= values(cells));
    }
    let set = product_cells(product);
    let whose = seq![("id"@, Bind::Id(product.id))];
    assert(changes(
        Query::UpdateProduct { product },
        "
            UPDATE products
            SET "@,
        set,
        ", updated_at = NOW()
            WHERE "@,
        whose,
        "
            RETURNING *
        "@,
    )) by {
        reveal_with_fuel(equations, 10);
        let text = statement_sql(Query::UpdateProduct { product })@;
        assert(text =~= "
            UPDATE products
            SET "@ + equations(set, 1, ", "@, 9) + ", updated_at = NOW()
            WHERE "@
            + equations(whose, 10, " AND "@, 1) + "
            RETURNING *
        "@);
        assert(statement_binds(Query::UpdateProduct { product }) =~= values(set) + values(whose));
    }
}

/// A product is found, locked, looked up in orders and deleted by its id, and its status is set by its id.
pub proof fn law_product_statements(id: Id, status: ProductStatus)
    ensures
        finds(
            Query::SelectProduct { id },
            "SELECT id, name, description, price, gender, condition, category, status, images, on_sale, created_at, updated_at
           FROM products
           WHERE "@,
            seq![("id"@, Bind::Id(id))],
            ""@,
        ),
        finds(
            Query::LockProduct { id },
            "SELECT * FROM products WHERE "@,
            seq![("id"@, Bind::Id(id))],
            " FOR UPDATE"@,
        ),
        finds(
            Query::DeleteProduct { id },
            "DELETE FROM products WHERE "@,
            seq![("id"@, Bind::Id(id))],
            ""@,
        ),
        finds(
            Query::FindProductInOrders { id },
            "SELECT 1 FROM order_items WHERE "@,
            seq![("product_id"@, Bind::Id(id))],
            " LIMIT 1"@,
        ),
        changes(
            Query::SetProductStatus { id, status },
            "
            UPDATE products
            SET "@,
            seq![("status"@, Bind::Status(status))],
            ", updated_at = NOW()
            WHERE "@,
            seq![("id"@, Bind::Id(id))],
            "
        "@,
        ),
{
    lemma_placeholders();
    reveal_strlit("");
    reveal_strlit("$1");
    reveal_strlit("$2");
    reveal_strlit(", ");
    reveal_strlit("id");
    reveal_strlit(" = ");
    reveal_strlit(" AND ");
    reveal_strlit("status");
    reveal_strlit(" LIMIT 1");
    reveal_strlit("
        ");
    reveal_strlit("product_id");
    reveal_strlit(" FOR UPDATE");
    reveal_strlit("DELETE FROM products WHERE ");
    reveal_strlit("SELECT * FROM products WHERE ");
    reveal_strlit("SELECT 1 FROM order_items WHERE ");
    reveal_strlit("DELETE FROM products WHERE id = $1");
    reveal_strlit(", updated_at = NOW()
            WHERE ");
    reveal_strlit("
            UPDATE products
            SET ");
    reveal_strlit("SELECT * FROM products WHERE id = $1 FOR UPDATE");
    reveal_strlit("SELECT 1 FROM order_items WHERE product_id = $1 LIMIT 1");
    reveal_strlit("
            UPDATE products
            SET status = $1, updated_at = NOW()
            WHERE id = $2
        ");
    reveal_strlit("SELECT id, name, description, price, gender, condition, category, status, images, on_sale, created_at, updated_at
           FROM products
           WHERE ");
    reveal_strlit("SELECT id, name, description, price, gender, condition, category, status, images, on_sale, created_at, updated_at
           FROM products
           WHERE id = $1");
    let cells = seq![("id"@, Bind::Id(id))];
    assert(finds(
        Query::SelectProduct { id },
        "SELECT id, name, description, price, gender, condition, category, status, images, on_sale, created_at, updated_at
           FROM products
           WHERE "@,
        cells,
        ""@,
    )) by {
        reveal_with_fuel(equations, 2);
        let text = statement_sql(Query::SelectProduct { id })@;
        assert(text =~= "SELECT id, name, description, price, gender, condition, category, status, images, on_sale, created_at, updated_at
           FROM products
           WHERE "@ + equations(cells, 1, " AND "@, 1) + ""@);
        assert(statement_binds(Query::SelectProduct { id }) =~= values(cells));
    }
    let cells = seq![("id"@, Bind::Id(id))];
    assert(finds(Query::LockProduct { id }, "SELECT * FROM products WHERE "@, cells, " FOR UPDATE"@)) by {
        reveal_with_fuel(equations, 2);
        let text = statement_sql(Query::LockProduct { id })@;
        assert(text =~= "SELECT * FROM products WHERE "@ + equations(cells, 1, " AND "@, 1) + " FOR UPDATE"@);
        assert(statement_binds(Query::LockProduct { id }) =~= values(cells));
    }
    let cells = seq![("id"@, Bind::Id(id))];
    assert(finds(Query::DeleteProduct { id }, "DELETE FROM products WHERE "@, cells, ""@)) by {
        reveal_with_fuel(equations, 2);
        let text = statement_sql(Query::DeleteProduct { id })@;
        assert(text =~= "DELETE FROM products WHERE "@ + equations(cells, 1, " AND "@, 1) + ""@);
        assert(statement_binds(Query::DeleteProduct { id }) =~= values(cells));
    }
    let cells = seq![("product_id"@, Bind::Id(id))];
    assert(finds(
        Query::FindProductInOrders { id },
        "SELECT 1 FROM order_items WHERE "@,
        cells,
        " LIMIT 1"@,
    )) by {
        reveal_with_fuel(equations, 2);
        let text = statement_sql(Query::FindProductInOrders { id })@;
        assert(text =~= "SELECT 1 FROM order_items WHERE "@ + equations(cells, 1, " AND "@, 1) + " LIMIT 1"@);
        assert(statement_binds(Query::FindProductInOrders { id }) =~= values(cells));
    }
    let set = seq![("status"@, Bind::Status(status))];
    let whose = seq![("id"@, Bind::Id(id))];
    assert(changes(
        Query::SetProductStatus { id, status },
        "
            UPDATE products
            SET "@,
        set,
        ", updated_at = NOW()
            WHERE "@,
        whose,
        "
        "@,
    )) by {
        reveal_with_fuel(equations, 2);
        let text = statement_sql(Query::SetProductStatus { id, status })@;
        assert(text =~= "
            UPDATE products
            SET "@ + equations(set, 1, ", "@, 1) + ", updated_at = NOW()
            WHERE "@
            + equations(whose, 2, " AND "@, 1) + "
        "@);
        assert(statement_binds(Query::SetProductStatus { id, status }) =~= values(set) + values(whose));
    }
}

/// A user is found by the email address, and a new one is stored column by column.
pub proof fn law_user_statements(email: String, password_hash: String, role: Role)
    ensures
        finds(
            Query::SelectUser { email },
            "
            SELECT id, email, password_hash, role, created_at, updated_at
            FROM users
            WHERE "@,
            seq![("email"@, Bind::Text(email))],
            "
        "@,
        ),
        inserts(
            Query::InsertUser { email, password_hash, role },
            "INSERT INTO users ("@,
            seq![
                ("email"@, Bind::Text(email)),
                ("password_hash"@, Bind::Text(password_hash)),
                ("role"@, Bind::Role(role)),
            ],
            ") 
           VALUES ("@,
            ")
           RETURNING id, email, password_hash, role, created_at, updated_at"@,
        ),
{
    lemma_placeholders();
    reveal_strlit("$1");
    reveal_strlit("$2");
    reveal_strlit("$3");
    reveal_strlit(", ");
    reveal_strlit(" = ");
    reveal_strlit("role");
    reveal_strlit(" AND ");
    reveal_strlit("email");
    reveal_strlit("
        ");
    reveal_strlit("password_hash");
    reveal_strlit("INSERT INTO users (");
    reveal_strlit(") 
           VALUES (");
    reveal_strlit(")
           RETURNING id, email, password_hash, role, created_at, updated_at");
    reveal_strlit("
            SELECT id, email, password_hash, role, created_at, updated_at
            FROM users
            WHERE ");
    reveal_strlit("
            SELECT id, email, password_hash, role, created_at, updated_at
            FROM users
            WHERE email = $1
        ");
    reveal_strlit("INSERT INTO users (email, password_hash, role) 
           VALUES ($1, $2, $3)
           RETURNING id, email, password_hash, role, created_at, updated_at");
    let cells = seq![("email"@, Bind::Text(email))];
    assert(finds(
        Query::SelectUser { email },
        "
            SELECT id, email, password_hash, role, created_at, updated_at
            FROM users
            WHERE "@,
        cells,
        "
        "@,
    )) by {
        reveal_with_fuel(equations, 2);
        let text = statement_sql(Query::SelectUser { email })@;
        assert(text =~= "
            SELECT id, email, password_hash, role, created_at, updated_at
            FROM users
            WHERE "@ + equations(cells, 1, " AND "@, 1) + "
        "@);
        assert(statement_binds(Query::SelectUser { email }) =~= values(cells));
    }
    let cells = seq![
        ("email"@, Bind::Text(email)),
        ("password_hash"@, Bind::Text(password_hash)),
        ("role"@, Bind::Role(role)),
    ];
    assert(inserts(
        Query::InsertUser { email, password_hash, role },
        "INSERT INTO users ("@,
        cells,
        ") 
           VALUES ("@,
        ")
           RETURNING id, email, password_hash, role, created_at, updated_at"@,
    )) by {
        reveal_with_fuel(listed, 4);
        reveal_with_fuel(markers, 4);
        let text = statement_sql(Query::InsertUser { email, password_hash, role })@;
        assert(text =~= "INSERT INTO users ("@ + listed(cells, 3) + ") 
           VALUES ("@ + markers(3) + ")
           RETURNING id, email, password_hash, role, created_at, updated_at"@);
        assert(statement_binds(Query::InsertUser { email, password_hash, role }) =~= values(cells));
    }
}

/// A cart is found by its owner or its id, made for its owner, cut off from its guest, and deleted.
pub proof fn law_cart_statements(id: Id, user_id: Id)
    ensures
        finds(
            Query::SelectCart { owner: CartOwner::User(id), lock: false },
            "SELECT * FROM shopping_carts WHERE "@,
            seq![("user_id"@, Bind::Id(id))],
            ""@,
        ),
        finds(
            Query::SelectCart { owner: CartOwner::User(id), lock: true },
            "SELECT * FROM shopping_carts WHERE "@,
            seq![("user_id"@, Bind::Id(id))],
            " FOR UPDATE"@,
        ),
        inserts(
            Query::InsertCart { owner: CartOwner::User(id) },
            "INSERT INTO shopping_carts ("@,
            seq![("user_id"@, Bind::Id(id))],
            ") VALUES ("@,
            ") RETURNING *"@,
        ),
        finds(
            Query::SelectCart { owner: CartOwner::Guest(id), lock: false },
            "SELECT * FROM shopping_carts WHERE "@,
            seq![("guest_session_id"@, Bind::Id(id))],
            ""@,
        ),
        finds(
            Query::SelectCart { owner: CartOwner::Guest(id), lock: true },
            "SELECT * FROM shopping_carts WHERE "@,
            seq![("guest_session_id"@, Bind::Id(id))],
            " FOR UPDATE"@,
        ),
        inserts(
            Query::InsertCart { owner: CartOwner::Guest(id) },
            "INSERT INTO shopping_carts ("@,
            seq![("guest_session_id"@, Bind::Id(id))],
            ") VALUES ("@,
            ") RETURNING *"@,
        ),
        finds(
            Query::SelectCartById { id },
            "SELECT * FROM shopping_carts WHERE "@,
            seq![("id"@, Bind::Id(id))],
            ""@,
        ),
        finds(
            Query::DeleteCart { id },
            "DELETE FROM shopping_carts WHERE "@,
            seq![("id"@, Bind::Id(id))],
            ""@,
        ),
        finds(
            Query::DetachGuest { cart_id: id, user_id },
            "UPDATE shopping_carts SET guest_session_id = NULL WHERE "@,
            seq![("id"@, Bind::Id(id)), ("user_id"@, Bind::Id(user_id))],
            ""@,
        ),
{
    lemma_placeholders();
    reveal_strlit("");
    reveal_strlit("$1");
    reveal_strlit("$2");
    reveal_strlit(", ");
    reveal_strlit("id");
    reveal_strlit(" = ");
    reveal_strlit(" AND ");
    reveal_strlit("user_id");
    reveal_strlit(") VALUES (");
    reveal_strlit(" FOR UPDATE");
    reveal_strlit(") RETURNING *");
    reveal_strlit("guest_session_id");
    reveal_strlit("INSERT INTO shopping_carts (");
    reveal_strlit("DELETE FROM shopping_carts WHERE ");
    reveal_strlit("SELECT * FROM shopping_carts WHERE ");
    reveal_strlit("DELETE FROM shopping_carts WHERE id = $1");
    reveal_strlit("SELECT * FROM shopping_carts WHERE id = $1");
    reveal_strlit("SELECT * FROM shopping_carts WHERE user_id = $1");
    reveal_strlit("SELECT * FROM shopping_carts WHERE guest_session_id = $1");
    reveal_strlit("UPDATE shopping_carts SET guest_session_id = NULL WHERE ");
    reveal_strlit("SELECT * FROM shopping_carts WHERE user_id = $1 FOR UPDATE");
    reveal_strlit("INSERT INTO shopping_carts (user_id) VALUES ($1) RETURNING *");
    reveal_strlit("SELECT * FROM shopping_carts WHERE guest_session_id = $1 FOR UPDATE");
    reveal_strlit("INSERT INTO shopping_carts (guest_session_id) VALUES ($1) RETURNING *");
    reveal_strlit(
        "UPDATE shopping_carts SET guest_session_id = NULL WHERE id = $1 AND user_id = $2",
    );
    let cells = seq![("user_id"@, Bind::Id(id))];
    assert(finds(
        Query::SelectCart { owner: CartOwner::User(id), lock: false },
        "SELECT * FROM shopping_carts WHERE "@,
        cells,
        ""@,
    )) by {
        reveal_with_fuel(equations, 2);
        let text = statement_sql(Query::SelectCart { owner: CartOwner::User(id), lock: false })@;
        assert(text =~= "SELECT * FROM shopping_carts WHERE "@ + equations(cells, 1, " AND "@, 1) + ""@);
        assert(statement_binds(Query::SelectCart { owner: CartOwner::User(id), lock: false }) =~= values(cells));
    }
    let cells = seq![("user_id"@, Bind::Id(id))];
    assert(finds(
        Query::SelectCart { owner: CartOwner::User(id), lock: true },
        "SELECT * FROM shopping_carts WHERE "@,
        cells,
        " FOR UPDATE"@,
    )) by {
        reveal_with_fuel(equations, 2);
        let text = statement_sql(Query::SelectCart { owner: CartOwner::User(id), lock: true })@;
        assert(text =~= "SELECT * FROM shopping_carts WHERE "@ + equations(cells, 1, " AND "@, 1) + " FOR UPDATE"@);
        assert(statement_binds(Query::SelectCart { owner: CartOwner::User(id), lock: true }) =~= values(cells));
    }
    let cells = seq![("user_id"@, Bind::Id(id))];
    assert(inserts(
        Query::InsertCart { owner: CartOwner::User(id) },
        "INSERT INTO shopping_carts ("@,
        cells,
        ") VALUES ("@,
        ") RETURNING *"@,
    )) by {
        reveal_with_fuel(listed, 2);
        reveal_with_fuel(markers, 2);
        let text = statement_sql(Query::InsertCart { owner: CartOwner::User(id) })@;
        assert(text =~= "INSERT INTO shopping_carts ("@ + listed(cells, 1) + ") VALUES ("@ + markers(1) + ") RETURNING *"@);
        assert(statement_binds(Query::InsertCart { owner: CartOwner::User(id) }) =~= values(cells));
    }
    let cells = seq![("guest_session_id"@, Bind::Id(id))];
    assert(finds(
        Query::SelectCart { owner: CartOwner::Guest(id), lock: false },
        "SELECT * FROM shopping_carts WHERE "@,
        cells,
        ""@,
    )) by {
        reveal_with_fuel(equations, 2);
        let text = statement_sql(Query::SelectCart { owner: CartOwner::Guest(id), lock: false })@;
        assert(text =~= "SELECT * FROM shopping_carts WHERE "@ + equations(cells, 1, " AND "@, 1) + ""@);
        assert(statement_binds(Query::SelectCart { owner: CartOwner::Guest(id), lock: false }) =~= values(cells));
    }
    let cells = seq![("guest_session_id"@, Bind::Id(id))];
    assert(finds(
        Query::SelectCart { owner: CartOwner::Guest(id), lock: true },
        "SELECT * FROM shopping_carts WHERE "@,
        cells,
        " FOR UPDATE"@,
    )) by {
        reveal_with_fuel(equations, 2);
        let text = statement_sql(Query::SelectCart { owner: CartOwner::Guest(id), lock: true })@;
        assert(text =~= "SELECT * FROM shopping_carts WHERE "@ + equations(cells, 1, " AND "@, 1) + " FOR UPDATE"@);
        assert(statement_binds(Query::SelectCart { owner: CartOwner::Guest(id), lock: true }) =~= values(cells));
    }
    let cells = seq![("guest_session_id"@, Bind::Id(id))];
    assert(inserts(
        Query::InsertCart { owner: CartOwner::Guest(id) },
        "INSERT INTO shopping_carts ("@,
        cells,
        ") VALUES ("@,
        ") RETURNING *"@,
    )) by {
        reveal_with_fuel(listed, 2);
        reveal_with_fuel(markers, 2);
        let text = statement_sql(Query::InsertCart { owner: CartOwner::Guest(id) })@;
        assert(text =~= "INSERT INTO shopping_carts ("@ + listed(cells, 1) + ") VALUES ("@ + markers(1) + ") RETURNING *"@);
        assert(statement_binds(Query::InsertCart { owner: CartOwner::Guest(id) }) =~= values(cells));
    }
    let cells = seq![("id"@, Bind::Id(id))];
    assert(finds(Query::SelectCartById { id }, "SELECT * FROM shopping_carts WHERE "@, cells, ""@)) by {
        reveal_with_fuel(equations, 2);
        let text = statement_sql(Query::SelectCartById { id })@;
        assert(text =~= "SELECT * FROM shopping_carts WHERE "@ + equations(cells, 1, " AND "@, 1) + ""@);
        assert(statement_binds(Query::SelectCartById { id }) =~= values(cells));
    }
    let cells = seq![("id"@, Bind::Id(id))];
    assert(finds(Query::DeleteCart { id }, "DELETE FROM shopping_carts WHERE "@, cells, ""@)) by {
        reveal_with_fuel(equations, 2);
        let text = statement_sql(Query::DeleteCart { id })@;
        assert(text =~= "DELETE FROM shopping_carts WHERE "@ + equations(cells, 1, " AND "@, 1) + ""@);
        assert(statement_binds(Query::DeleteCart { id }) =~= values(cells));
    }
    let cells = seq![("id"@, Bind::Id(id)), ("user_id"@, Bind::Id(user_id))];
    assert(finds(
        Query::DetachGuest { cart_id: id, user_id },
        "UPDATE shopping_carts SET guest_session_id = NULL WHERE "@,
        cells,
        ""@,
    )) by {
        reveal_with_fuel(equations, 3);
        let text = statement_sql(Query::DetachGuest { cart_id: id, user_id })@;
        assert(text =~= "UPDATE shopping_carts SET guest_session_id = NULL WHERE "@ + equations(cells, 1, " AND "@, 2) + ""@);
        assert(statement_binds(Query::DetachGuest { cart_id: id, user_id }) =~= values(cells));
    }
}

/// The items of a cart are found, stored, deleted, and moved to another cart, by cart and product.
pub proof fn law_cart_item_statements(cart_id: Id, product_id: Id, from: Id)
    ensures
        finds(
            Query::SelectCartItems { cart_id },
            "SELECT * FROM cart_items WHERE "@,
            seq![("cart_id"@, Bind::Id(cart_id))],
            " FOR UPDATE"@,
        ),
        finds(
            Query::DeleteCartItems { cart_id },
            "DELETE FROM cart_items WHERE "@,
            seq![("cart_id"@, Bind::Id(cart_id))],
            ""@,
        ),
        finds(
            Query::DeleteCartItem { cart_id, product_id },
            "DELETE FROM cart_items WHERE "@,
            seq![("cart_id"@, Bind::Id(cart_id)), ("product_id"@, Bind::Id(product_id))],
            ""@,
        ),
        inserts(
            Query::InsertCartItem { cart_id, product_id },
            "INSERT INTO cart_items ("@,
            seq![("cart_id"@, Bind::Id(cart_id)), ("product_id"@, Bind::Id(product_id))],
            ") VALUES ("@,
            ") ON CONFLICT (cart_id, product_id) DO NOTHING"@,
        ),
        changes(
            Query::MoveCartItems { to: cart_id, from },
            "
                    UPDATE cart_items
                    SET "@,
            seq![("cart_id"@, Bind::Id(cart_id))],
            "
                    WHERE "@,
            seq![("cart_id"@, Bind::Id(from))],
            " AND product_id NOT IN (
                        SELECT product_id FROM cart_items WHERE cart_id = $1
                    )
                "@,
        ),
{
    lemma_placeholders();
    reveal_strlit("");
    reveal_strlit("$1");
    reveal_strlit("$2");
    reveal_strlit(", ");
    reveal_strlit(" = ");
    reveal_strlit(" AND ");
    reveal_strlit("cart_id");
    reveal_strlit(") VALUES (");
    reveal_strlit("product_id");
    reveal_strlit(" FOR UPDATE");
    reveal_strlit("INSERT INTO cart_items (");
    reveal_strlit("
                    WHERE ");
    reveal_strlit("DELETE FROM cart_items WHERE ");
    reveal_strlit("SELECT * FROM cart_items WHERE ");
    reveal_strlit("DELETE FROM cart_items WHERE cart_id = $1");
    reveal_strlit(") ON CONFLICT (cart_id, product_id) DO NOTHING");
    reveal_strlit("SELECT * FROM cart_items WHERE cart_id = $1 FOR UPDATE");
    reveal_strlit("DELETE FROM cart_items WHERE cart_id = $1 AND product_id = $2");
    reveal_strlit("
                    UPDATE cart_items
                    SET ");
    reveal_strlit(
        "INSERT INTO cart_items (cart_id, product_id) VALUES ($1, $2) ON CONFLICT (cart_id, product_id) DO NOTHING",
    );
    reveal_strlit(" AND product_id NOT IN (
                        SELECT product_id FROM cart_items WHERE cart_id = $1
                    )
                ");
    reveal_strlit("
                    UPDATE cart_items
                    SET cart_id = $1
                    WHERE cart_id = $2 AND product_id NOT IN (
                        SELECT product_id FROM cart_items WHERE cart_id = $1
                    )
                ");
    let cells = seq![("cart_id"@, Bind::Id(cart_id))];
    assert(finds(
        Query::SelectCartItems { cart_id },
        "SELECT * FROM cart_items WHERE "@,
        cells,
        " FOR UPDATE"@,
    )) by {
        reveal_with_fuel(equations, 2);
        let text = statement_sql(Query::SelectCartItems { cart_id })@;
        assert(text =~= "SELECT * FROM cart_items WHERE "@ + equations(cells, 1, " AND "@, 1) + " FOR UPDATE"@);
        assert(statement_binds(Query::SelectCartItems { cart_id }) =~= values(cells));
    }
    let cells = seq![("cart_id"@, Bind::Id(cart_id))];
    assert(finds(Query::DeleteCartItems { cart_id }, "DELETE FROM cart_items WHERE "@, cells, ""@)) by {
        reveal_with_fuel(equations, 2);
        let text = statement_sql(Query::DeleteCartItems { cart_id })@;
        assert(text =~= "DELETE FROM cart_items WHERE "@ + equations(cells, 1, " AND "@, 1) + ""@);
        assert(statement_binds(Query::DeleteCartItems { cart_id }) =~= values(cells));
    }
    let cells = seq![("cart_id"@, Bind::Id(cart_id)), ("product_id"@, Bind::Id(product_id))];
    assert(finds(
        Query::DeleteCartItem { cart_id, product_id },
        "DELETE FROM cart_items WHERE "@,
        cells,
        ""@,
    )) by {
        reveal_with_fuel(equations, 3);
        let text = statement_sql(Query::DeleteCartItem { cart_id, product_id })@;
        assert(text =~= "DELETE FROM cart_items WHERE "@ + equations(cells, 1, " AND "@, 2) + ""@);
        assert(statement_binds(Query::DeleteCartItem { cart_id, product_id }) =~= values(cells));
    }
    let cells = seq![("cart_id"@, Bind::Id(cart_id)), ("product_id"@, Bind::Id(product_id))];
    assert(inserts(
        Query::InsertCartItem { cart_id, product_id },
        "INSERT INTO cart_items ("@,
        cells,
        ") VALUES ("@,
        ") ON CONFLICT (cart_id, product_id) DO NOTHING"@,
    )) by {
        reveal_with_fuel(listed, 3);
        reveal_with_fuel(markers, 3);
        let text = statement_sql(Query::InsertCartItem { cart_id, product_id })@;
        assert(text =~= "INSERT INTO cart_items ("@ + listed(cells, 2) + ") VALUES ("@ + markers(2) + ") ON CONFLICT (cart_id, product_id) DO NOTHING"@);
        assert(statement_binds(Query::InsertCartItem { cart_id, product_id }) =~= values(cells));
    }
    let set = seq![("cart_id"@, Bind::Id(cart_id))];
    let whose = seq![("cart_id"@, Bind::Id(from))];
    assert(changes(
        Query::MoveCartItems { to: cart_id, from },
        "
                    UPDATE cart_items
                    SET "@,
        set,
        "
                    WHERE "@,
        whose,
        " AND product_id NOT IN (
                        SELECT product_id FROM cart_items WHERE cart_id = $1
                    )
                "@,
    )) by {
        reveal_with_fuel(equations, 2);
        let text = statement_sql(Query::MoveCartItems { to: cart_id, from })@;
        assert(text =~= "
                    UPDATE cart_items
                    SET "@ + equations(set, 1, ", "@, 1) + "
                    WHERE "@
            + equations(whose, 2, " AND "@, 1) + " AND product_id NOT IN (
                        SELECT product_id FROM cart_items WHERE cart_id = $1
                    )
                "@);
        assert(statement_binds(Query::MoveCartItems { to: cart_id, from }) =~= values(set) + values(whose));
    }
}

/// An order and its items are found and deleted by the order's id, its status is set by that id, and an item
/// is stored column by column.
pub proof fn law_order_statements(id: Id, product_id: Id, price: i64, order_status: OrderStatus)
    ensures
        finds(
            Query::SelectOrder { id },
            "SELECT * FROM orders WHERE "@,
            seq![("id"@, Bind::Id(id))],
            ""@,
        ),
        finds(
            Query::DeleteOrder { id },
            "DELETE FROM orders WHERE "@,
            seq![("id"@, Bind::Id(id))],
            ""@,
        ),
        finds(
            Query::SelectOrderItems { order_id: id },
            "SELECT * FROM order_items WHERE "@,
            seq![("order_id"@, Bind::Id(id))],
            ""@,
        ),
        finds(
            Query::SelectOrderProducts { order_id: id },
            "SELECT product_id FROM order_items WHERE "@,
            seq![("order_id"@, Bind::Id(id))],
            ""@,
        ),
        finds(
            Query::DeleteOrderItems { order_id: id },
            "DELETE FROM order_items WHERE "@,
            seq![("order_id"@, Bind::Id(id))],
            ""@,
        ),
        inserts(
            Query::InsertOrderItem { order_id: id, product_id, price },
            "INSERT INTO order_items ("@,
            seq![
                ("order_id"@, Bind::Id(id)),
                ("product_id"@, Bind::Id(product_id)),
                ("price_at_purchase"@, Bind::Number(price)),
            ],
            ") VALUES ("@,
            ")"@,
        ),
        changes(
            Query::UpdateOrderStatus { id, order_status },
            "
            UPDATE orders
            SET "@,
            seq![("status"@, Bind::OrderStatus(order_status))],
            ", updated_at = CURRENT_TIMESTAMP
            WHERE "@,
            seq![("id"@, Bind::Id(id))],
            "
            RETURNING *
        "@,
        ),
{
    lemma_placeholders();
    reveal_strlit("");
    reveal_strlit(")");
    reveal_strlit("$1");
    reveal_strlit("$2");
    reveal_strlit("$3");
    reveal_strlit(", ");
    reveal_strlit("id");
    reveal_strlit(" = ");
    reveal_strlit(" AND ");
    reveal_strlit("status");
    reveal_strlit("order_id");
    reveal_strlit(") VALUES (");
    reveal_strlit("product_id");
    reveal_strlit("price_at_purchase");
    reveal_strlit("DELETE FROM orders WHERE ");
    reveal_strlit("INSERT INTO order_items (");
    reveal_strlit("SELECT * FROM orders WHERE ");
    reveal_strlit("DELETE FROM order_items WHERE ");
    reveal_strlit("DELETE FROM orders WHERE id = $1");
    reveal_strlit("SELECT * FROM order_items WHERE ");
    reveal_strlit("
            RETURNING *
        ");
    reveal_strlit("SELECT * FROM orders WHERE id = $1");
    reveal_strlit("SELECT product_id FROM order_items WHERE ");
    reveal_strlit("
            UPDATE orders
            SET ");
    reveal_strlit("DELETE FROM order_items WHERE order_id = $1");
    reveal_strlit("SELECT * FROM order_items WHERE order_id = $1");
    reveal_strlit(", updated_at = CURRENT_TIMESTAMP
            WHERE ");
    reveal_strlit("SELECT product_id FROM order_items WHERE order_id = $1");
    reveal_strlit(
        "INSERT INTO order_items (order_id, product_id, price_at_purchase) VALUES ($1, $2, $3)",
    );
    reveal_strlit("
            UPDATE orders
            SET status = $1, updated_at = CURRENT_TIMESTAMP
            WHERE id = $2
            RETURNING *
        ");
    let cells = seq![("id"@, Bind::Id(id))];
    assert(finds(Query::SelectOrder { id }, "SELECT * FROM orders WHERE "@, cells, ""@)) by {
        reveal_with_fuel(equations, 2);
        let text = statement_sql(Query::SelectOrder { id })@;
        assert(text =~= "SELECT * FROM orders WHERE "@ + equations(cells, 1, " AND "@, 1) + ""@);
        assert(statement_binds(Query::SelectOrder { id }) =~= values(cells));
    }
    let cells = seq![("id"@, Bind::Id(id))];
    assert(finds(Query::DeleteOrder { id }, "DELETE FROM orders WHERE "@, cells, ""@)) by {
        reveal_with_fuel(equations, 2);
        let text = statement_sql(Query::DeleteOrder { id })@;
        assert(text =~= "DELETE FROM orders WHERE "@ + equations(cells, 1, " AND "@, 1) + ""@);
        assert(statement_binds(Query::DeleteOrder { id }) =~= values(cells));
    }
    let cells = seq![("order_id"@, Bind::Id(id))];
    assert(finds(
        Query::SelectOrderItems { order_id: id },
        "SELECT * FROM order_items WHERE "@,
        cells,
        ""@,
    )) by {
        reveal_with_fuel(equations, 2);
        let text = statement_sql(Query::SelectOrderItems { order_id: id })@;
        assert(text =~= "SELECT * FROM order_items WHERE "@ + equations(cells, 1, " AND "@, 1) + ""@);
        assert(statement_binds(Query::SelectOrderItems { order_id: id }) =~= values(cells));
    }
    let cells = seq![("order_id"@, Bind::Id(id))];
    assert(finds(
        Query::SelectOrderProducts { order_id: id },
        "SELECT product_id FROM order_items WHERE "@,
        cells,
        ""@,
    )) by {
        reveal_with_fuel(equations, 2);
        let text = statement_sql(Query::SelectOrderProducts { order_id: id })@;
        assert(text =~= "SELECT product_id FROM order_items WHERE "@ + equations(cells, 1, " AND "@, 1) + ""@);
        assert(statement_binds(Query::SelectOrderProducts { order_id: id }) =~= values(cells));
    }
    let cells = seq![("order_id"@, Bind::Id(id))];
    assert(finds(Query::DeleteOrderItems { order_id: id }, "DELETE FROM order_items WHERE "@, cells, ""@)) by {
        reveal_with_fuel(equations, 2);
        let text = statement_sql(Query::DeleteOrderItems { order_id: id })@;
        assert(text =~= "DELETE FROM order_items WHERE "@ + equations(cells, 1, " AND "@, 1) + ""@);
        assert(statement_binds(Query::DeleteOrderItems { order_id: id }) =~= values(cells));
    }
    let cells = seq![
        ("order_id"@, Bind::Id(id)),
        ("product_id"@, Bind::Id(product_id)),
        ("price_at_purchase"@, Bind::Number(price)),
    ];
    assert(inserts(
        Query::InsertOrderItem { order_id: id, product_id, price },
        "INSERT INTO order_items ("@,
        cells,
        ") VALUES ("@,
        ")"@,
    )) by {
        reveal_with_fuel(listed, 4);
        reveal_with_fuel(markers, 4);
        let text = statement_sql(Query::InsertOrderItem { order_id: id, product_id, price })@;
        assert(text =~= "INSERT INTO order_items ("@ + listed(cells, 3) + ") VALUES ("@ + markers(3) + ")"@);
        assert(statement_binds(Query::InsertOrderItem { order_id: id, product_id, price }) =~= values(cells));
    }
    let set = seq![("status"@, Bind::OrderStatus(order_status))];
    let whose = seq![("id"@, Bind::Id(id))];
    assert(changes(
        Query::UpdateOrderStatus { id, order_status },
        "
            UPDATE orders
            SET "@,
        set,
        ", updated_at = CURRENT_TIMESTAMP
            WHERE "@,
        whose,
        "
            RETURNING *
        "@,
    )) by {
        reveal_with_fuel(equations, 2);
        let text = statement_sql(Query::UpdateOrderStatus { id, order_status })@;
        assert(text =~= "
            UPDATE orders
            SET "@ + equations(set, 1, ", "@, 1) + ", updated_at = CURRENT_TIMESTAMP
            WHERE "@
            + equations(whose, 2, " AND "@, 1) + "
            RETURNING *
        "@);
        assert(statement_binds(Query::UpdateOrderStatus { id, order_status }) =~= values(set) + values(whose));
    }
}

} // verus!
