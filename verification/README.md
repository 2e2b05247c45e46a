# storefront

The decision logic of a small shop, verified with Verus: its catalogue, carts, orders and accounts.

A request is answered step by step. A handler in `src/handlers` names a command to be performed (a
query, a transaction boundary, an upload, a password check) and keeps its stage. What came of the
command takes it to the next step, until it ends with an answer or an error. Each stage says, as a
relation, which step follows which reply, and each handler is proved to follow it.

- `src/protocol.rs`: commands, replies, steps, answers and errors.
- `src/handlers/`: the requests.
- `src/statements.rs`, `src/sql.rs`: the SQL of each query, fixed or put together at run time.
- `src/messages.rs`, `src/headers.rs`, `src/json.rs`: what a page is told.
- `src/ids.rs`, `src/text.rs`, `src/pages.rs`: identifiers, texts, page numbers.
- `src/store.rs`: a model of the tables, and how a request runs against them on its own.
- `src/laws/`: what whole requests leave in the tables, for every form and whatever fails on the
  way, and what their answers have in common.
- `app/`: the shop over HTTP: routes, the database, and the loop that performs commands.

A gender, condition, category, status or payment method is held as the label that the database
stores. Points in time are microseconds since 1970, prices hundredths.
