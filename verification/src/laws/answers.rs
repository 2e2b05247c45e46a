//! What answers have in common, and what they do not give away.
use crate::handlers::accounts::{Login, Register};
use crate::handlers::create_order::{order_placed, order_placed_answer, shipping_trigger, unusable};
use crate::handlers::orders::status_changed;
use crate::handlers::products::{reload_events, reload_headers};
use crate::headers::{no_headers, with_header};
use crate::ids::{lemma_uuid_text_plain, uuid_text, Id};
use crate::json::{
    free_of_delete, json_text, law_json_text_fits_header, members_free_of_delete, Json,
};
use crate::messages::{shown, toast_json, with_trigger};
use crate::models::{LoginPayload, User};
use crate::protocol::{seen, Reply, Stage, Step};
use crate::sql::{bounds_of, narrowed, paged, sql_of, Bound, Piece};
use vstd::prelude::*;

verus! {

/// Whether the email address is unknown or the password wrong, the answer is the same.
pub proof fn law_login_does_not_tell_why(
    payload: LoginPayload,
    user: User,
    unknown: Step<Login>,
    wrong: Step<Login>,
)
    requires
        Login::LookingUp(payload).follows(Reply::User(None), unknown),
        (Login::Verifying { user }).follows(Reply::Verified(false), wrong),
    ensures
        unknown matches Step::Finish(one) && wrong matches Step::Finish(other) && seen(one) == seen(
            other,
        ),
{
}

/// The answer to a registration is the same whatever the password hash.
pub proof fn law_registration_hides_hash(
    user: User,
    other: User,
    answer: Step<Register>,
    other_answer: Step<Register>,
)
    requires
        other == (User { password_hash: other.password_hash, ..user }),
        Register::Adding.follows(Reply::User(Some(user)), answer),
        Register::Adding.follows(Reply::User(Some(other)), other_answer),
    ensures
        answer matches Step::Finish(one) && other_answer matches Step::Finish(two) && seen(one)
            == seen(two),
{
}

/// A message that is free of the DEL character reaches the page.
pub proof fn law_message_reaches_page(message: Seq<char>, kind: Seq<char>)
    requires
        !message.contains('\u{7f}'),
        !kind.contains('\u{7f}'),
    ensures
        with_trigger(no_headers(), toast_json(message, kind)) == with_header(
            no_headers(),
            "HX-Trigger"@,
            json_text(toast_json(message, kind)),
        ),
{
    lemma_shown_free(message, kind);
    reveal_strlit("showMessage");
    let members = seq![("showMessage"@, shown(message, kind))];
    assert(members.drop_last() =~= Seq::empty());
    assert(members_free_of_delete(members.drop_last()));
    assert(members_free_of_delete(members));
    law_json_text_fits_header(toast_json(message, kind));
}

proof fn lemma_shown_free(message: Seq<char>, kind: Seq<char>)
    requires
        !message.contains('\u{7f}'),
        !kind.contains('\u{7f}'),
    ensures
        free_of_delete(shown(message, kind)),
{
    reveal_strlit("message");
    reveal_strlit("type");
    let members = seq![("message"@, Json::Text(message)), ("type"@, Json::Text(kind))];
    lemma_two_free(members);
}

proof fn lemma_two_free(members: Seq<(Seq<char>, Json)>)
    requires
        members.len() == 2,
        !members[0].0.contains('\u{7f}'),
        !members[1].0.contains('\u{7f}'),
        free_of_delete(members[0].1),
        free_of_delete(members[1].1),
    ensures
        members_free_of_delete(members),
{
    assert(members.drop_last().drop_last() =~= Seq::empty());
    assert(members_free_of_delete(members.drop_last().drop_last()));
    assert(members_free_of_delete(members.drop_last()));
}

/// Where the message is free of the DEL character, the list of products is loaded again and the message
/// is shown.
pub proof fn law_list_is_loaded_again(message: Seq<char>)
    requires
        !message.contains('\u{7f}'),
    ensures
        reload_headers(message) == with_header(
            no_headers(),
            "HX-Trigger"@,
            json_text(reload_events(message)),
        ),
{
    reveal_strlit("reloadAdminProductList");
    reveal_strlit("showMessage");
    reveal_strlit("success");
    lemma_shown_free(message, "success"@);
    lemma_two_free(reload_events(message)->Object_0);
    law_json_text_fits_header(reload_events(message));
    assert(reload_headers(message) =~= with_header(
        no_headers(),
        "HX-Trigger"@,
        json_text(reload_events(message)),
    ));
}

/// Whoever changes an order's status has the list of orders loaded again and a message shown.
pub proof fn law_order_list_is_loaded_again()
    ensures
        with_trigger(no_headers(), status_changed()) == with_header(
            no_headers(),
            "HX-Trigger"@,
            json_text(status_changed()),
        ),
{
    reveal_strlit("reloadAdminOrderList");
    reveal_strlit("showMessage");
    reveal_strlit("success");
    reveal_strlit("Status zamowienia zostal pomyslnie zaktualizowany.");
    lemma_shown_free("Status zamowienia zostal pomyslnie zaktualizowany."@, "success"@);
    lemma_two_free(status_changed()->Object_0);
    law_json_text_fits_header(status_changed());
}

/// Who placed an order is told so: the events always may stand in a header.
pub proof fn law_order_placed_is_told(order_id: Id)
    ensures
        order_placed_answer(order_id) is Ok,
{
    reveal_strlit("clearCartDisplay");
    reveal_strlit("orderPlaced");
    reveal_strlit("showMessage");
    reveal_strlit("orderId");
    reveal_strlit("redirectTo");
    reveal_strlit("/");
    reveal_strlit("Twoje zamowienie zostalo pomyslnie zlozone!");
    reveal_strlit("success");
    lemma_uuid_text_plain(order_id);
    assert(!uuid_text(order_id).contains('\u{7f}'));
    let members = order_placed(order_id)->Object_0;
    lemma_shown_free("Twoje zamowienie zostalo pomyslnie zlozone!"@, "success"@);
    lemma_two_free(members[1].1->Object_0);
    assert(members_free_of_delete(Seq::empty()));
    lemma_two_free(members.drop_last());
    assert(members_free_of_delete(members));
    law_json_text_fits_header(order_placed(order_id));
}

/// Who asks for an unknown way to ship is told so: the events always may stand in a header.
pub proof fn law_unknown_shipping_is_told(fault: Seq<char>)
    ensures
        unusable(shipping_trigger(), fault) is Ok,
{
    reveal_strlit(
        "{{\"showMessage\": {{\"message\": \"Proszę wybrać prawidłową metodę dostawy.\", \"type\": \"error\"}}}}",
    );
}

proof fn lemma_same_narrowing(one: Seq<char>, other: Seq<char>, conditions: Seq<Seq<Piece>>)
    ensures
        narrowed(one, conditions).len() == narrowed(other, conditions).len() >= 1,
        narrowed(one, conditions)[0] == Piece::Sql(one),
        narrowed(one, conditions).skip(1) == narrowed(other, conditions).skip(1),
        narrowed(other, conditions)[0] == Piece::Sql(other),
    decreases conditions.len(),
{
    if conditions.len() > 0 {
        lemma_same_narrowing(one, other, conditions.drop_last());
        let left = narrowed(one, conditions.drop_last());
        let right = narrowed(other, conditions.drop_last());
        assert forall|i: int| 1 <= i < left.len() implies left[i] == right[i] by {
            assert(left.skip(1)[i - 1] == right.skip(1)[i - 1]);
        }
        assert(narrowed(one, conditions).skip(1) =~= narrowed(other, conditions).skip(1));
    }
}

proof fn lemma_text_after_base(left: Seq<Piece>, right: Seq<Piece>)
    requires
        left.len() == right.len() >= 1,
        left[0] is Sql,
        right[0] is Sql,
        left.skip(1) == right.skip(1),
    ensures
        bounds_of(left) == bounds_of(right),
        sql_of(left).skip(left[0]->Sql_0.len() as int) == sql_of(right).skip(
            right[0]->Sql_0.len() as int,
        ),
        sql_of(left).len() >= left[0]->Sql_0.len(),
        sql_of(right).len() >= right[0]->Sql_0.len(),
    decreases left.len(),
{
    let a = left[0]->Sql_0;
    let b = right[0]->Sql_0;
    if left.len() == 1 {
        assert(left.drop_last() =~= Seq::empty());
        assert(right.drop_last() =~= Seq::empty());
        assert(bounds_of(left.drop_last()) == bounds_of(right.drop_last()));
        assert(sql_of(left) =~= a);
        assert(sql_of(right) =~= b);
        assert(sql_of(left).skip(a.len() as int) =~= Seq::empty());
        assert(sql_of(right).skip(b.len() as int) =~= Seq::empty());
    } else {
        assert(left.drop_last().skip(1) =~= left.skip(1).drop_last());
        assert(right.drop_last().skip(1) =~= right.skip(1).drop_last());
        lemma_text_after_base(left.drop_last(), right.drop_last());
        assert(left.last() == left.skip(1).last());
        assert(right.last() == right.skip(1).last());
        let tail = match left.last() {
            Piece::Sql(sql) => sql,
            Piece::Bind(_) => crate::sql::placeholder(bounds_of(left).len()),
        };
        assert(sql_of(left) == sql_of(left.drop_last()) + tail);
        assert(sql_of(right) == sql_of(right.drop_last()) + tail);
        assert(sql_of(left).skip(a.len() as int) =~= sql_of(left.drop_last()).skip(a.len() as int)
            + tail);
        assert(sql_of(right).skip(b.len() as int) =~= sql_of(right.drop_last()).skip(
            b.len() as int,
        ) + tail);
    }
}

/// What is counted is what is listed: behind their first words, the query that counts and the one
/// that lists are narrowed by the same text with the same values.
pub proof fn law_count_matches_list(
    counts: Seq<char>,
    lists: Seq<char>,
    conditions: Seq<Seq<Piece>>,
)
    ensures
        bounds_of(narrowed(counts, conditions)) == bounds_of(narrowed(lists, conditions)),
        sql_of(narrowed(counts, conditions)).skip(counts.len() as int) == sql_of(
            narrowed(lists, conditions),
        ).skip(lists.len() as int),
{
    lemma_same_narrowing(counts, lists, conditions);
    lemma_text_after_base(narrowed(counts, conditions), narrowed(lists, conditions));
}

/// A list has two more values than the query that counts: how many rows are wanted, and how many to
/// skip.
pub proof fn law_list_adds_page(
    lists: Seq<char>,
    conditions: Seq<Seq<Piece>>,
    column: Seq<char>,
    direction: Seq<char>,
    limit: i64,
    offset: i64,
)
    ensures
        bounds_of(paged(narrowed(lists, conditions), column, direction, limit, offset))
            == bounds_of(narrowed(lists, conditions)).push(Bound::Number(limit)).push(
            Bound::Number(offset),
        ),
{
    reveal_with_fuel(bounds_of, 6);
    let pieces = narrowed(lists, conditions);
    let whole = paged(pieces, column, direction, limit, offset);
    assert(whole.drop_last().drop_last().drop_last().drop_last().drop_last() =~= pieces);
}

} // verus!
