//! When a form makes a product, and which, told by the fields of the form.
use crate::handlers::create_product::{
    names_image, product_added_headers, product_begins, CreateProduct, Filled, ProductForm,
};
use crate::ids::Id;
use crate::laws::answers::law_message_reaches_page;
use crate::laws::forms::{
    filled_by, last_text, lemma_plain_names, lemma_texts_are_last, pictures_of,
};
use crate::laws::new_products::{creatable, form_refused, law_product_added};
use crate::laws::told::{
    law_header_names, law_location_is_told, law_message_is_told, message_text,
};
use crate::models::{ProductShown, ProductStatus, Role, TokenClaims};
use crate::protocol::{ends, Command, Fault, LabelKind, Outcome, Step};
use crate::store::{at_rest, runs, Part, Reading, Store, World};
use crate::text::{i64_spelled, means_ticked};
use vstd::prelude::*;
use vstd::utf8::encode_utf8;

verus! {

/// Whether a part of a form is an image that is not empty.
pub open spec fn is_picture(part: Part) -> bool {
    &&& part.name is Some
    &&& part.name->0@.len() >= 11
    &&& part.name->0@.take(11) == "image_file_"@
    &&& part.bytes.len() > 0
}

/// Whether a form has a label of this kind that can be read.
pub open spec fn has_label(
    parts: Seq<Part>,
    name: Seq<char>,
    kind: LabelKind,
    reading: Reading,
) -> bool {
    last_text(parts, name) matches Some(text) && (reading.labels)(kind, text@) is Some
}

/// Whether a form makes a product: a name of 1 to 255 bytes, a description of at most 5000, a price
/// that is a whole number and not negative, three labels that can be read, and an image.
pub open spec fn makes_product(parts: Seq<Part>, reading: Reading) -> bool {
    &&& (last_text(parts, "name"@) matches Some(name) && name@.len() > 0 && encode_utf8(
        name@,
    ).len() <= 255)
    &&& (last_text(parts, "description"@) matches Some(description) && encode_utf8(
        description@,
    ).len() <= 5000)
    &&& (last_text(parts, "price"@) matches Some(price) && i64_spelled(price@) is Some
        && i64_spelled(price@)->0 >= 0)
    &&& has_label(parts, "gender"@, LabelKind::Gender, reading)
    &&& has_label(parts, "condition"@, LabelKind::Condition, reading)
    &&& has_label(parts, "category"@, LabelKind::Category, reading)
    &&& exists|i: int| 0 <= i < parts.len() && is_picture(#[trigger] parts[i])
}

/// Whether a row is the product that a form makes: each value is that of the form's last field of the
/// same name, a label as it is read; the product is for sale, and on sale where the form says so.
pub open spec fn row_of_product(row: ProductShown, parts: Seq<Part>, reading: Reading) -> bool {
    let labels = reading.labels;
    &&& last_text(parts, "name"@) == Some(row.name)
    &&& last_text(parts, "description"@) == Some(row.description)
    &&& i64_spelled(last_text(parts, "price"@)->0@) == Some(row.price)
    &&& labels(LabelKind::Gender, last_text(parts, "gender"@)->0@) == Some(row.gender)
    &&& labels(LabelKind::Condition, last_text(parts, "condition"@)->0@) == Some(row.condition)
    &&& labels(LabelKind::Category, last_text(parts, "category"@)->0@) == Some(row.category)
    &&& row.status == ProductStatus::Available
    &&& row.on_sale == (last_text(parts, "on_sale"@) matches Some(text) && means_ticked(text@))
}

/// Only an administrator adds products; the form is read from its start.
pub proof fn law_administrators_add_products(id: Id, claims: TokenClaims, step: Step<CreateProduct>)
    requires
        product_begins(id, claims, step),
    ensures
        claims.role == Role::Admin ==> (step matches Step::Perform(
            CreateProduct::Reading { id: kept, form },
            Command::NextField,
        ) && kept == id && form@.fields == Map::<Seq<char>, String>::empty() && form@.images.len()
            == 0),
        claims.role != Role::Admin ==> ends(
            step,
            Err(Fault::UnauthorizedAccess("Tylko administrator może dodawać produkty"@)),
        ),
{
}

/// A field carries an image if and only if its name begins with `image_file_`.
pub proof fn law_image_fields(name: Seq<char>)
    ensures
        names_image(name) == (name.len() >= 11 && name.take(11) == "image_file_"@),
{
    reveal_strlit("image_file_");
    assert("image_file_"@.len() == 11);
    if name.len() >= 11 {
        assert(name.take(11) =~= name.subrange(0, 11));
    }
}

proof fn lemma_pictures(parts: Seq<Part>)
    ensures
        pictures_of(parts).len() > 0 <==> exists|i: int|
            0 <= i < parts.len() && is_picture(#[trigger] parts[i]),
    decreases parts.len(),
{
    if parts.len() > 0 {
        let rest = parts.drop_last();
        lemma_pictures(rest);
        let part = parts.last();
        if part.name is Some {
            law_image_fields(part.name->0@);
        }
        if is_picture(part) {
            assert(is_picture(parts[parts.len() - 1]));
        }
        if exists|i: int| 0 <= i < rest.len() && is_picture(#[trigger] rest[i]) {
            let i = choose|i: int| 0 <= i < rest.len() && is_picture(#[trigger] rest[i]);
            assert(is_picture(parts[i]));
        }
        if exists|i: int| 0 <= i < parts.len() && is_picture(#[trigger] parts[i]) {
            let i = choose|i: int| 0 <= i < parts.len() && is_picture(#[trigger] parts[i]);
            if i < rest.len() {
                assert(is_picture(rest[i]));
            }
        }
    }
}

/// Unless a command fails, a form is taken if and only if it makes a product; then that product, and
/// nothing else, is new in the tables. A form that makes none changes nothing, whatever fails.
pub proof fn law_form_makes_product(
    id: Id,
    form: ProductForm,
    start: World,
    outcome: Outcome,
    end: World,
    fuel: nat,
)
    requires
        runs(
            Step::Perform(CreateProduct::Reading { id, form }, Command::NextField),
            start,
            outcome,
            end,
            fuel,
        ),
        at_rest(start),
        form@ == (Filled { fields: Map::empty(), images: Seq::empty() }),
    ensures
        !end.failed ==> outcome is Ok == makes_product(start.form, start.reading),
        outcome is Ok ==> {
            let row = end.committed.products[id];
            &&& makes_product(start.form, start.reading)
            &&& !start.committed.products.contains_key(id)
            &&& row.id == id
            &&& row_of_product(row, start.form, start.reading)
            &&& start.uploaded + row.images == end.uploaded
            &&& row.images.len() == pictures_of(start.form).len()
            &&& end.committed == (Store {
                products: start.committed.products.insert(id, row),
                ..start.committed
            })
        },
        outcome is Err ==> end.committed == start.committed,
        !makes_product(start.form, start.reading) ==> end.committed == start.committed
            && end.uploaded == start.uploaded,
{
    let parts = start.form;
    law_product_added(id, form, start, outcome, end, fuel);
    lemma_plain_names();
    lemma_texts_are_last(parts, "name"@);
    lemma_texts_are_last(parts, "description"@);
    lemma_texts_are_last(parts, "price"@);
    lemma_texts_are_last(parts, "gender"@);
    lemma_texts_are_last(parts, "condition"@);
    lemma_texts_are_last(parts, "category"@);
    lemma_texts_are_last(parts, "on_sale"@);
    lemma_pictures(parts);
    assert(creatable(filled_by(parts), start.reading) == makes_product(parts, start.reading));
    if outcome is Ok {
        assert(end.committed.products[id].images == end.uploaded.skip(start.uploaded.len() as int));
    }
}

/// Whether the form lacks a field, and the fault says which.
pub open spec fn lacks_field(parts: Seq<Part>, name: Seq<char>, words: Seq<char>, fault: Fault) -> bool {
    last_text(parts, name) is None && fault == Fault::UnprocessableEntity(words)
}

/// Whether a label of the form cannot be read, and the fault says which.
pub open spec fn has_odd_label(
    parts: Seq<Part>,
    name: Seq<char>,
    kind: LabelKind,
    reading: Reading,
    fault: Fault,
) -> bool {
    last_text(parts, name) matches Some(text) && (reading.labels)(kind, text@) is None && fault
        == Fault::UnprocessableEntity(
        "Nieprawidłowa wartość pola '"@ + name + "': "@ + text@,
    )
}

/// Whether a form makes no product for the reason that the fault gives.
pub open spec fn refused_for(parts: Seq<Part>, reading: Reading, fault: Fault) -> bool {
    ||| lacks_field(parts, "name"@, "Brak pola 'name'."@, fault)
    ||| lacks_field(parts, "description"@, "Brak pola 'description'"@, fault)
    ||| lacks_field(parts, "price"@, "Brak pola 'price'."@, fault)
    ||| lacks_field(parts, "gender"@, "Brak pola 'gender'."@, fault)
    ||| lacks_field(parts, "condition"@, "Brak pola 'condition'."@, fault)
    ||| lacks_field(parts, "category"@, "Brak pola 'category'."@, fault)
    ||| (forall|i: int| 0 <= i < parts.len() ==> !is_picture(#[trigger] parts[i])) && fault
        == Fault::UnprocessableEntity(
        "Należy przesłac conajmniej jeden plik obrazu ('image_file)"@,
    )
    ||| (last_text(parts, "price"@) matches Some(price) && i64_spelled(price@) is None && fault
        == Fault::UnprocessableEntity("Pole 'price' musi być liczbą całkowitą"@))
    ||| has_odd_label(parts, "gender"@, LabelKind::Gender, reading, fault)
    ||| has_odd_label(parts, "condition"@, LabelKind::Condition, reading, fault)
    ||| has_odd_label(parts, "category"@, LabelKind::Category, reading, fault)
    ||| (last_text(parts, "name"@) matches Some(name) && (name@.len() == 0 || encode_utf8(
        name@,
    ).len() > 255) && fault == Fault::UnprocessableEntity("Nieprawidłowa długość pola 'name'"@))
    ||| (last_text(parts, "description"@) matches Some(description) && encode_utf8(
        description@,
    ).len() > 5000 && fault == Fault::UnprocessableEntity("Pole 'description' jest za długie"@))
    ||| (last_text(parts, "price"@) matches Some(price) && i64_spelled(price@) is Some
        && i64_spelled(price@)->0 < 0 && fault == Fault::UnprocessableEntity(
        "Cena nie może być ujemna"@,
    ))
}

/// Unless a command fails, a form that makes no product is refused with a reason that holds.
pub proof fn law_form_is_refused_for_a_reason(
    id: Id,
    form: ProductForm,
    start: World,
    outcome: Outcome,
    end: World,
    fuel: nat,
)
    requires
        runs(
            Step::Perform(CreateProduct::Reading { id, form }, Command::NextField),
            start,
            outcome,
            end,
            fuel,
        ),
        at_rest(start),
        form@ == (Filled { fields: Map::empty(), images: Seq::empty() }),
        !end.failed,
        outcome is Err,
    ensures
        refused_for(start.form, start.reading, outcome->Err_0@),
{
    let parts = start.form;
    law_product_added(id, form, start, outcome, end, fuel);
    lemma_plain_names();
    lemma_texts_are_last(parts, "name"@);
    lemma_texts_are_last(parts, "description"@);
    lemma_texts_are_last(parts, "price"@);
    lemma_texts_are_last(parts, "gender"@);
    lemma_texts_are_last(parts, "condition"@);
    lemma_texts_are_last(parts, "category"@);
    lemma_pictures(parts);
    assert(form_refused(filled_by(parts), start.reading, outcome->Err_0@));
}

/// Who added a product is told so, and taken to the list of products.
pub proof fn law_added_product_is_told()
    ensures
        product_added_headers() == Map::<Seq<char>, Seq<Seq<u8>>>::empty().insert(
            "hx-trigger"@,
            seq![
                encode_utf8(
                    "{\"showMessage\":"@ + message_text("Pomyslnie dodano produkt."@, "success"@)
                        + "}"@,
                ),
            ],
        ).insert(
            "hx-location"@,
            seq![
                encode_utf8(
                    "{\"path\":\"/htmx/admin/products\",\"swap\":\"innerHTML\",\"target\":\"#admin-content\"}"@,
                ),
            ],
        ),
{
    reveal_strlit("Pomyslnie dodano produkt.");
    reveal_strlit("success");
    reveal_strlit(
        "{\"path\":\"/htmx/admin/products\",\"swap\":\"innerHTML\",\"target\":\"#admin-content\"}",
    );
    law_header_names();
    law_location_is_told();
    law_message_is_told("Pomyslnie dodano produkt."@, "success"@);
    law_message_reaches_page("Pomyslnie dodano produkt."@, "success"@);
}

} // verus!
