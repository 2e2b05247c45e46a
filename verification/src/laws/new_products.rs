//! What adding a product leaves, for every form.
use crate::handlers::create_product::{
    draft_checked, draft_fault, draft_of, form_fault, form_read, new_row, product_added_headers,
    CreateProduct, Draft, Filled, ProductForm,
};
use crate::ids::Id;
use crate::laws::forms::{filled_by, pictures_of, texts_of};
use crate::models::{ProductShown, ProductStatus};
use crate::protocol::{Command, Fault, LabelKind, Outcome, Step};
use crate::store::{at_rest, lemma_goes_on, runs, stored, Part, Reading, Service, Store, World};
use vstd::prelude::*;

verus! {

/// The product that the texts of a form describe, with its labels as they are read.
pub open spec fn labelled(id: Id, fields: Map<Seq<char>, String>, reading: Reading) -> Draft {
    let draft = draft_of(id, fields);
    Draft {
        gender: (reading.labels)(LabelKind::Gender, draft.gender@)->0,
        condition: (reading.labels)(LabelKind::Condition, draft.condition@)->0,
        category: (reading.labels)(LabelKind::Category, draft.category@)->0,
        ..draft
    }
}

/// Whether a form makes a product: every text is there, the price is a number, the labels can be
/// read, there is an image, and name, description and price are within their bounds.
pub open spec fn creatable(filled: Filled, reading: Reading) -> bool {
    &&& form_fault(filled) is None
    &&& (reading.labels)(LabelKind::Gender, filled.fields["gender"@]@) is Some
    &&& (reading.labels)(LabelKind::Condition, filled.fields["condition"@]@) is Some
    &&& (reading.labels)(LabelKind::Category, filled.fields["category"@]@) is Some
    &&& draft_fault(draft_of(0, filled.fields)) is None
}

/// The row of a new product with these images.
pub open spec fn added_row(
    draft: Draft,
    images: Seq<String>,
    created_at: i64,
    updated_at: i64,
) -> ProductShown {
    ProductShown {
        id: draft.id,
        name: draft.name,
        description: draft.description,
        price: draft.price,
        gender: draft.gender,
        condition: draft.condition,
        category: draft.category,
        status: ProductStatus::Available,
        images,
        on_sale: draft.on_sale,
        created_at,
        updated_at,
    }
}

/// Whether a product was added, as the form describes it and with these images, under an id that was
/// free, and nothing else changed.
pub open spec fn product_was_added(
    before: Store,
    after: Store,
    id: Id,
    filled: Filled,
    reading: Reading,
    images: Seq<String>,
) -> bool {
    &&& !before.products.contains_key(id)
    &&& after == Store {
        products: before.products.insert(
            id,
            added_row(
                labelled(id, filled.fields, reading),
                images,
                after.products[id].created_at,
                after.products[id].updated_at,
            ),
        ),
        ..before
    }
}

/// Whether a label of the form cannot be read, and the fault says which.
pub open spec fn label_refused(
    filled: Filled,
    reading: Reading,
    name: Seq<char>,
    kind: LabelKind,
    fault: Fault,
) -> bool {
    &&& (reading.labels)(kind, filled.fields[name]@) is None
    &&& fault == Fault::UnprocessableEntity(
        "Nieprawidłowa wartość pola '"@ + name + "': "@ + filled.fields[name]@,
    )
}

/// Whether a form is refused with this fault, and rightly so.
pub open spec fn form_refused(filled: Filled, reading: Reading, fault: Fault) -> bool {
    ||| form_fault(filled) == Some(fault)
    ||| form_fault(filled) is None && {
        ||| label_refused(filled, reading, "gender"@, LabelKind::Gender, fault)
        ||| label_refused(filled, reading, "condition"@, LabelKind::Condition, fault)
        ||| label_refused(filled, reading, "category"@, LabelKind::Category, fault)
        ||| draft_fault(draft_of(0, filled.fields)) == Some(fault)
    }
}

proof fn lemma_label_words(text: Seq<char>)
    ensures
        "Nieprawidłowa wartość pola 'gender': "@ + text == "Nieprawidłowa wartość pola '"@
            + "gender"@ + "': "@ + text,
        "Nieprawidłowa wartość pola 'condition': "@ + text == "Nieprawidłowa wartość pola '"@
            + "condition"@ + "': "@ + text,
        "Nieprawidłowa wartość pola 'category': "@ + text == "Nieprawidłowa wartość pola '"@
            + "category"@ + "': "@ + text,
{
    reveal_strlit("Nieprawidłowa wartość pola 'gender': ");
    reveal_strlit("Nieprawidłowa wartość pola 'condition': ");
    reveal_strlit("Nieprawidłowa wartość pola 'category': ");
    reveal_strlit("Nieprawidłowa wartość pola '");
    reveal_strlit("gender");
    reveal_strlit("condition");
    reveal_strlit("category");
    reveal_strlit("': ");
    let words = "Nieprawidłowa wartość pola '"@;
    assert("Nieprawidłowa wartość pola 'gender': "@ =~= words + "gender"@ + "': "@);
    assert("Nieprawidłowa wartość pola 'condition': "@ =~= words + "condition"@ + "': "@);
    assert("Nieprawidłowa wartość pola 'category': "@ =~= words + "category"@ + "': "@);
}

/// How a request ends that has read its form to the end.
spec fn ends_well(
    id: Id,
    filled: Filled,
    world: World,
    outcome: Outcome,
    end: World,
) -> bool {
    let new_images = end.uploaded.skip(world.uploaded.len() as int);
    &&& outcome is Err ==> end.committed == world.committed
    &&& outcome matches Ok(response) ==> {
        &&& response@.status == 201
        &&& response@.headers == product_added_headers()
        &&& response@.body is Empty
        &&& creatable(filled, world.reading)
        &&& end.uploaded == world.uploaded + new_images
        &&& new_images.len() == filled.images.len()
        &&& end.services == world.services.push(Service::Uploaded { pictures: filled.images })
        &&& product_was_added(
            world.committed,
            end.committed,
            id,
            filled,
            world.reading,
            new_images,
        )
    }
    &&& creatable(filled, world.reading) && !end.failed ==> outcome is Ok
    &&& !creatable(filled, world.reading) ==> end.uploaded == world.uploaded
    &&& !creatable(filled, world.reading) && !end.failed ==> (outcome matches Err(error)
        && error@ is UnprocessableEntity && form_refused(filled, world.reading, error@))
}

proof fn lemma_draft_checked(
    id: Id,
    filled: Filled,
    step: Step<CreateProduct>,
    form: ProductForm,
    world: World,
    outcome: Outcome,
    end: World,
    fuel: nat,
)
    requires
        runs(step, world, outcome, end, fuel),
        at_rest(world),
        form@ == filled,
        form_fault(filled) is None,
        (world.reading.labels)(LabelKind::Gender, filled.fields["gender"@]@) is Some,
        (world.reading.labels)(LabelKind::Condition, filled.fields["condition"@]@) is Some,
        (world.reading.labels)(LabelKind::Category, filled.fields["category"@]@) is Some,
        draft_checked(labelled(id, filled.fields, world.reading), form.images, step),
    ensures
        ends_well(id, filled, world, outcome, end),
{
    let draft = labelled(id, filled.fields, world.reading);
    if step is Perform {
        let (r1, w1, s1) = lemma_goes_on(step, world, outcome, end, fuel);
        if s1 is Perform {
            let urls = r1->Urls_0;
            assert(w1.uploaded.skip(world.uploaded.len() as int) =~= urls@);
            let (r2, w2, s2) = lemma_goes_on(s1, w1, outcome, end, (fuel - 1) as nat);
            assert(s2 !is Perform);
            if !(r2 is Failed) {
                let row = (r2->Product_0)->0;
                let product = new_row(draft, urls);
                assert(row@ == stored(product, row.created_at, row.updated_at));
                assert(row@ == added_row(draft, urls@, row.created_at, row.updated_at));
                assert(end.committed.products[id] == row@);
            }
        }
    }
}

proof fn lemma_form_checked(
    id: Id,
    form: ProductForm,
    step: Step<CreateProduct>,
    world: World,
    outcome: Outcome,
    end: World,
    fuel: nat,
)
    requires
        runs(step, world, outcome, end, fuel),
        at_rest(world),
        form_read(id, form, step),
    ensures
        ends_well(id, form@, world, outcome, end),
{
    let filled = form@;
    lemma_label_words(filled.fields["gender"@]@);
    lemma_label_words(filled.fields["condition"@]@);
    lemma_label_words(filled.fields["category"@]@);
    assert(end.uploaded.skip(end.uploaded.len() as int) =~= Seq::empty());
    if step is Perform {
        let (r1, w1, s1) = lemma_goes_on(step, world, outcome, end, fuel);
        if s1 is Perform {
            let (r2, w2, s2) = lemma_goes_on(s1, w1, outcome, end, (fuel - 1) as nat);
            if s2 is Perform {
                let (r3, w3, s3) = lemma_goes_on(s2, w2, outcome, end, (fuel - 2) as nat);
                if !(r3 is Failed) && !(r3 is Unreadable) {
                    assert(w3 == world);
                    lemma_draft_checked(
                        id,
                        filled,
                        s3,
                        form,
                        w3,
                        outcome,
                        end,
                        (fuel - 3) as nat,
                    );
                }
            }
        }
    }
}

proof fn lemma_reading(
    id: Id,
    parts: Seq<Part>,
    count: int,
    form: ProductForm,
    world: World,
    outcome: Outcome,
    end: World,
    fuel: nat,
)
    requires
        runs(
            Step::Perform(CreateProduct::Reading { id, form }, Command::NextField),
            world,
            outcome,
            end,
            fuel,
        ),
        at_rest(world),
        0 <= count <= parts.len(),
        world.form == parts.skip(count),
        form@ == filled_by(parts.take(count)),
    ensures
        ends_well(id, filled_by(parts), world, outcome, end),
    decreases parts.len() - count,
{
    let step = Step::Perform(CreateProduct::Reading { id, form }, Command::NextField);
    assert(end.uploaded.skip(end.uploaded.len() as int) =~= Seq::empty());
    let (r1, w1, s1) = lemma_goes_on(step, world, outcome, end, fuel);
    if r1 is Failed {
    } else if count == parts.len() {
        assert(parts.take(count) =~= parts);
        lemma_form_checked(id, form, s1, w1, outcome, end, (fuel - 1) as nat);
    } else {
        let part = parts[count];
        assert(world.form[0] == part);
        assert(w1.form =~= parts.skip(count + 1));
        assert(parts.take(count + 1).drop_last() =~= parts.take(count));
        assert(parts.take(count + 1).last() == part);
        if s1->Perform_0 is Reading {
            assert(form@ == filled_by(parts.take(count + 1)));
            lemma_reading(id, parts, count + 1, form, w1, outcome, end, (fuel - 1) as nat);
        } else {
            let (r2, w2, s2) = lemma_goes_on(s1, w1, outcome, end, (fuel - 1) as nat);
            if !(r2 is Failed) {
                let filled = s2->Perform_0->Reading_form;
                assert(filled@.fields =~= texts_of(parts.take(count + 1)));
                assert(filled@.images =~= pictures_of(parts.take(count + 1)));
                lemma_reading(id, parts, count + 1, filled, w2, outcome, end, (fuel - 2) as nat);
            }
        }
    }
}

/// Adding a product does all of it or nothing. Unless a command fails, it is done if and only if the
/// form makes a product: then the product is stored as the form describes it, with an address for
/// each image; otherwise the form is refused, and nothing is uploaded or stored.
pub proof fn law_product_added(
    id: Id,
    form: ProductForm,
    start: World,
    outcome: Outcome,
    end: World,
    fuel: nat,
)
    requires
        runs(
            Step::Perform(CreateProduct::Reading { id, form }, Command::NextField),
            start,
            outcome,
            end,
            fuel,
        ),
        at_rest(start),
        form@ == (Filled { fields: Map::empty(), images: Seq::empty() }),
    ensures
        outcome is Err ==> end.committed == start.committed,
        outcome matches Ok(response) ==> {
            let images = end.uploaded.skip(start.uploaded.len() as int);
            &&& response@.status == 201
            &&& response@.headers == product_added_headers()
            &&& response@.body is Empty
            &&& creatable(filled_by(start.form), start.reading)
            &&& end.uploaded == start.uploaded + images
            &&& images.len() == pictures_of(start.form).len()
            &&& end.services == start.services.push(
                Service::Uploaded { pictures: pictures_of(start.form) },
            )
            &&& product_was_added(
                start.committed,
                end.committed,
                id,
                filled_by(start.form),
                start.reading,
                images,
            )
        },
        creatable(filled_by(start.form), start.reading) && !end.failed ==> outcome is Ok,
        !creatable(filled_by(start.form), start.reading) ==> outcome is Err && end.committed
            == start.committed && end.uploaded == start.uploaded,
        !creatable(filled_by(start.form), start.reading) && !end.failed ==> (outcome matches Err(
            error,
        ) && error@ is UnprocessableEntity && form_refused(
            filled_by(start.form),
            start.reading,
            error@,
        )),
{
    let parts = start.form;
    assert(parts.skip(0) =~= parts);
    assert(parts.take(0) =~= Seq::empty());
    assert(texts_of(parts.take(0)) =~= Map::empty());
    assert(form@ == filled_by(parts.take(0)));
    lemma_reading(id, parts, 0, form, start, outcome, end, fuel);
}

} // verus!
