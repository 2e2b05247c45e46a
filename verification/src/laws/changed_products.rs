//! What changing a product leaves, for every form.
use crate::handlers::create_product::{names_image, Picture};
use crate::handlers::update_product::{
    applies, deletes, found_images, retained, saves, texts, to_category,
    to_condition, to_gender, to_status, uploads, with_plain_texts, with_sale, Edit, UpdateProduct,
};
use crate::ids::Id;
use crate::json::string_list_in;
use crate::laws::forms::{
    last_text, lemma_not_the_list, lemma_plain_names, lemma_texts_are_last, texts_of,
};
use crate::models::{Product, ProductShown};
use crate::protocol::{
    Body, Command, Fault, ImageUpload, LabelKind, Outcome, ProductRow, Query, Reply, Step,
};
use crate::store::{
    at_rest, goes_on, lemma_goes_on, runs, settled, stored, Part, Reading, Service, Store, World,
};
use crate::text::{i64_spelled, means_ticked};
use vstd::prelude::*;

verus! {

/// A text that the form has, or else the old one.
pub open spec fn text_or(given: Option<String>, old: String) -> String {
    match given {
        Some(text) => text,
        None => old,
    }
}

/// A label that the form has, as it is read, or else the old one.
pub open spec fn label_or(
    given: Option<String>,
    kind: LabelKind,
    reading: Reading,
    old: String,
) -> String {
    match given {
        Some(text) => (reading.labels)(kind, text@)->0,
        None => old,
    }
}

/// A product as a form changes it: each value is that of the last field with its name, or else the
/// old one; the product is on sale only where the form says so. Its images are told apart.
pub open spec fn edited(
    old: ProductShown,
    parts: Seq<Part>,
    reading: Reading,
    images: Seq<String>,
    updated_at: i64,
) -> ProductShown {
    ProductShown {
        id: old.id,
        name: text_or(last_text(parts, "name"@), old.name),
        description: text_or(last_text(parts, "description"@), old.description),
        price: match last_text(parts, "price"@) {
            Some(text) => i64_spelled(text@)->0,
            None => old.price,
        },
        gender: label_or(last_text(parts, "gender"@), LabelKind::Gender, reading, old.gender),
        condition: label_or(
            last_text(parts, "condition"@),
            LabelKind::Condition,
            reading,
            old.condition,
        ),
        category: label_or(
            last_text(parts, "category"@),
            LabelKind::Category,
            reading,
            old.category,
        ),
        status: match last_text(parts, "status"@) {
            Some(text) => (reading.statuses)(text@)->0,
            None => old.status,
        },
        images,
        on_sale: match last_text(parts, "on_sale"@) {
            Some(text) => means_ticked(text@),
            None => false,
        },
        created_at: old.created_at,
        updated_at,
    }
}

/// The addresses of the images to take away: those that the last such list of the form names, where
/// it is there and not empty.
pub open spec fn doomed_by(parts: Seq<Part>) -> Seq<Seq<char>> {
    match last_text(parts, "urls_to_delete"@) {
        Some(list) if list@.len() > 0 && list@ != "[]"@ => string_list_in(list@)->0,
        _ => Seq::empty(),
    }
}

/// The images that a form adds to a product: those with a file name and bytes.
pub open spec fn added_pictures(parts: Seq<Part>) -> Seq<Picture>
    decreases parts.len(),
{
    if parts.len() == 0 {
        Seq::empty()
    } else {
        let before = added_pictures(parts.drop_last());
        let part = parts.last();
        if part.name is Some && names_image(part.name->0@) && part.file_name is Some
            && part.bytes.len() > 0 {
            before.push(Picture { name: part.file_name->0@, bytes: part.bytes })
        } else {
            before
        }
    }
}

/// Whether a label can be read, where there is one.
pub open spec fn label_fits(given: Option<String>, kind: LabelKind, reading: Reading) -> bool {
    given matches Some(text) ==> (reading.labels)(kind, text@) is Some
}

/// Whether the list of the images to take away can be read, where there is one.
pub open spec fn list_fits(parts: Seq<Part>) -> bool {
    match last_text(parts, "urls_to_delete"@) {
        Some(list) if list@.len() > 0 && list@ != "[]"@ => string_list_in(list@) is Some,
        _ => true,
    }
}

/// Whether a product keeps or gets an image.
pub open spec fn keeps_an_image(old: ProductShown, parts: Seq<Part>) -> bool {
    retained(old.images, doomed_by(parts)).len() + added_pictures(parts).len() > 0
}

/// Whether a form can change a product: what it has can be read, and an image is left.
pub open spec fn changeable(old: ProductShown, parts: Seq<Part>, reading: Reading) -> bool {
    &&& last_text(parts, "price"@) matches Some(text) ==> i64_spelled(text@) is Some
    &&& label_fits(last_text(parts, "gender"@), LabelKind::Gender, reading)
    &&& label_fits(last_text(parts, "condition"@), LabelKind::Condition, reading)
    &&& label_fits(last_text(parts, "category"@), LabelKind::Category, reading)
    &&& last_text(parts, "status"@) matches Some(text) ==> (reading.statuses)(text@) is Some
    &&& list_fits(parts)
    &&& keeps_an_image(old, parts)
}

/// Whether a fault is that something cannot be used, in these words and perhaps some more.
pub open spec fn begins_with(fault: Fault, words: Seq<char>) -> bool {
    exists|reason: Seq<char>| fault == Fault::UnprocessableEntity(#[trigger] (words + reason))
}

/// Whether a label cannot be read, and the fault begins with these words.
pub open spec fn label_refused(
    given: Option<String>,
    kind: LabelKind,
    reading: Reading,
    fault: Fault,
    words: Seq<char>,
) -> bool {
    given matches Some(text) && (reading.labels)(kind, text@) is None && begins_with(fault, words)
}

/// Whether the list of the images to take away cannot be read, or no image is left, and the fault says
/// which.
pub open spec fn images_refused(old: ProductShown, parts: Seq<Part>, fault: Fault) -> bool {
    if list_fits(parts) {
        !keeps_an_image(old, parts) && fault == Fault::UnprocessableEntity(
            "Produkt musi mieć przynajmniej jeden obrazek."@,
        )
    } else {
        fault == Fault::UnprocessableEntity("Nieprawidłowy format listy URLi do usunięcia."@)
    }
}

/// Whether a form cannot change a product for the reason that the fault gives.
pub open spec fn change_refused_for(
    old: ProductShown,
    parts: Seq<Part>,
    reading: Reading,
    fault: Fault,
) -> bool {
    ||| (last_text(parts, "price"@) matches Some(text) && i64_spelled(text@) is None && fault
        == Fault::UnprocessableEntity("Nieprawidłowy format ceny"@))
    ||| label_refused(
        last_text(parts, "gender"@),
        LabelKind::Gender,
        reading,
        fault,
        "Nieprawidłowa płeć: "@,
    )
    ||| label_refused(
        last_text(parts, "condition"@),
        LabelKind::Condition,
        reading,
        fault,
        "Nieprawidłowy stan: "@,
    )
    ||| label_refused(
        last_text(parts, "category"@),
        LabelKind::Category,
        reading,
        fault,
        "Nieprawidłowa kategoria: "@,
    )
    ||| (last_text(parts, "status"@) matches Some(text) && (reading.statuses)(text@) is None
        && begins_with(fault, "Nieprawidłowy status: "@))
    ||| images_refused(old, parts, fault)
}

/// Whether a product was changed as the form says. Its images are the old ones without those to take
/// away, in their old order, then the new ones; at least one is left. Its id and when it was made
/// stay, and nothing else changed.
pub open spec fn product_was_changed(
    before: Store,
    after: Store,
    id: Id,
    parts: Seq<Part>,
    reading: Reading,
    new_images: Seq<String>,
) -> bool {
    let old = before.products[id];
    let images = retained(old.images, doomed_by(parts)) + new_images;
    &&& before.products.contains_key(id)
    &&& images.len() > 0
    &&& after == Store {
        products: before.products.insert(
            id,
            edited(old, parts, reading, images, after.products[id].updated_at),
        ),
        ..before
    }
}

/// The ids of the images at addresses, as far as they have one.
pub open spec fn image_ids(reading: Reading, addresses: Seq<Seq<char>>) -> Seq<String> {
    addresses.map_values(|address: Seq<char>| (reading.image_ids)(address)).filter(
        |id: Option<String>| id is Some,
    ).map_values(|id: Option<String>| id->0)
}

/// What services did after images were deleted, where there are any to delete.
pub open spec fn after_deletion(services: Seq<Service>, images: Seq<String>) -> Seq<Service> {
    if images.len() == 0 {
        services
    } else {
        services.push(Service::Deleted { images })
    }
}

/// What services did after pictures were uploaded, where there are any to upload.
pub open spec fn after_upload(services: Seq<Service>, pictures: Seq<Picture>) -> Seq<Service> {
    if pictures.len() == 0 {
        services
    } else {
        services.push(Service::Uploaded { pictures })
    }
}

/// The images that were found are those with an id.
pub proof fn lemma_found_images(
    reading: Reading,
    addresses: Seq<Seq<char>>,
    found: Seq<Option<String>>,
)
    requires
        found == addresses.map_values(|address: Seq<char>| (reading.image_ids)(address)),
    ensures
        found_images(found) == image_ids(reading, addresses),
{
    lemma_found(found);
}

proof fn lemma_found(found: Seq<Option<String>>)
    ensures
        found_images(found) == found.filter(|id: Option<String>| id is Some).map_values(
            |id: Option<String>| id->0,
        ),
    decreases found.len(),
{
    reveal(Seq::filter);
    let there = |id: Option<String>| id is Some;
    let told = |id: Option<String>| id->0;
    if found.len() > 0 {
        lemma_found(found.drop_last());
        let before = found.drop_last().filter(there);
        if found.last() is Some {
            assert(before.push(found.last()).map_values(told) =~= before.map_values(told).push(
                found.last()->0,
            ));
        }
    } else {
        assert(found.filter(there).map_values(told) =~= Seq::empty());
    }
}

/// What a request to change a product is about.
struct Change {
    id: Id,
    parts: Seq<Part>,
    start: World,
}

/// What services did once the images to take away are gone.
spec fn swept(change: Change) -> Seq<Service> {
    after_deletion(
        change.start.services,
        image_ids(change.start.reading, doomed_by(change.parts)),
    )
}

/// What services did once the new images are there too.
spec fn sent(change: Change) -> Seq<Service> {
    after_upload(swept(change), added_pictures(change.parts))
}

spec fn old_of(change: Change) -> ProductShown {
    change.start.committed.products[change.id]
}

/// The texts of a form but for the list of images to take away.
spec fn plain_texts(parts: Seq<Part>) -> Map<Seq<char>, String> {
    texts_of(parts).remove("urls_to_delete"@)
}

/// What was read of the form when `count` parts of it were.
spec fn has_read(edit: Edit, change: Change, count: int) -> bool {
    &&& 0 <= count <= change.parts.len()
    &&& edit.id == change.id
    &&& edit.form@.fields == plain_texts(change.parts.take(count))
    &&& edit.form@.images == added_pictures(change.parts.take(count))
    &&& edit.deletions == last_text(change.parts.take(count), "urls_to_delete"@)
}

spec fn has_read_all(edit: Edit, change: Change) -> bool {
    &&& edit.id == change.id
    &&& edit.form@.fields == plain_texts(change.parts)
    &&& edit.form@.images == added_pictures(change.parts)
    &&& edit.deletions == last_text(change.parts, "urls_to_delete"@)
    &&& edit.product.images@ == old_of(change).images
}

spec fn with_status(p: ProductShown, f: Map<Seq<char>, String>, r: Reading) -> ProductShown {
    let on_sale = f.contains_key("on_sale"@) && means_ticked(f["on_sale"@]@);
    if f.contains_key("status"@) {
        ProductShown { status: (r.statuses)(f["status"@]@)->0, on_sale, ..p }
    } else {
        ProductShown { on_sale, ..p }
    }
}

spec fn with_category(p: ProductShown, f: Map<Seq<char>, String>, r: Reading) -> ProductShown {
    with_status(
        if f.contains_key("category"@) {
            ProductShown { category: (r.labels)(LabelKind::Category, f["category"@]@)->0, ..p }
        } else {
            p
        },
        f,
        r,
    )
}

spec fn with_condition(p: ProductShown, f: Map<Seq<char>, String>, r: Reading) -> ProductShown {
    with_category(
        if f.contains_key("condition"@) {
            ProductShown { condition: (r.labels)(LabelKind::Condition, f["condition"@]@)->0, ..p }
        } else {
            p
        },
        f,
        r,
    )
}

spec fn with_gender(p: ProductShown, f: Map<Seq<char>, String>, r: Reading) -> ProductShown {
    with_condition(
        if f.contains_key("gender"@) {
            ProductShown { gender: (r.labels)(LabelKind::Gender, f["gender"@]@)->0, ..p }
        } else {
            p
        },
        f,
        r,
    )
}

/// The product with every text of the form in its place, and its old images.
spec fn goal(change: Change) -> ProductShown {
    edited(
        old_of(change),
        change.parts,
        change.start.reading,
        old_of(change).images,
        old_of(change).updated_at,
    )
}

spec fn accepted(change: Change) -> bool {
    changeable(old_of(change), change.parts, change.start.reading)
}

spec fn images_fit(change: Change) -> bool {
    list_fits(change.parts) && keeps_an_image(old_of(change), change.parts)
}

spec fn status_fits(change: Change) -> bool {
    let f = plain_texts(change.parts);
    &&& f.contains_key("status"@) ==> (change.start.reading.statuses)(f["status"@]@) is Some
    &&& images_fit(change)
}

spec fn category_fits(change: Change) -> bool {
    let f = plain_texts(change.parts);
    let labels = change.start.reading.labels;
    &&& f.contains_key("category"@) ==> labels(LabelKind::Category, f["category"@]@) is Some
    &&& status_fits(change)
}

spec fn condition_fits(change: Change) -> bool {
    let f = plain_texts(change.parts);
    let labels = change.start.reading.labels;
    &&& f.contains_key("condition"@) ==> labels(LabelKind::Condition, f["condition"@]@) is Some
    &&& category_fits(change)
}

spec fn gender_fits(change: Change) -> bool {
    let f = plain_texts(change.parts);
    let labels = change.start.reading.labels;
    &&& f.contains_key("gender"@) ==> labels(LabelKind::Gender, f["gender"@]@) is Some
    &&& condition_fits(change)
}

/// Whether the fault gives the reason why the form cannot be used.
spec fn fault_fits(change: Change, fault: Fault) -> bool {
    let f = plain_texts(change.parts);
    let labels = change.start.reading.labels;
    let statuses = change.start.reading.statuses;
    ||| {
        &&& f.contains_key("price"@)
        &&& i64_spelled(f["price"@]@) is None
        &&& fault == Fault::UnprocessableEntity("Nieprawidłowy format ceny"@)
    }
    ||| {
        &&& f.contains_key("gender"@)
        &&& labels(LabelKind::Gender, f["gender"@]@) is None
        &&& begins_with(fault, "Nieprawidłowa płeć: "@)
    }
    ||| {
        &&& f.contains_key("condition"@)
        &&& labels(LabelKind::Condition, f["condition"@]@) is None
        &&& begins_with(fault, "Nieprawidłowy stan: "@)
    }
    ||| {
        &&& f.contains_key("category"@)
        &&& labels(LabelKind::Category, f["category"@]@) is None
        &&& begins_with(fault, "Nieprawidłowa kategoria: "@)
    }
    ||| {
        &&& f.contains_key("status"@)
        &&& statuses(f["status"@]@) is None
        &&& begins_with(fault, "Nieprawidłowy status: "@)
    }
    ||| images_refused(old_of(change), change.parts, fault)
}

/// Whether the request rightly comes to this fault: a command failed, or the form cannot be used.
spec fn rightly_fails(change: Change, world: World, fault: Fault) -> bool {
    &&& world.committed == change.start.committed
    &&& world.closing is Untried
    &&& world.failed || (!accepted(change) && fault is UnprocessableEntity && fault_fits(
        change,
        fault,
    ))
    &&& !accepted(change) ==> world.uploaded == change.start.uploaded
}

/// Where a request is that has read its form to the end: in the transaction, nothing uploaded.
spec fn unchanged(change: Change, world: World) -> bool {
    &&& world.committed == change.start.committed
    &&& world.open == Some(change.start.committed)
    &&& world.committed.products.contains_key(change.id)
    &&& world.reading == change.start.reading
    &&& world.uploaded == change.start.uploaded
    &&& world.closing is Untried
    &&& !world.failed
}

/// Where a request is before any service did something.
spec fn untouched(change: Change, world: World) -> bool {
    unchanged(change, world) && world.services == change.start.services
}

/// Where a request that changes a product can be, and what it has in hand there.
spec fn under_way(stage: UpdateProduct, command: Command, change: Change, world: World) -> bool {
    let count = change.parts.len() - world.form.len();
    let rest = world.form == change.parts.skip(count);
    let fields = plain_texts(change.parts);
    let reading = change.start.reading;
    match stage {
        UpdateProduct::Opening { id } => false,
        UpdateProduct::Locking { id } => false,
        UpdateProduct::Reading(edit) => {
            &&& untouched(change, world)
            &&& command is NextField
            &&& rest
            &&& has_read(edit, change, count)
            &&& edit.product@ == old_of(change)
        },
        UpdateProduct::ReadingImage { edit, file_name } => {
            &&& untouched(change, world)
            &&& command is ReadBytes
            &&& rest
            &&& count > 0
            &&& world.current == Some(change.parts[count - 1])
            &&& change.parts[count - 1].file_name == Some(file_name)
            &&& change.parts[count - 1].name is Some
            &&& names_image(change.parts[count - 1].name->0@)
            &&& has_read(edit, change, count - 1)
            &&& edit.product@ == old_of(change)
        },
        UpdateProduct::ReadingDeletions(edit) => {
            &&& untouched(change, world)
            &&& command is ReadText
            &&& rest
            &&& count > 0
            &&& world.current == Some(change.parts[count - 1])
            &&& change.parts[count - 1].name is Some
            &&& change.parts[count - 1].name->0@ == "urls_to_delete"@
            &&& has_read(edit, change, count - 1)
            &&& edit.product@ == old_of(change)
        },
        UpdateProduct::ReadingText { edit, name } => {
            &&& untouched(change, world)
            &&& command is ReadText
            &&& rest
            &&& count > 0
            &&& world.current == Some(change.parts[count - 1])
            &&& change.parts[count - 1].name == Some(name)
            &&& !names_image(name@)
            &&& name@ != "urls_to_delete"@
            &&& has_read(edit, change, count - 1)
            &&& edit.product@ == old_of(change)
        },
        UpdateProduct::ReadingGender(edit) => {
            &&& untouched(change, world)
            &&& has_read_all(edit, change)
            &&& fields.contains_key("gender"@)
            &&& command == Command::ReadLabel { kind: LabelKind::Gender, text: fields["gender"@] }
            &&& with_gender(edit.product@, fields, reading) == goal(change)
            &&& accepted(change) == gender_fits(change)
        },
        UpdateProduct::ReadingCondition(edit) => {
            &&& untouched(change, world)
            &&& has_read_all(edit, change)
            &&& fields.contains_key("condition"@)
            &&& command == Command::ReadLabel {
                kind: LabelKind::Condition,
                text: fields["condition"@],
            }
            &&& with_condition(edit.product@, fields, reading) == goal(change)
            &&& accepted(change) == condition_fits(change)
        },
        UpdateProduct::ReadingCategory(edit) => {
            &&& untouched(change, world)
            &&& has_read_all(edit, change)
            &&& fields.contains_key("category"@)
            &&& command == Command::ReadLabel {
                kind: LabelKind::Category,
                text: fields["category"@],
            }
            &&& with_category(edit.product@, fields, reading) == goal(change)
            &&& accepted(change) == category_fits(change)
        },
        UpdateProduct::ReadingStatus(edit) => {
            &&& untouched(change, world)
            &&& has_read_all(edit, change)
            &&& fields.contains_key("status"@)
            &&& command == Command::ReadStatus { text: fields["status"@] }
            &&& with_status(edit.product@, fields, reading) == goal(change)
            &&& accepted(change) == status_fits(change)
        },
        UpdateProduct::FindingImages { edit, doomed } => {
            &&& untouched(change, world)
            &&& command matches Command::FindImages { urls }
            &&& texts(urls@) == doomed_by(change.parts)
            &&& has_read_all(edit, change)
            &&& edit.product@ == goal(change)
            &&& texts(doomed@) == doomed_by(change.parts)
            &&& list_fits(change.parts)
            &&& accepted(change) == keeps_an_image(old_of(change), change.parts)
        },
        UpdateProduct::DeletingImages { edit, doomed } => {
            &&& untouched(change, world)
            &&& command matches Command::DeleteImages { ids }
            &&& ids@ == image_ids(change.start.reading, doomed_by(change.parts))
            &&& ids@.len() > 0
            &&& has_read_all(edit, change)
            &&& edit.product@ == goal(change)
            &&& texts(doomed@) == doomed_by(change.parts)
            &&& list_fits(change.parts)
            &&& accepted(change) == keeps_an_image(old_of(change), change.parts)
        },
        UpdateProduct::Uploading { id, product, kept } => {
            &&& unchanged(change, world)
            &&& world.services == swept(change)
            &&& command matches Command::UploadImages { images }
            &&& images@.map_values(|image: ImageUpload| image@) == added_pictures(change.parts)
            &&& added_pictures(change.parts).len() > 0
            &&& accepted(change)
            &&& id == change.id
            &&& product@ == goal(change)
            &&& kept@ == retained(old_of(change).images, doomed_by(change.parts))
        },
        UpdateProduct::RollingBack(error) => command is Rollback && rightly_fails(
            change,
            world,
            error@,
        ),
        UpdateProduct::Updating => updates_row(command, change, world),
        UpdateProduct::Committing(product) => {
            &&& command is Commit
            &&& world.committed == change.start.committed
            &&& world.closing is Untried
            &&& world.open is Some
            &&& world.open->0.products[change.id] == product@
            &&& was_changed(change, world.open->0, world)
            &&& accepted(change)
            &&& !world.failed
            &&& world.services == sent(change)
        },
    }
}

spec fn new_images(change: Change, world: World) -> Seq<String> {
    world.uploaded.skip(change.start.uploaded.len() as int)
}

spec fn was_changed(change: Change, after: Store, world: World) -> bool {
    &&& new_images(change, world).len() == added_pictures(change.parts).len()
    &&& world.uploaded == change.start.uploaded + new_images(change, world)
    &&& product_was_changed(
        change.start.committed,
        after,
        change.id,
        change.parts,
        change.start.reading,
        new_images(change, world),
    )
}

spec fn row_shows(row: ProductRow, id: Id, shown: ProductShown, images: Seq<String>) -> bool {
    &&& row.id == id
    &&& row.name == shown.name
    &&& row.description == shown.description
    &&& row.price == shown.price
    &&& row.gender == shown.gender
    &&& row.condition == shown.condition
    &&& row.category == shown.category
    &&& row.status == shown.status
    &&& row.on_sale == shown.on_sale
    &&& row.images@ == images
}

spec fn updates_row(command: Command, change: Change, world: World) -> bool {
    let images = retained(old_of(change).images, doomed_by(change.parts)) + new_images(
        change,
        world,
    );
    &&& command matches Command::Query(Query::UpdateProduct { product })
    &&& row_shows(product, change.id, goal(change), images)
    &&& images.len() > 0
    &&& accepted(change)
    &&& !world.failed
    &&& world.services == sent(change)
    &&& world.committed == change.start.committed
    &&& world.open == Some(change.start.committed)
    &&& world.committed.products.contains_key(change.id)
    &&& old_of(change).id == change.id
    &&& new_images(change, world).len() == added_pictures(change.parts).len()
    &&& world.uploaded == change.start.uploaded + new_images(change, world)
    &&& world.closing is Untried
}

/// Whether a step is one where the request can be, or refuses it.
spec fn proceeds(step: Step<UpdateProduct>, change: Change, world: World) -> bool {
    match step {
        Step::Perform(stage, command) => under_way(stage, command, change, world),
        Step::Finish(outcome) => outcome matches Err(error) && rightly_fails(
            change,
            world,
            error@,
        ),
        Step::Unexpected => true,
    }
}

proof fn lemma_saves(
    change: Change,
    product: Product,
    images: Seq<String>,
    step: Step<UpdateProduct>,
    world: World,
)
    requires
        saves(change.id, product, images, step),
        product@ == goal(change),
        images == retained(old_of(change).images, doomed_by(change.parts)) + new_images(
            change,
            world,
        ),
        world.uploaded == change.start.uploaded + new_images(change, world),
        world.committed == change.start.committed,
        world.open == Some(change.start.committed),
        world.committed.products.contains_key(change.id),
        old_of(change).id == change.id,
        world.closing is Untried,
        !world.failed,
        accepted(change) ==> world.services == sent(change),
        !accepted(change) ==> list_fits(change.parts) && !keeps_an_image(
            old_of(change),
            change.parts,
        ),
        accepted(change) == (images.len() > 0),
        accepted(change) ==> new_images(change, world).len() == added_pictures(change.parts).len(),
        !accepted(change) ==> world.uploaded == change.start.uploaded,
    ensures
        proceeds(step, change, world),
{
}

proof fn lemma_uploads(
    change: Change,
    edit: Edit,
    kept: Seq<String>,
    step: Step<UpdateProduct>,
    world: World,
)
    requires
        uploads(edit, kept, step),
        unchanged(change, world),
        world.services == swept(change),
        list_fits(change.parts),
        old_of(change).id == change.id,
        edit.id == change.id,
        edit.product@ == goal(change),
        edit.form@.images == added_pictures(change.parts),
        kept == retained(old_of(change).images, doomed_by(change.parts)),
        accepted(change) == keeps_an_image(old_of(change), change.parts),
    ensures
        proceeds(step, change, world),
{
    assert(edit.form@.images.len() == edit.form.images@.len());
    assert(new_images(change, world) =~= Seq::empty());
    assert(change.start.uploaded + new_images(change, world) =~= world.uploaded);
    if edit.form.images@.len() == 0 {
        assert(kept + new_images(change, world) =~= kept);
        lemma_saves(change, edit.product, kept, step, world);
    }
}

proof fn lemma_nothing_doomed(images: Seq<String>)
    ensures
        retained(images, Seq::empty()) == images,
    decreases images.len(),
{
    if images.len() > 0 {
        lemma_nothing_doomed(images.drop_last());
        assert(images.drop_last().push(images.last()) =~= images);
    }
}

proof fn lemma_deletes(change: Change, edit: Edit, step: Step<UpdateProduct>, world: World)
    requires
        deletes(edit, step),
        untouched(change, world),
        old_of(change).id == change.id,
        has_read_all(edit, change),
        edit.product@ == goal(change),
        accepted(change) == images_fit(change),
    ensures
        proceeds(step, change, world),
{
    lemma_nothing_doomed(old_of(change).images);
    let reading = change.start.reading;
    let nothing: Seq<Seq<char>> = Seq::empty();
    assert(nothing.map_values(|address: Seq<char>| (reading.image_ids)(address)) =~= Seq::empty());
    lemma_found_images(reading, nothing, Seq::empty());
    match edit.deletions {
        Some(list) if list@.len() > 0 && list@ != "[]"@ => {
            let listed = string_list_in(list@);
            if listed is Some && listed->0.len() == 0 {
                assert(listed->0 =~= Seq::empty());
                lemma_uploads(change, edit, edit.product.images@, step, world);
            }
        },
        _ => {
            lemma_uploads(change, edit, edit.product.images@, step, world);
        },
    }
}

proof fn lemma_to_status(change: Change, edit: Edit, step: Step<UpdateProduct>, world: World)
    requires
        to_status(edit, step),
        untouched(change, world),
        old_of(change).id == change.id,
        has_read_all(edit, change),
        with_status(edit.product@, plain_texts(change.parts), change.start.reading) == goal(change),
        accepted(change) == status_fits(change),
    ensures
        proceeds(step, change, world),
{
    if !edit.form.fields@.contains_key("status"@) {
        lemma_deletes(change, with_sale(edit), step, world);
    }
}

proof fn lemma_to_category(change: Change, edit: Edit, step: Step<UpdateProduct>, world: World)
    requires
        to_category(edit, step),
        untouched(change, world),
        old_of(change).id == change.id,
        has_read_all(edit, change),
        with_category(edit.product@, plain_texts(change.parts), change.start.reading) == goal(
            change,
        ),
        accepted(change) == category_fits(change),
    ensures
        proceeds(step, change, world),
{
    if !edit.form.fields@.contains_key("category"@) {
        lemma_to_status(change, edit, step, world);
    }
}

proof fn lemma_to_condition(change: Change, edit: Edit, step: Step<UpdateProduct>, world: World)
    requires
        to_condition(edit, step),
        untouched(change, world),
        old_of(change).id == change.id,
        has_read_all(edit, change),
        with_condition(edit.product@, plain_texts(change.parts), change.start.reading) == goal(
            change,
        ),
        accepted(change) == condition_fits(change),
    ensures
        proceeds(step, change, world),
{
    if !edit.form.fields@.contains_key("condition"@) {
        lemma_to_category(change, edit, step, world);
    }
}

proof fn lemma_to_gender(change: Change, edit: Edit, step: Step<UpdateProduct>, world: World)
    requires
        to_gender(edit, step),
        untouched(change, world),
        old_of(change).id == change.id,
        has_read_all(edit, change),
        with_gender(edit.product@, plain_texts(change.parts), change.start.reading) == goal(change),
        accepted(change) == gender_fits(change),
    ensures
        proceeds(step, change, world),
{
    if !edit.form.fields@.contains_key("gender"@) {
        lemma_to_condition(change, edit, step, world);
    }
}

proof fn lemma_goal(change: Change, product: Product)
    requires
        product@ == old_of(change),
    ensures
        ({
            let f = plain_texts(change.parts);
            let named = ProductShown {
                name: if f.contains_key("name"@) {
                    f["name"@]
                } else {
                    product.name
                },
                description: if f.contains_key("description"@) {
                    f["description"@]
                } else {
                    product.description
                },
                price: if f.contains_key("price"@) {
                    i64_spelled(f["price"@]@)->0
                } else {
                    product.price
                },
                ..product@
            };
            with_gender(named, f, change.start.reading) == goal(change)
        }),
        ({
            let f = plain_texts(change.parts);
            &&& accepted(change) == ((f.contains_key("price"@) ==> i64_spelled(f["price"@]@) is Some)
                && gender_fits(change))
        }),
{
    let parts = change.parts;
    lemma_plain_names();
    lemma_not_the_list();
    lemma_texts_are_last(parts, "name"@);
    lemma_texts_are_last(parts, "description"@);
    lemma_texts_are_last(parts, "price"@);
    lemma_texts_are_last(parts, "gender"@);
    lemma_texts_are_last(parts, "condition"@);
    lemma_texts_are_last(parts, "category"@);
    lemma_texts_are_last(parts, "status"@);
    lemma_texts_are_last(parts, "on_sale"@);
}

proof fn lemma_applies(change: Change, edit: Edit, step: Step<UpdateProduct>, world: World)
    requires
        applies(edit, step),
        untouched(change, world),
        old_of(change).id == change.id,
        has_read_all(edit, change),
        edit.product@ == old_of(change),
    ensures
        proceeds(step, change, world),
{
    lemma_goal(change, edit.product);
    let fields = edit.form.fields@;
    if !(fields.contains_key("price"@) && i64_spelled(fields["price"@]@) is None) {
        lemma_to_gender(change, with_plain_texts(edit), step, world);
    }
}

proof fn lemma_part_read(change: Change, count: int)
    requires
        0 < count <= change.parts.len(),
    ensures
        ({
            let parts = change.parts;
            let part = parts[count - 1];
            let before = parts.take(count - 1);
            let after = parts.take(count);
            &&& after.drop_last() == before
            &&& after.last() == part
            &&& part.name is None ==> plain_texts(after) == plain_texts(before)
            &&& part.name matches Some(name) ==> {
                &&& names_image(name@) ==> plain_texts(after) == plain_texts(before)
                &&& name@ == "urls_to_delete"@ ==> plain_texts(after) == plain_texts(before)
                &&& !names_image(name@) && name@ != "urls_to_delete"@ ==> plain_texts(after)
                    == plain_texts(before).insert(name@, part.text)
            }
        }),
{
    let parts = change.parts;
    let before = parts.take(count - 1);
    let after = parts.take(count);
    let part = parts[count - 1];
    lemma_plain_names();
    assert(after.drop_last() =~= before);
    if part.name is Some {
        let name = part.name->0;
        if names_image(name@) {
        } else if name@ == "urls_to_delete"@ {
            assert(plain_texts(after) =~= plain_texts(before));
        } else {
            assert(plain_texts(after) =~= plain_texts(before).insert(name@, part.text));
        }
    }
}

/// The form is read part by part.
proof fn lemma_reads(
    change: Change,
    stage: UpdateProduct,
    command: Command,
    world: World,
    reply: Reply,
    after: World,
    next: Step<UpdateProduct>,
)
    requires
        under_way(stage, command, change, world),
        old_of(change).id == change.id,
        goes_on(stage, world, command, reply, after, next),
        stage is Reading || stage is ReadingImage || stage is ReadingDeletions
            || stage is ReadingText,
    ensures
        proceeds(next, change, after),
{
    lemma_plain_names();
    let parts = change.parts;
    let count = parts.len() - world.form.len();
    if reply is Failed {
    } else if stage is Reading {
        let edit = stage->Reading_0;
        if world.form.len() == 0 {
            assert(parts.take(count) =~= parts);
            lemma_applies(change, edit, next, after);
        } else {
            let part = parts[count];
            assert(world.form[0] == part);
            assert(after.form =~= parts.skip(count + 1));
            lemma_part_read(change, count + 1);
            assert(parts.len() - after.form.len() == count + 1);
            if next->Perform_0 is Reading {
                assert(has_read(edit, change, count + 1));
            }
        }
    } else {
        lemma_part_read(change, count);
        assert(after == world);
        assert(next->Perform_0 is Reading);
        let edit = next->Perform_0->Reading_0;
        assert(edit.form@.images =~= added_pictures(parts.take(count)));
        assert(has_read(edit, change, count));
    }
}

/// The labels and the status are read one by one.
proof fn lemma_labels(
    change: Change,
    stage: UpdateProduct,
    command: Command,
    world: World,
    reply: Reply,
    after: World,
    next: Step<UpdateProduct>,
)
    requires
        under_way(stage, command, change, world),
        old_of(change).id == change.id,
        goes_on(stage, world, command, reply, after, next),
        stage is ReadingGender || stage is ReadingCondition || stage is ReadingCategory
            || stage is ReadingStatus,
    ensures
        proceeds(next, change, after),
{
    if reply is Failed || reply is Unreadable {
    } else {
        match stage {
            UpdateProduct::ReadingGender(edit) => {
                let gender = reply->Label_0;
                let read = Edit { product: Product { gender, ..edit.product }, ..edit };
                lemma_to_condition(change, read, next, after);
            },
            UpdateProduct::ReadingCondition(edit) => {
                let condition = reply->Label_0;
                let read = Edit { product: Product { condition, ..edit.product }, ..edit };
                lemma_to_category(change, read, next, after);
            },
            UpdateProduct::ReadingCategory(edit) => {
                let category = reply->Label_0;
                let read = Edit { product: Product { category, ..edit.product }, ..edit };
                lemma_to_status(change, read, next, after);
            },
            UpdateProduct::ReadingStatus(edit) => {
                let status = reply->Status_0;
                let read = Edit { product: Product { status, ..edit.product }, ..edit };
                lemma_deletes(change, with_sale(read), next, after);
            },
            _ => {},
        }
    }
}

/// The images are taken away and added.
proof fn lemma_images(
    change: Change,
    stage: UpdateProduct,
    command: Command,
    world: World,
    reply: Reply,
    after: World,
    next: Step<UpdateProduct>,
)
    requires
        under_way(stage, command, change, world),
        old_of(change).id == change.id,
        goes_on(stage, world, command, reply, after, next),
        stage is FindingImages || stage is DeletingImages || stage is Uploading,
        next !is Unexpected,
    ensures
        proceeds(next, change, after),
{
    let kept = retained(old_of(change).images, doomed_by(change.parts));
    if reply is Failed {
    } else {
        match stage {
            UpdateProduct::FindingImages { edit, doomed } => {
                let found = reply->Images_0@;
                let reading = change.start.reading;
                assert(found =~= doomed_by(change.parts).map_values(
                    |address: Seq<char>| (reading.image_ids)(address),
                ));
                lemma_found_images(reading, doomed_by(change.parts), found);
                if found_images(reply->Images_0@).len() == 0 {
                    lemma_uploads(change, edit, kept, next, after);
                }
            },
            UpdateProduct::DeletingImages { edit, doomed } => {
                lemma_uploads(change, edit, kept, next, after);
            },
            UpdateProduct::Uploading { id, product, .. } => {
                let urls = reply->Urls_0@;
                assert(new_images(change, after) =~= urls);
                lemma_saves(change, product, kept + urls, next, after);
            },
            _ => {},
        }
    }
}

/// How a request that is under way ends.
spec fn ends_well(change: Change, outcome: Outcome, end: World) -> bool {
    &&& settled(change.start.committed, end, was_changed(change, end.committed, end))
    &&& outcome is Ok == end.closing is Done
    &&& outcome matches Ok(response) ==> {
        &&& response.status == 200
        &&& response.body matches Body::Product(product)
        &&& product@ == end.committed.products[change.id]
    }
    &&& outcome is Ok ==> end.services == sent(change)
    &&& accepted(change) && !end.failed ==> outcome is Ok
    &&& !accepted(change) ==> end.closing is Untried && end.uploaded == change.start.uploaded
    &&& !accepted(change) && !end.failed ==> (outcome matches Err(error)
        && error@ is UnprocessableEntity && fault_fits(change, error@))
}

proof fn lemma_under_way(
    change: Change,
    step: Step<UpdateProduct>,
    world: World,
    outcome: Outcome,
    end: World,
    fuel: nat,
)
    requires
        runs(step, world, outcome, end, fuel),
        proceeds(step, change, world),
        old_of(change).id == change.id,
    ensures
        ends_well(change, outcome, end),
    decreases fuel,
{
    if step is Perform {
        let stage = step->Perform_0;
        let command = step->Perform_1;
        let (reply, after, next) = lemma_goes_on(step, world, outcome, end, fuel);
        match stage {
            UpdateProduct::Opening { .. } | UpdateProduct::Locking { .. } => {},
            UpdateProduct::RollingBack(_) => {
                assert(next is Finish);
            },
            UpdateProduct::Committing(_) => {
                assert(next is Finish);
            },
            UpdateProduct::Updating => {
                if !(reply is Failed) {
                    let row = command->Query_0->UpdateProduct_product;
                    let found = reply->Product_0->0;
                    assert(found@ == stored(row, old_of(change).created_at, found.updated_at));
                    assert(after.open->0.products[change.id] == found@);
                    assert(was_changed(change, after.open->0, after));
                }
                lemma_under_way(change, next, after, outcome, end, (fuel - 1) as nat);
            },
            UpdateProduct::FindingImages { .. }
            | UpdateProduct::DeletingImages { .. }
            | UpdateProduct::Uploading { .. } => {
                lemma_images(change, stage, command, world, reply, after, next);
                lemma_under_way(change, next, after, outcome, end, (fuel - 1) as nat);
            },
            UpdateProduct::ReadingGender(_)
            | UpdateProduct::ReadingCondition(_)
            | UpdateProduct::ReadingCategory(_)
            | UpdateProduct::ReadingStatus(_) => {
                lemma_labels(change, stage, command, world, reply, after, next);
                lemma_under_way(change, next, after, outcome, end, (fuel - 1) as nat);
            },
            _ => {
                lemma_reads(change, stage, command, world, reply, after, next);
                lemma_under_way(change, next, after, outcome, end, (fuel - 1) as nat);
            },
        }
    }
}

/// Changing a product does all of it or nothing, and changes no other product. A product that is not
/// there is not found. Unless a command fails, the change is made if and only if the form can be
/// used; a form that cannot be used is refused, and nothing is uploaded. Once it is made, the product
/// is stored as the form says, with an address for each image that the form adds, and the answer is
/// the row that is stored.
pub proof fn law_product_changed(
    id: Id,
    start: World,
    outcome: Outcome,
    end: World,
    fuel: nat,
)
    requires
        runs(
            Step::Perform(UpdateProduct::Opening { id }, Command::Begin),
            start,
            outcome,
            end,
            fuel,
        ),
        at_rest(start),
    ensures
        ({
            let images = end.uploaded.skip(start.uploaded.len() as int);
            settled(
                start.committed,
                end,
                end.uploaded == start.uploaded + images && images.len() == added_pictures(
                    start.form,
                ).len() && product_was_changed(
                    start.committed,
                    end.committed,
                    id,
                    start.form,
                    start.reading,
                    images,
                ),
            )
        }),
        outcome is Ok == end.closing is Done,
        outcome is Ok ==> end.uploaded.len() == start.uploaded.len() + added_pictures(
            start.form,
        ).len(),
        outcome is Ok ==> end.services == after_upload(
            after_deletion(start.services, image_ids(start.reading, doomed_by(start.form))),
            added_pictures(start.form),
        ),
        outcome matches Ok(response) ==> {
            &&& response.status == 200
            &&& response.body matches Body::Product(product)
            &&& product@ == end.committed.products[id]
        },
        ({
            let there = start.committed.products.contains_key(id);
            let usable = changeable(start.committed.products[id], start.form, start.reading);
            &&& there && usable && !end.failed ==> outcome is Ok
            &&& !there || !usable ==> end.closing is Untried && end.uploaded == start.uploaded
            &&& !there && !end.failed ==> (outcome matches Err(error) && error@ is NotFound)
            &&& there && !usable && !end.failed ==> (outcome matches Err(error)
                && error@ is UnprocessableEntity && change_refused_for(
                start.committed.products[id],
                start.form,
                start.reading,
                error@,
            ))
        }),
{
    let change = Change { id, parts: start.form, start };
    let parts = start.form;
    let opening = Step::Perform(UpdateProduct::Opening { id }, Command::Begin);
    assert(parts.skip(0) =~= parts);
    assert(parts.take(0) =~= Seq::empty());
    assert(plain_texts(parts.take(0)) =~= Map::empty());
    let (r1, w1, s1) = lemma_goes_on(opening, start, outcome, end, fuel);
    if s1 is Perform {
        let (r2, w2, s2) = lemma_goes_on(s1, w1, outcome, end, (fuel - 1) as nat);
        if s2 is Perform {
            let edit = s2->Perform_0->Reading_0;
            assert(has_read(edit, change, 0));
            assert(proceeds(s2, change, w2));
            lemma_under_way(change, s2, w2, outcome, end, (fuel - 2) as nat);
            lemma_plain_names();
            lemma_not_the_list();
            lemma_texts_are_last(parts, "price"@);
            lemma_texts_are_last(parts, "gender"@);
            lemma_texts_are_last(parts, "condition"@);
            lemma_texts_are_last(parts, "category"@);
            lemma_texts_are_last(parts, "status"@);
        }
    }
}

} // verus!
