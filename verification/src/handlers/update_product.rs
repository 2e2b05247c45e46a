//! Changing a product: what a form names is replaced, images are added and taken away, all in one
//! transaction.
use crate::handlers::create_product::{names_image, Filled, ProductForm};
use crate::headers::no_headers;
use crate::ids::Id;
use crate::json::{parse_string_list, string_list_in};
use crate::messages::bare_headers;
use crate::models::{Product, Role, TokenClaims};
use crate::protocol::{
    answer, ends, refuse, Answer, AppError, Body, Command, Content, DatabaseError, Fault,
    FormField, LabelKind, ProductRow, Query, Reply, Stage, Step,
};
use crate::text::{i64_spelled, is_ticked, join, means_ticked, parse_i64, same_text, starts_with};
use vstd::prelude::*;

verus! {

/// A product as it is to become, and what was read of the form.
pub struct Edit {
    pub id: Id,
    pub product: Product,
    pub form: ProductForm,
    /// A JSON list of the addresses of images to take away.
    pub deletions: Option<String>,
}

/// How far changing a product has come.
pub enum UpdateProduct {
    Opening { id: Id },
    Locking { id: Id },
    Reading(Edit),
    ReadingImage { edit: Edit, file_name: String },
    ReadingDeletions(Edit),
    ReadingText { edit: Edit, name: String },
    ReadingGender(Edit),
    ReadingCondition(Edit),
    ReadingCategory(Edit),
    ReadingStatus(Edit),
    FindingImages { edit: Edit, doomed: Vec<String> },
    DeletingImages { edit: Edit, doomed: Vec<String> },
    /// The new images are being stored; `kept` are the addresses of those that stay.
    Uploading { id: Id, product: Product, kept: Vec<String> },
    RollingBack(AppError),
    Updating,
    Committing(Product),
}

/// The texts of a list.
pub open spec fn texts(list: Seq<String>) -> Seq<Seq<char>> {
    list.map_values(|item: String| item@)
}

/// The addresses that are not among those to take away.
pub open spec fn retained(images: Seq<String>, doomed: Seq<Seq<char>>) -> Seq<String>
    decreases images.len(),
{
    if images.len() == 0 {
        Seq::empty()
    } else if doomed.contains(images.last()@) {
        retained(images.drop_last(), doomed)
    } else {
        retained(images.drop_last(), doomed).push(images.last())
    }
}

/// The images that were found, as texts.
pub open spec fn found_images(images: Seq<Option<String>>) -> Seq<String>
    decreases images.len(),
{
    if images.len() == 0 {
        Seq::empty()
    } else {
        match images.last() {
            Some(id) => found_images(images.drop_last()).push(id),
            None => found_images(images.drop_last()),
        }
    }
}

/// Whether the change is given up: the transaction is rolled back, then the fault reported.
pub open spec fn gives_up(fault: Fault, step: Step<UpdateProduct>) -> bool {
    step matches Step::Perform(UpdateProduct::RollingBack(error), Command::Rollback) && error@
        == fault
}

/// Whether the product is written with these images; one without any is not.
pub open spec fn saves(
    id: Id,
    product: Product,
    images: Seq<String>,
    step: Step<UpdateProduct>,
) -> bool {
    if images.len() == 0 {
        gives_up(
            Fault::UnprocessableEntity("Produkt musi mieć przynajmniej jeden obrazek."@),
            step,
        )
    } else {
        step matches Step::Perform(
            UpdateProduct::Updating,
            Command::Query(Query::UpdateProduct { product: row }),
        ) && row.images@ == images && row == (ProductRow {
            id,
            name: product.name,
            description: product.description,
            price: product.price,
            gender: product.gender,
            condition: product.condition,
            category: product.category,
            status: product.status,
            images: row.images,
            on_sale: product.on_sale,
        })
    }
}

/// Whether the new images of the form are stored, where there are any; `kept` stay.
pub open spec fn uploads(edit: Edit, kept: Seq<String>, step: Step<UpdateProduct>) -> bool {
    if edit.form.images@.len() == 0 {
        saves(edit.id, edit.product, kept, step)
    } else {
        step matches Step::Perform(
            UpdateProduct::Uploading { id, product, kept: remaining },
            Command::UploadImages { images },
        ) && id == edit.id && product == edit.product && remaining@ == kept && images
            == edit.form.images
    }
}

/// Whether the images at these addresses are looked up, to be taken away; nothing in place of the
/// addresses stands for a list that could not be read.
pub open spec fn deletes_listed(
    edit: Edit,
    listed: Option<Seq<Seq<char>>>,
    step: Step<UpdateProduct>,
) -> bool {
    match listed {
        None => ends(
            step,
            Err(
                Fault::UnprocessableEntity("Nieprawidłowy format listy URLi do usunięcia."@),
            ),
        ),
        Some(urls) => if urls.len() == 0 {
            uploads(edit, edit.product.images@, step)
        } else {
            step matches Step::Perform(
                UpdateProduct::FindingImages { edit: same, doomed },
                Command::FindImages { urls: asked },
            ) && same == edit && texts(doomed@) == urls && texts(asked@) == urls
        },
    }
}

/// Whether the images that the form names are looked up, to be taken away.
pub open spec fn deletes(edit: Edit, step: Step<UpdateProduct>) -> bool {
    match edit.deletions {
        Some(list) if list@.len() > 0 && list@ != "[]"@ => deletes_listed(
            edit,
            string_list_in(list@),
            step,
        ),
        _ => uploads(edit, edit.product.images@, step),
    }
}

/// The product with its sale flag as the form has it: not on sale unless ticked.
pub open spec fn with_sale(edit: Edit) -> Edit {
    let fields = edit.form.fields@;
    let on_sale = fields.contains_key("on_sale"@) && means_ticked(fields["on_sale"@]@);
    Edit { product: Product { on_sale, ..edit.product }, ..edit }
}

/// Whether the status is read, where the form has one, else what follows it.
pub open spec fn to_status(edit: Edit, step: Step<UpdateProduct>) -> bool {
    if edit.form.fields@.contains_key("status"@) {
        step == Step::Perform(
            UpdateProduct::ReadingStatus(edit),
            Command::ReadStatus { text: edit.form.fields@["status"@] },
        )
    } else {
        deletes(with_sale(edit), step)
    }
}

/// Whether the category is read, where the form has one, else what follows it.
pub open spec fn to_category(edit: Edit, step: Step<UpdateProduct>) -> bool {
    if edit.form.fields@.contains_key("category"@) {
        step == Step::Perform(
            UpdateProduct::ReadingCategory(edit),
            Command::ReadLabel {
                kind: LabelKind::Category,
                text: edit.form.fields@["category"@],
            },
        )
    } else {
        to_status(edit, step)
    }
}

/// Whether the condition is read, where the form has one, else what follows it.
pub open spec fn to_condition(edit: Edit, step: Step<UpdateProduct>) -> bool {
    if edit.form.fields@.contains_key("condition"@) {
        step == Step::Perform(
            UpdateProduct::ReadingCondition(edit),
            Command::ReadLabel {
                kind: LabelKind::Condition,
                text: edit.form.fields@["condition"@],
            },
        )
    } else {
        to_category(edit, step)
    }
}

/// Whether the gender is read, where the form has one, else what follows it.
pub open spec fn to_gender(edit: Edit, step: Step<UpdateProduct>) -> bool {
    if edit.form.fields@.contains_key("gender"@) {
        step == Step::Perform(
            UpdateProduct::ReadingGender(edit),
            Command::ReadLabel { kind: LabelKind::Gender, text: edit.form.fields@["gender"@] },
        )
    } else {
        to_condition(edit, step)
    }
}

/// The product with the name, description and price that the form has.
pub open spec fn with_plain_texts(edit: Edit) -> Edit {
    let fields = edit.form.fields@;
    let product = Product {
        name: if fields.contains_key("name"@) {
            fields["name"@]
        } else {
            edit.product.name
        },
        description: if fields.contains_key("description"@) {
            fields["description"@]
        } else {
            edit.product.description
        },
        price: if fields.contains_key("price"@) {
            i64_spelled(fields["price"@]@)->0
        } else {
            edit.product.price
        },
        ..edit.product
    };
    Edit { product, ..edit }
}

/// Whether the texts of a form that was read to its end are put into the product.
pub open spec fn applies(edit: Edit, step: Step<UpdateProduct>) -> bool {
    let fields = edit.form.fields@;
    if fields.contains_key("price"@) && i64_spelled(fields["price"@]@) is None {
        ends(step, Err(Fault::UnprocessableEntity("Nieprawidłowy format ceny"@)))
    } else {
        to_gender(with_plain_texts(edit), step)
    }
}

/// Whether a field of the form is read as it should be: an image that has a file name, the list of
/// images to take away, or a text. Any other field is passed over.
pub open spec fn edit_field_read(edit: Edit, field: FormField, step: Step<UpdateProduct>) -> bool {
    match field.name {
        None => step == Step::Perform(UpdateProduct::Reading(edit), Command::NextField),
        Some(name) => if names_image(name@) {
            match field.file_name {
                Some(file_name) => step == Step::Perform(
                    UpdateProduct::ReadingImage { edit, file_name },
                    Command::ReadBytes,
                ),
                None => step == Step::Perform(UpdateProduct::Reading(edit), Command::NextField),
            }
        } else if name@ == "urls_to_delete"@ {
            step == Step::Perform(UpdateProduct::ReadingDeletions(edit), Command::ReadText)
        } else {
            step == Step::Perform(UpdateProduct::ReadingText { edit, name }, Command::ReadText)
        },
    }
}

/// Begins to change a product.
pub fn update_product_partial_handler(product_id: Id, claims: TokenClaims) -> (step: Step<
    UpdateProduct,
>)
    ensures
        if claims.role != Role::Admin {
            ends(
                step,
                Err(Fault::UnauthorizedAccess("Tylko administrator może aktualizować produkty"@)),
            )
        } else {
            step == Step::Perform(UpdateProduct::Opening { id: product_id }, Command::Begin)
        },
{
    if claims.role != Role::Admin {
        return refuse(
            AppError::UnauthorizedAccess(
                "Tylko administrator może aktualizować produkty".to_owned(),
            ),
        );
    }
    Step::Perform(UpdateProduct::Opening { id: product_id }, Command::Begin)
}

fn copy_texts(list: &Vec<String>) -> (copy: Vec<String>)
    ensures
        copy@ == list@,
{
    let mut copy: Vec<String> = Vec::new();
    for i in 0..list.len()
        invariant
            copy@ =~= list@.take(i as int),
    {
        copy.push(list[i].clone());
    }
    copy
}

/// Collects the images that were found.
pub(crate) fn collect_found(images: &Vec<Option<String>>) -> (ids: Vec<String>)
    ensures
        ids@ == found_images(images@),
{
    let mut ids: Vec<String> = Vec::new();
    for i in 0..images.len()
        invariant
            ids@ == found_images(images@.take(i as int)),
    {
        assert(images@.take(i + 1).drop_last() =~= images@.take(i as int));
        match &images[i] {
            Some(id) => {
                ids.push(id.clone());
            },
            None => {},
        }
    }
    assert(images@.take(images.len() as int) =~= images@);
    ids
}

fn is_among(list: &Vec<String>, text: &String) -> (yes: bool)
    ensures
        yes == texts(list@).contains(text@),
{
    for i in 0..list.len()
        invariant
            forall|j: int| 0 <= j < i ==> list@[j]@ != text@,
    {
        if same_text(list[i].as_str(), text.as_str()) {
            assert(texts(list@)[i as int] == text@);
            return true;
        }
    }
    assert(!texts(list@).contains(text@)) by {
        if texts(list@).contains(text@) {
            let j = choose|j: int| 0 <= j < texts(list@).len() && texts(list@)[j] == text@;
            assert(list@[j]@ == text@);
        }
    }
    false
}

fn retain(images: &Vec<String>, doomed: &Vec<String>) -> (kept: Vec<String>)
    ensures
        kept@ == retained(images@, texts(doomed@)),
{
    let mut kept: Vec<String> = Vec::new();
    for i in 0..images.len()
        invariant
            kept@ == retained(images@.take(i as int), texts(doomed@)),
    {
        assert(images@.take(i + 1).drop_last() =~= images@.take(i as int));
        if !is_among(doomed, &images[i]) {
            kept.push(images[i].clone());
        }
    }
    assert(images@.take(images.len() as int) =~= images@);
    kept
}

fn save(id: Id, product: Product, images: Vec<String>) -> (step: Step<UpdateProduct>)
    ensures
        saves(id, product, images@, step),
{
    if images.len() == 0 {
        return Step::Perform(
            UpdateProduct::RollingBack(
                AppError::UnprocessableEntity(
                    "Produkt musi mieć przynajmniej jeden obrazek.".to_owned(),
                ),
            ),
            Command::Rollback,
        );
    }
    let row = ProductRow {
        id,
        name: product.name,
        description: product.description,
        price: product.price,
        gender: product.gender,
        condition: product.condition,
        category: product.category,
        status: product.status,
        images,
        on_sale: product.on_sale,
    };
    Step::Perform(
        UpdateProduct::Updating,
        Command::Query(Query::UpdateProduct { product: row }),
    )
}

fn upload(edit: Edit, kept: Vec<String>) -> (step: Step<UpdateProduct>)
    ensures
        uploads(edit, kept@, step),
{
    if edit.form.images.len() == 0 {
        save(edit.id, edit.product, kept)
    } else {
        Step::Perform(
            UpdateProduct::Uploading { id: edit.id, product: edit.product, kept },
            Command::UploadImages { images: edit.form.images },
        )
    }
}

/// Has the images at these addresses looked up, to be taken away; nothing in place of the
/// addresses stands for a list that could not be read.
pub fn delete_listed(edit: Edit, listed: Option<Vec<String>>) -> (step: Step<UpdateProduct>)
    ensures
        deletes_listed(
            edit,
            match listed {
                Some(urls) => Some(texts(urls@)),
                None => None,
            },
            step,
        ),
{
    match listed {
        None => refuse(
            AppError::UnprocessableEntity(
                "Nieprawidłowy format listy URLi do usunięcia.".to_owned(),
            ),
        ),
        Some(doomed) => {
            if doomed.len() == 0 {
                let kept = copy_texts(&edit.product.images);
                upload(edit, kept)
            } else {
                let urls = copy_texts(&doomed);
                Step::Perform(
                    UpdateProduct::FindingImages { edit, doomed },
                    Command::FindImages { urls },
                )
            }
        },
    }
}

fn delete(edit: Edit) -> (step: Step<UpdateProduct>)
    ensures
        deletes(edit, step),
{
    let listed = match &edit.deletions {
        Some(list) => {
            if list.as_str().is_empty() || same_text(list.as_str(), "[]") {
                None
            } else {
                Some(parse_string_list(list.as_str()))
            }
        },
        None => None,
    };
    match listed {
        Some(urls) => delete_listed(edit, urls),
        None => {
            let kept = copy_texts(&edit.product.images);
            upload(edit, kept)
        },
    }
}

fn go_to_status(edit: Edit) -> (step: Step<UpdateProduct>)
    ensures
        to_status(edit, step),
{
    let text = match edit.form.fields.get("status") {
        Some(text) => Some(text.clone()),
        None => None,
    };
    match text {
        Some(text) => Step::Perform(
            UpdateProduct::ReadingStatus(edit),
            Command::ReadStatus { text },
        ),
        None => delete(set_sale(edit)),
    }
}

fn set_sale(edit: Edit) -> (changed: Edit)
    ensures
        changed == with_sale(edit),
{
    let on_sale = match edit.form.fields.get("on_sale") {
        Some(text) => is_ticked(text.as_str()),
        None => false,
    };
    Edit { product: Product { on_sale, ..edit.product }, ..edit }
}

fn go_to_category(edit: Edit) -> (step: Step<UpdateProduct>)
    ensures
        to_category(edit, step),
{
    let text = match edit.form.fields.get("category") {
        Some(text) => Some(text.clone()),
        None => None,
    };
    match text {
        Some(text) => Step::Perform(
            UpdateProduct::ReadingCategory(edit),
            Command::ReadLabel { kind: LabelKind::Category, text },
        ),
        None => go_to_status(edit),
    }
}

fn go_to_condition(edit: Edit) -> (step: Step<UpdateProduct>)
    ensures
        to_condition(edit, step),
{
    let text = match edit.form.fields.get("condition") {
        Some(text) => Some(text.clone()),
        None => None,
    };
    match text {
        Some(text) => Step::Perform(
            UpdateProduct::ReadingCondition(edit),
            Command::ReadLabel { kind: LabelKind::Condition, text },
        ),
        None => go_to_category(edit),
    }
}

fn go_to_gender(edit: Edit) -> (step: Step<UpdateProduct>)
    ensures
        to_gender(edit, step),
{
    let text = match edit.form.fields.get("gender") {
        Some(text) => Some(text.clone()),
        None => None,
    };
    match text {
        Some(text) => Step::Perform(
            UpdateProduct::ReadingGender(edit),
            Command::ReadLabel { kind: LabelKind::Gender, text },
        ),
        None => go_to_condition(edit),
    }
}

fn apply(edit: Edit) -> (step: Step<UpdateProduct>)
    ensures
        applies(edit, step),
{
    let ghost given = edit;
    let mut product = edit.product;
    if let Some(name) = edit.form.fields.get("name") {
        product.name = name.clone();
    }
    if let Some(description) = edit.form.fields.get("description") {
        product.description = description.clone();
    }
    if let Some(price) = edit.form.fields.get("price") {
        match parse_i64(price.as_str()) {
            Some(price) => {
                product.price = price;
            },
            None => {
                return refuse(
                    AppError::UnprocessableEntity("Nieprawidłowy format ceny".to_owned()),
                );
            },
        }
    }
    let changed = Edit { id: edit.id, product, form: edit.form, deletions: edit.deletions };
    assert(changed == with_plain_texts(given));
    go_to_gender(changed)
}

fn read_edit_field(edit: Edit, field: FormField) -> (step: Step<UpdateProduct>)
    ensures
        edit_field_read(edit, field, step),
{
    match field.name {
        None => Step::Perform(UpdateProduct::Reading(edit), Command::NextField),
        Some(name) => {
            if starts_with(name.as_str(), "image_file_") {
                match field.file_name {
                    Some(file_name) => Step::Perform(
                        UpdateProduct::ReadingImage { edit, file_name },
                        Command::ReadBytes,
                    ),
                    None => Step::Perform(UpdateProduct::Reading(edit), Command::NextField),
                }
            } else if same_text(name.as_str(), "urls_to_delete") {
                Step::Perform(UpdateProduct::ReadingDeletions(edit), Command::ReadText)
            } else {
                Step::Perform(UpdateProduct::ReadingText { edit, name }, Command::ReadText)
            }
        },
    }
}

/// Refuses with what is wrong and why.
fn unreadable(what: &'static str, reason: String) -> (step: Step<UpdateProduct>)
    ensures
        ends(step, Err(Fault::UnprocessableEntity(what@ + reason@))),
{
    refuse(AppError::UnprocessableEntity(join(what, reason.as_str())))
}

impl Stage for UpdateProduct {
    open spec fn admits(self, reply: Reply) -> bool {
        true
    }

    open spec fn follows(self, reply: Reply, step: Step<UpdateProduct>) -> bool {
        match (self, reply) {
            (UpdateProduct::RollingBack(error), _) => step == Step::<UpdateProduct>::Finish(
                Err(error),
            ),
            (
                UpdateProduct::DeletingImages { .. } | UpdateProduct::Uploading { .. },
                Reply::Failed(error),
            ) => step == Step::Perform(UpdateProduct::RollingBack(error), Command::Rollback),
            (_, Reply::Failed(error)) => step == Step::<UpdateProduct>::Finish(Err(error)),
            (UpdateProduct::Opening { id }, Reply::Done) => step == Step::Perform(
                UpdateProduct::Locking { id },
                Command::Query(Query::LockProduct { id }),
            ),
            (UpdateProduct::Locking { .. }, Reply::Product(None)) => ends(
                step,
                Err(Fault::NotFound),
            ),
            (
                UpdateProduct::Locking { id },
                Reply::Product(Some(product)),
            ) => step matches Step::Perform(UpdateProduct::Reading(edit), Command::NextField)
                && edit.id == id && edit.product == product && edit.deletions is None && edit.form@
                == (Filled { fields: Map::empty(), images: Seq::empty() }),
            (UpdateProduct::Reading(edit), Reply::Field(Some(field))) => edit_field_read(
                edit,
                field,
                step,
            ),
            (UpdateProduct::Reading(edit), Reply::Field(None)) => applies(edit, step),
            (
                UpdateProduct::ReadingImage { edit, file_name },
                Reply::Bytes(bytes),
            ) => step matches Step::Perform(UpdateProduct::Reading(filled), Command::NextField)
                && filled.form@ == edit.form@.with_image(file_name@, bytes@) && filled == (Edit {
                form: filled.form,
                ..edit
            }),
            (UpdateProduct::ReadingDeletions(edit), Reply::Text(list)) => step == Step::Perform(
                UpdateProduct::Reading(Edit { deletions: Some(list), ..edit }),
                Command::NextField,
            ),
            (
                UpdateProduct::ReadingText { edit, name },
                Reply::Text(text),
            ) => step matches Step::Perform(UpdateProduct::Reading(filled), Command::NextField)
                && filled.form@ == edit.form@.with_text(name@, text) && filled == (Edit {
                form: filled.form,
                ..edit
            }),
            (UpdateProduct::ReadingGender(_), Reply::Unreadable(reason)) => ends(
                step,
                Err(Fault::UnprocessableEntity("Nieprawidłowa płeć: "@ + reason@)),
            ),
            (UpdateProduct::ReadingGender(edit), Reply::Label(gender)) => to_condition(
                Edit { product: Product { gender, ..edit.product }, ..edit },
                step,
            ),
            (UpdateProduct::ReadingCondition(_), Reply::Unreadable(reason)) => ends(
                step,
                Err(Fault::UnprocessableEntity("Nieprawidłowy stan: "@ + reason@)),
            ),
            (UpdateProduct::ReadingCondition(edit), Reply::Label(condition)) => to_category(
                Edit { product: Product { condition, ..edit.product }, ..edit },
                step,
            ),
            (UpdateProduct::ReadingCategory(_), Reply::Unreadable(reason)) => ends(
                step,
                Err(Fault::UnprocessableEntity("Nieprawidłowa kategoria: "@ + reason@)),
            ),
            (UpdateProduct::ReadingCategory(edit), Reply::Label(category)) => to_status(
                Edit { product: Product { category, ..edit.product }, ..edit },
                step,
            ),
            (UpdateProduct::ReadingStatus(_), Reply::Unreadable(reason)) => ends(
                step,
                Err(Fault::UnprocessableEntity("Nieprawidłowy status: "@ + reason@)),
            ),
            (UpdateProduct::ReadingStatus(edit), Reply::Status(status)) => deletes(
                with_sale(Edit { product: Product { status, ..edit.product }, ..edit }),
                step,
            ),
            (
                UpdateProduct::FindingImages { edit, doomed },
                Reply::Images(images),
            ) => if found_images(images@).len() == 0 {
                uploads(edit, retained(edit.product.images@, texts(doomed@)), step)
            } else {
                step matches Step::Perform(stage, Command::DeleteImages { ids }) && stage == (
                UpdateProduct::DeletingImages { edit, doomed }) && ids@ == found_images(images@)
            },
            (UpdateProduct::DeletingImages { edit, doomed }, Reply::Done) => uploads(
                edit,
                retained(edit.product.images@, texts(doomed@)),
                step,
            ),
            (UpdateProduct::Uploading { id, product, kept }, Reply::Urls(urls)) => saves(
                id,
                product,
                kept@ + urls@,
                step,
            ),
            (UpdateProduct::Updating, Reply::Product(None)) => ends(step, Err(Fault::RowNotFound)),
            (UpdateProduct::Updating, Reply::Product(Some(product))) => step == Step::Perform(
                UpdateProduct::Committing(product),
                Command::Commit,
            ),
            (UpdateProduct::Committing(product), Reply::Done) => ends(
                step,
                Ok(
                    Answer {
                        status: 200,
                        headers: no_headers(),
                        body: Content::Product(product),
                    },
                ),
            ),
            _ => step is Unexpected,
        }
    }

    fn accepts(&self, reply: &Reply) -> (yes: bool) {
        true
    }

    fn resume(self, reply: Reply) -> (step: Step<UpdateProduct>) {
        match (self, reply) {
            (UpdateProduct::RollingBack(error), _) => refuse(error),
            (
                UpdateProduct::DeletingImages { .. } | UpdateProduct::Uploading { .. },
                Reply::Failed(error),
            ) => Step::Perform(UpdateProduct::RollingBack(error), Command::Rollback),
            (_, Reply::Failed(error)) => refuse(error),
            (UpdateProduct::Opening { id }, Reply::Done) => Step::Perform(
                UpdateProduct::Locking { id },
                Command::Query(Query::LockProduct { id }),
            ),
            (UpdateProduct::Locking { .. }, Reply::Product(None)) => refuse(AppError::NotFound),
            (UpdateProduct::Locking { id }, Reply::Product(Some(product))) => {
                let edit = Edit { id, product, form: ProductForm::new(), deletions: None };
                Step::Perform(UpdateProduct::Reading(edit), Command::NextField)
            },
            (UpdateProduct::Reading(edit), Reply::Field(Some(field))) => read_edit_field(
                edit,
                field,
            ),
            (UpdateProduct::Reading(edit), Reply::Field(None)) => apply(edit),
            (UpdateProduct::ReadingImage { edit, file_name }, Reply::Bytes(bytes)) => {
                let mut edit = edit;
                edit.form.add_image(file_name, bytes);
                Step::Perform(UpdateProduct::Reading(edit), Command::NextField)
            },
            (UpdateProduct::ReadingDeletions(edit), Reply::Text(list)) => Step::Perform(
                UpdateProduct::Reading(Edit { deletions: Some(list), ..edit }),
                Command::NextField,
            ),
            (UpdateProduct::ReadingText { edit, name }, Reply::Text(text)) => {
                let mut edit = edit;
                edit.form.add_text(name, text);
                Step::Perform(UpdateProduct::Reading(edit), Command::NextField)
            },
            (UpdateProduct::ReadingGender(_), Reply::Unreadable(reason)) => unreadable(
                "Nieprawidłowa płeć: ",
                reason,
            ),
            (UpdateProduct::ReadingGender(edit), Reply::Label(gender)) => go_to_condition(
                Edit { product: Product { gender, ..edit.product }, ..edit },
            ),
            (UpdateProduct::ReadingCondition(_), Reply::Unreadable(reason)) => unreadable(
                "Nieprawidłowy stan: ",
                reason,
            ),
            (UpdateProduct::ReadingCondition(edit), Reply::Label(condition)) => go_to_category(
                Edit { product: Product { condition, ..edit.product }, ..edit },
            ),
            (UpdateProduct::ReadingCategory(_), Reply::Unreadable(reason)) => unreadable(
                "Nieprawidłowa kategoria: ",
                reason,
            ),
            (UpdateProduct::ReadingCategory(edit), Reply::Label(category)) => go_to_status(
                Edit { product: Product { category, ..edit.product }, ..edit },
            ),
            (UpdateProduct::ReadingStatus(_), Reply::Unreadable(reason)) => unreadable(
                "Nieprawidłowy status: ",
                reason,
            ),
            (UpdateProduct::ReadingStatus(edit), Reply::Status(status)) => delete(
                set_sale(Edit { product: Product { status, ..edit.product }, ..edit }),
            ),
            (UpdateProduct::FindingImages { edit, doomed }, Reply::Images(images)) => {
                let ids = collect_found(&images);
                if ids.len() == 0 {
                    let kept = retain(&edit.product.images, &doomed);
                    upload(edit, kept)
                } else {
                    Step::Perform(
                        UpdateProduct::DeletingImages { edit, doomed },
                        Command::DeleteImages { ids },
                    )
                }
            },
            (UpdateProduct::DeletingImages { edit, doomed }, Reply::Done) => {
                let kept = retain(&edit.product.images, &doomed);
                upload(edit, kept)
            },
            (UpdateProduct::Uploading { id, product, kept }, Reply::Urls(urls)) => {
                let mut images = kept;
                let mut urls = urls;
                images.append(&mut urls);
                save(id, product, images)
            },
            (UpdateProduct::Updating, Reply::Product(None)) => refuse(
                AppError::SqlxError(DatabaseError::RowNotFound),
            ),
            (UpdateProduct::Updating, Reply::Product(Some(product))) => Step::Perform(
                UpdateProduct::Committing(product),
                Command::Commit,
            ),
            (UpdateProduct::Committing(product), Reply::Done) => answer(
                200,
                bare_headers(),
                Body::Product(product),
            ),
            _ => Step::Unexpected,
        }
    }
}

} // verus!
