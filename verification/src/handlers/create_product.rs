//! Adding a product: a form with texts and images is read field by field, checked, and stored.
use crate::headers::{no_headers, plain_name, set_header, with_valid_header, Entries};
use crate::ids::{fresh_id, marked_random, Id};
use crate::json::{json_of, json_text, object_value, text_value, write_json, Json};
use crate::messages::{add_trigger, bare_headers, toast, toast_json, with_trigger};
use crate::models::{ProductStatus, Role, TokenClaims};
use crate::protocol::{
    answer, ends, refuse, Answer, AppError, Body, Command, Content, DatabaseError, Fault, FormField,
    ImageUpload, LabelKind, ProductRow, Query, Reply, Stage, Step,
};
use crate::text::{byte_length, i64_spelled, is_ticked, join, means_ticked, parse_i64, starts_with};
use serde_json::Value;
use vstd::hash_map::StringHashMap;
use vstd::prelude::*;
use vstd::utf8::encode_utf8;

verus! {

/// What was read of the form so far.
pub struct ProductForm {
    pub fields: StringHashMap<String>,
    pub images: Vec<ImageUpload>,
}

/// An image file by its name and bytes.
pub struct Picture {
    pub name: Seq<char>,
    pub bytes: Seq<u8>,
}

/// What was read of a form: the last text under each name, and the images in order.
pub struct Filled {
    pub fields: Map<Seq<char>, String>,
    pub images: Seq<Picture>,
}

impl View for ImageUpload {
    type V = Picture;

    open spec fn view(&self) -> Picture {
        Picture { name: self.file_name@, bytes: self.bytes@ }
    }
}

impl View for ProductForm {
    type V = Filled;

    open spec fn view(&self) -> Filled {
        Filled {
            fields: self.fields@,
            images: self.images@.map_values(|image: ImageUpload| image@),
        }
    }
}

impl Filled {
    pub open spec fn with_text(self, name: Seq<char>, text: String) -> Filled {
        Filled { fields: self.fields.insert(name, text), ..self }
    }

    /// An image without bytes is passed over.
    pub open spec fn with_image(self, name: Seq<char>, bytes: Seq<u8>) -> Filled {
        if bytes.len() == 0 {
            self
        } else {
            Filled { images: self.images.push(Picture { name, bytes }), ..self }
        }
    }
}

impl ProductForm {
    pub fn new() -> (form: ProductForm)
        ensures
            form@ == (Filled { fields: Map::empty(), images: Seq::empty() }),
    {
        let form = ProductForm { fields: StringHashMap::new(), images: Vec::new() };
        assert(form@.images =~= Seq::empty());
        form
    }

    pub fn add_text(&mut self, name: String, text: String)
        ensures
            final(self)@ == old(self)@.with_text(name@, text),
    {
        self.fields.insert(name, text);
    }

    pub fn add_image(&mut self, file_name: String, bytes: Vec<u8>)
        ensures
            final(self)@ == old(self)@.with_image(file_name@, bytes@),
    {
        if bytes.len() > 0 {
            let ghost before = self.images@;
            let image = ImageUpload { file_name, bytes };
            let ghost picture = image@;
            self.images.push(image);
            assert(self@.images =~= before.map_values(|image: ImageUpload| image@).push(picture));
        }
    }
}

/// Whether a form field carries an image.
pub open spec fn names_image(name: Seq<char>) -> bool {
    "image_file_"@.is_prefix_of(name)
}

/// What the new product will be, as far as the form's texts tell.
pub struct Draft {
    pub id: Id,
    pub name: String,
    pub description: String,
    pub price: i64,
    pub gender: String,
    pub condition: String,
    pub category: String,
    pub on_sale: bool,
}

/// How far adding a product has come.
pub enum CreateProduct {
    Reading { id: Id, form: ProductForm },
    ReadingImage { id: Id, form: ProductForm, file_name: String },
    ReadingText { id: Id, form: ProductForm, name: String },
    ReadingGender { draft: Draft, images: Vec<ImageUpload> },
    ReadingCondition { draft: Draft, images: Vec<ImageUpload> },
    ReadingCategory { draft: Draft, images: Vec<ImageUpload> },
    Uploading { draft: Draft },
    Adding,
}

/// Why the texts of a form cannot make a product, before its labels are read.
pub open spec fn form_fault(form: Filled) -> Option<Fault> {
    if !form.fields.contains_key("name"@) {
        Some(Fault::UnprocessableEntity("Brak pola 'name'."@))
    } else if !form.fields.contains_key("description"@) {
        Some(Fault::UnprocessableEntity("Brak pola 'description'"@))
    } else if !form.fields.contains_key("price"@) {
        Some(Fault::UnprocessableEntity("Brak pola 'price'."@))
    } else if !form.fields.contains_key("gender"@) {
        Some(Fault::UnprocessableEntity("Brak pola 'gender'."@))
    } else if !form.fields.contains_key("condition"@) {
        Some(Fault::UnprocessableEntity("Brak pola 'condition'."@))
    } else if !form.fields.contains_key("category"@) {
        Some(Fault::UnprocessableEntity("Brak pola 'category'."@))
    } else if form.images.len() == 0 {
        Some(
            Fault::UnprocessableEntity(
                "Należy przesłac conajmniej jeden plik obrazu ('image_file)"@,
            ),
        )
    } else if i64_spelled(form.fields["price"@]@) is None {
        Some(Fault::UnprocessableEntity("Pole 'price' musi być liczbą całkowitą"@))
    } else {
        None
    }
}

/// The product that the texts of a form describe, with its labels still to be read.
pub open spec fn draft_of(id: Id, fields: Map<Seq<char>, String>) -> Draft {
    Draft {
        id,
        name: fields["name"@],
        description: fields["description"@],
        price: i64_spelled(fields["price"@]@)->0,
        gender: fields["gender"@],
        condition: fields["condition"@],
        category: fields["category"@],
        on_sale: fields.contains_key("on_sale"@) && means_ticked(fields["on_sale"@]@),
    }
}

/// Why a product with all its labels cannot be stored.
pub open spec fn draft_fault(draft: Draft) -> Option<Fault> {
    if draft.name@.len() == 0 || encode_utf8(draft.name@).len() > 255 {
        Some(Fault::UnprocessableEntity("Nieprawidłowa długość pola 'name'"@))
    } else if encode_utf8(draft.description@).len() > 5000 {
        Some(Fault::UnprocessableEntity("Pole 'description' jest za długie"@))
    } else if draft.price < 0 {
        Some(Fault::UnprocessableEntity("Cena nie może być ujemna"@))
    } else {
        None
    }
}

/// The row of the new product.
pub open spec fn new_row(draft: Draft, images: Vec<String>) -> ProductRow {
    ProductRow {
        id: draft.id,
        name: draft.name,
        description: draft.description,
        price: draft.price,
        gender: draft.gender,
        condition: draft.condition,
        category: draft.category,
        status: ProductStatus::Available,
        images,
        on_sale: draft.on_sale,
    }
}

/// Where the page goes once the product is stored.
pub open spec fn product_list_location() -> Json {
    Json::Object(
        seq![
            ("path"@, Json::Text("/htmx/admin/products"@)),
            ("swap"@, Json::Text("innerHTML"@)),
            ("target"@, Json::Text("#admin-content"@)),
        ],
    )
}

/// The headers of the answer to a product that was stored.
pub open spec fn product_added_headers() -> Entries {
    with_valid_header(
        with_trigger(no_headers(), toast_json("Pomyslnie dodano produkt."@, "success"@)),
        "HX-Location"@,
        json_text(product_list_location()),
    )
}

/// The first step of adding a product under a given id.
pub open spec fn product_begins(id: Id, claims: TokenClaims, step: Step<CreateProduct>) -> bool {
    if claims.role != Role::Admin {
        ends(step, Err(Fault::UnauthorizedAccess("Tylko administrator może dodawać produkty"@)))
    } else {
        step matches Step::Perform(CreateProduct::Reading { id: kept, form }, Command::NextField)
            && kept == id && form@ == (Filled { fields: Map::empty(), images: Seq::empty() })
    }
}

/// Begins to add a product under a given id.
pub fn add_product(id: Id, claims: TokenClaims) -> (step: Step<CreateProduct>)
    ensures
        product_begins(id, claims, step),
{
    if claims.role != Role::Admin {
        return refuse(
            AppError::UnauthorizedAccess("Tylko administrator może dodawać produkty".to_owned()),
        );
    }
    Step::Perform(CreateProduct::Reading { id, form: ProductForm::new() }, Command::NextField)
}

/// Begins to add a product under a new random id.
pub fn create_product_handler(claims: TokenClaims) -> (step: Step<CreateProduct>)
    ensures
        exists|id: Id| marked_random(id) && #[trigger] product_begins(id, claims, step),
{
    let id = fresh_id();
    add_product(id, claims)
}

/// Whether a field without a file name, or with one, is read as it should be.
pub open spec fn field_read(
    id: Id,
    form: ProductForm,
    field: FormField,
    step: Step<CreateProduct>,
) -> bool {
    match field.name {
        None => step == Step::Perform(CreateProduct::Reading { id, form }, Command::NextField),
        Some(name) => if names_image(name@) {
            step matches Step::Perform(
                CreateProduct::ReadingImage { id: kept, form: kept_form, file_name },
                Command::ReadBytes,
            ) && kept == id && kept_form == form && file_name@ == match field.file_name {
                Some(given) => given@,
                None => name@ + ".jpg"@,
            }
        } else {
            step == Step::Perform(CreateProduct::ReadingText { id, form, name }, Command::ReadText)
        },
    }
}

fn unprocessable(text: &'static str) -> (step: Step<CreateProduct>)
    ensures
        ends(step, Err(Fault::UnprocessableEntity(text@))),
{
    refuse(AppError::UnprocessableEntity(text.to_owned()))
}

fn read_field(id: Id, form: ProductForm, field: FormField) -> (step: Step<CreateProduct>)
    ensures
        field_read(id, form, field, step),
{
    match field.name {
        None => Step::Perform(CreateProduct::Reading { id, form }, Command::NextField),
        Some(name) => {
            if starts_with(name.as_str(), "image_file_") {
                let file_name = match field.file_name {
                    Some(given) => given,
                    None => join(name.as_str(), ".jpg"),
                };
                Step::Perform(
                    CreateProduct::ReadingImage { id, form, file_name },
                    Command::ReadBytes,
                )
            } else {
                Step::Perform(CreateProduct::ReadingText { id, form, name }, Command::ReadText)
            }
        },
    }
}

/// Whether a form that was read to its end is refused, or its gender read.
pub open spec fn form_read(id: Id, form: ProductForm, step: Step<CreateProduct>) -> bool {
    match form_fault(form@) {
        Some(fault) => ends(step, Err(fault)),
        None => step == Step::Perform(
            CreateProduct::ReadingGender {
                draft: draft_of(id, form.fields@),
                images: form.images,
            },
            Command::ReadLabel { kind: LabelKind::Gender, text: form.fields@["gender"@] },
        ),
    }
}

fn read_form(id: Id, form: ProductForm) -> (step: Step<CreateProduct>)
    ensures
        form_read(id, form, step),
{
    let name = match form.fields.get("name") {
        Some(text) => text.clone(),
        None => {
            return unprocessable("Brak pola 'name'.");
        },
    };
    let description = match form.fields.get("description") {
        Some(text) => text.clone(),
        None => {
            return unprocessable("Brak pola 'description'");
        },
    };
    let price_text = match form.fields.get("price") {
        Some(text) => text.clone(),
        None => {
            return unprocessable("Brak pola 'price'.");
        },
    };
    let gender = match form.fields.get("gender") {
        Some(text) => text.clone(),
        None => {
            return unprocessable("Brak pola 'gender'.");
        },
    };
    let condition = match form.fields.get("condition") {
        Some(text) => text.clone(),
        None => {
            return unprocessable("Brak pola 'condition'.");
        },
    };
    let category = match form.fields.get("category") {
        Some(text) => text.clone(),
        None => {
            return unprocessable("Brak pola 'category'.");
        },
    };
    let on_sale = match form.fields.get("on_sale") {
        Some(text) => is_ticked(text.as_str()),
        None => false,
    };
    if form.images.len() == 0 {
        return unprocessable("Należy przesłac conajmniej jeden plik obrazu ('image_file)");
    }
    let price = match parse_i64(price_text.as_str()) {
        Some(price) => price,
        None => {
            return unprocessable("Pole 'price' musi być liczbą całkowitą");
        },
    };
    let text = gender.clone();
    let draft = Draft { id, name, description, price, gender, condition, category, on_sale };
    Step::Perform(
        CreateProduct::ReadingGender { draft, images: form.images },
        Command::ReadLabel { kind: LabelKind::Gender, text },
    )
}

/// Whether a product with all its labels is refused, or its images stored.
pub open spec fn draft_checked(
    draft: Draft,
    images: Vec<ImageUpload>,
    step: Step<CreateProduct>,
) -> bool {
    match draft_fault(draft) {
        Some(fault) => ends(step, Err(fault)),
        None => step == Step::Perform(
            CreateProduct::Uploading { draft },
            Command::UploadImages { images },
        ),
    }
}

fn check_draft(draft: Draft, images: Vec<ImageUpload>) -> (step: Step<CreateProduct>)
    ensures
        draft_checked(draft, images, step),
{
    if draft.name.as_str().is_empty() || byte_length(draft.name.as_str()) > 255 {
        return unprocessable("Nieprawidłowa długość pola 'name'");
    }
    if byte_length(draft.description.as_str()) > 5000 {
        return unprocessable("Pole 'description' jest za długie");
    }
    if draft.price < 0 {
        return unprocessable("Cena nie może być ujemna");
    }
    Step::Perform(CreateProduct::Uploading { draft }, Command::UploadImages { images })
}

/// Answers a product that was stored.
fn added() -> (step: Step<CreateProduct>)
    ensures
        ends(
            step,
            Ok(
                (Answer {
                    status: 201,
                    headers: product_added_headers(),
                    body: Content::Empty,
                }),
            ),
        ),
{
    let mut headers = bare_headers();
    add_trigger(&mut headers, &toast("Pomyslnie dodano produkt.", "success"));
    proof {
        reveal_strlit("path");
        reveal_strlit("swap");
        reveal_strlit("target");
        reveal_strlit("HX-Location");
        assert(plain_name("HX-Location"@));
    }
    let members = vec![
        ("path", text_value("/htmx/admin/products")),
        ("swap", text_value("innerHTML")),
        ("target", text_value("#admin-content")),
    ];
    let ghost given = members@;
    let location = object_value(members);
    assert(given.map_values(|member: (&'static str, Value)| (member.0@, json_of(member.1)))
        =~= product_list_location()->Object_0);
    set_header(&mut headers, "HX-Location", write_json(&location).as_str());
    answer(201, headers, Body::Empty)
}

impl Stage for CreateProduct {
    open spec fn admits(self, reply: Reply) -> bool {
        true
    }

    open spec fn follows(self, reply: Reply, step: Step<CreateProduct>) -> bool {
        match (self, reply) {
            (_, Reply::Failed(error)) => step == Step::<CreateProduct>::Finish(Err(error)),
            (CreateProduct::Reading { id, form }, Reply::Field(Some(field))) => field_read(
                id,
                form,
                field,
                step,
            ),
            (CreateProduct::Reading { id, form }, Reply::Field(None)) => form_read(id, form, step),
            (
                CreateProduct::ReadingImage { id, form, file_name },
                Reply::Bytes(bytes),
            ) => step matches Step::Perform(
                CreateProduct::Reading { id: kept, form: filled },
                Command::NextField,
            ) && kept == id && filled@ == form@.with_image(file_name@, bytes@),
            (
                CreateProduct::ReadingText { id, form, name },
                Reply::Text(text),
            ) => step matches Step::Perform(
                CreateProduct::Reading { id: kept, form: filled },
                Command::NextField,
            ) && kept == id && filled@ == form@.with_text(name@, text),
            (CreateProduct::ReadingGender { draft, .. }, Reply::Unreadable(_)) => ends(
                step,
                Err(
                    Fault::UnprocessableEntity(
                        "Nieprawidłowa wartość pola 'gender': "@ + draft.gender@,
                    ),
                ),
            ),
            (CreateProduct::ReadingGender { draft, images }, Reply::Label(gender)) => step
                == Step::Perform(
                CreateProduct::ReadingCondition { draft: Draft { gender, ..draft }, images },
                Command::ReadLabel { kind: LabelKind::Condition, text: draft.condition },
            ),
            (CreateProduct::ReadingCondition { draft, .. }, Reply::Unreadable(_)) => ends(
                step,
                Err(
                    Fault::UnprocessableEntity(
                        "Nieprawidłowa wartość pola 'condition': "@ + draft.condition@,
                    ),
                ),
            ),
            (CreateProduct::ReadingCondition { draft, images }, Reply::Label(condition)) => step
                == Step::Perform(
                CreateProduct::ReadingCategory { draft: Draft { condition, ..draft }, images },
                Command::ReadLabel { kind: LabelKind::Category, text: draft.category },
            ),
            (CreateProduct::ReadingCategory { draft, .. }, Reply::Unreadable(_)) => ends(
                step,
                Err(
                    Fault::UnprocessableEntity(
                        "Nieprawidłowa wartość pola 'category': "@ + draft.category@,
                    ),
                ),
            ),
            (
                CreateProduct::ReadingCategory { draft, images },
                Reply::Label(category),
            ) => draft_checked(Draft { category, ..draft }, images, step),
            (CreateProduct::Uploading { draft }, Reply::Urls(urls)) => step == Step::Perform(
                CreateProduct::Adding,
                Command::Query(Query::InsertProduct { product: new_row(draft, urls) }),
            ),
            (CreateProduct::Adding, Reply::Product(Some(_))) => ends(
                step,
                Ok(
                    Answer {
                        status: 201,
                        headers: product_added_headers(),
                        body: Content::Empty,
                    },
                ),
            ),
            (CreateProduct::Adding, Reply::Product(None)) => ends(step, Err(Fault::RowNotFound)),
            _ => step is Unexpected,
        }
    }

    fn accepts(&self, reply: &Reply) -> (yes: bool) {
        true
    }

    fn resume(self, reply: Reply) -> (step: Step<CreateProduct>) {
        match (self, reply) {
            (_, Reply::Failed(error)) => refuse(error),
            (CreateProduct::Reading { id, form }, Reply::Field(Some(field))) => read_field(
                id,
                form,
                field,
            ),
            (CreateProduct::Reading { id, form }, Reply::Field(None)) => read_form(id, form),
            (CreateProduct::ReadingImage { id, form, file_name }, Reply::Bytes(bytes)) => {
                let mut form = form;
                form.add_image(file_name, bytes);
                Step::Perform(CreateProduct::Reading { id, form }, Command::NextField)
            },
            (CreateProduct::ReadingText { id, form, name }, Reply::Text(text)) => {
                let mut form = form;
                form.add_text(name, text);
                Step::Perform(CreateProduct::Reading { id, form }, Command::NextField)
            },
            (CreateProduct::ReadingGender { draft, .. }, Reply::Unreadable(_)) => refuse(
                AppError::UnprocessableEntity(
                    join("Nieprawidłowa wartość pola 'gender': ", draft.gender.as_str()),
                ),
            ),
            (CreateProduct::ReadingGender { draft, images }, Reply::Label(gender)) => {
                let text = draft.condition.clone();
                Step::Perform(
                    CreateProduct::ReadingCondition { draft: Draft { gender, ..draft }, images },
                    Command::ReadLabel { kind: LabelKind::Condition, text },
                )
            },
            (CreateProduct::ReadingCondition { draft, .. }, Reply::Unreadable(_)) => refuse(
                AppError::UnprocessableEntity(
                    join("Nieprawidłowa wartość pola 'condition': ", draft.condition.as_str()),
                ),
            ),
            (CreateProduct::ReadingCondition { draft, images }, Reply::Label(condition)) => {
                let text = draft.category.clone();
                Step::Perform(
                    CreateProduct::ReadingCategory { draft: Draft { condition, ..draft }, images },
                    Command::ReadLabel { kind: LabelKind::Category, text },
                )
            },
            (CreateProduct::ReadingCategory { draft, .. }, Reply::Unreadable(_)) => refuse(
                AppError::UnprocessableEntity(
                    join("Nieprawidłowa wartość pola 'category': ", draft.category.as_str()),
                ),
            ),
            (
                CreateProduct::ReadingCategory { draft, images },
                Reply::Label(category),
            ) => check_draft(Draft { category, ..draft }, images),
            (CreateProduct::Uploading { draft }, Reply::Urls(urls)) => {
                let product = ProductRow {
                    id: draft.id,
                    name: draft.name,
                    description: draft.description,
                    price: draft.price,
                    gender: draft.gender,
                    condition: draft.condition,
                    category: draft.category,
                    status: ProductStatus::Available,
                    images: urls,
                    on_sale: draft.on_sale,
                };
                Step::Perform(
                    CreateProduct::Adding,
                    Command::Query(Query::InsertProduct { product }),
                )
            },
            (CreateProduct::Adding, Reply::Product(Some(_))) => added(),
            (CreateProduct::Adding, Reply::Product(None)) => refuse(
                AppError::SqlxError(DatabaseError::RowNotFound),
            ),
            _ => Step::Unexpected,
        }
    }
}

} // verus!
