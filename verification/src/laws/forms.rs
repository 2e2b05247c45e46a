//! What a form that was sent in parts comes to.
use crate::handlers::create_product::{names_image, Filled, Picture};
use crate::store::Part;
use vstd::prelude::*;

verus! {

/// The text of the last part with this name.
pub open spec fn last_text(parts: Seq<Part>, name: Seq<char>) -> Option<String>
    decreases parts.len(),
{
    if parts.len() == 0 {
        None
    } else if parts.last().name is Some && parts.last().name->0@ == name {
        Some(parts.last().text)
    } else {
        last_text(parts.drop_last(), name)
    }
}

/// The last text under each name that is not an image's.
pub open spec fn texts_of(parts: Seq<Part>) -> Map<Seq<char>, String>
    decreases parts.len(),
{
    if parts.len() == 0 {
        Map::empty()
    } else {
        let before = texts_of(parts.drop_last());
        match parts.last().name {
            Some(name) => if names_image(name@) {
                before
            } else {
                before.insert(name@, parts.last().text)
            },
            None => before,
        }
    }
}

/// The images of a form for a new product: those with bytes, each under its file name or else under
/// its field's.
pub open spec fn pictures_of(parts: Seq<Part>) -> Seq<Picture>
    decreases parts.len(),
{
    if parts.len() == 0 {
        Seq::empty()
    } else {
        let before = pictures_of(parts.drop_last());
        let part = parts.last();
        match part.name {
            Some(name) => if names_image(name@) && part.bytes.len() > 0 {
                before.push(
                    Picture {
                        name: match part.file_name {
                            Some(given) => given@,
                            None => name@ + ".jpg"@,
                        },
                        bytes: part.bytes,
                    },
                )
            } else {
                before
            },
            None => before,
        }
    }
}

/// What a form for a new product comes to.
pub open spec fn filled_by(parts: Seq<Part>) -> Filled {
    Filled { fields: texts_of(parts), images: pictures_of(parts) }
}

/// A name that is not an image's stands in the form if and only if some part has it, and with the
/// last such part's text.
pub proof fn lemma_texts_are_last(parts: Seq<Part>, name: Seq<char>)
    requires
        !names_image(name),
    ensures
        texts_of(parts).contains_key(name) == (last_text(parts, name) is Some),
        texts_of(parts).contains_key(name) ==> last_text(parts, name) == Some(
            texts_of(parts)[name],
        ),
    decreases parts.len(),
{
    if parts.len() > 0 {
        lemma_texts_are_last(parts.drop_last(), name);
    }
}

/// None of the names of a product's texts is an image's.
pub proof fn lemma_plain_names()
    ensures
        !names_image("name"@),
        !names_image("description"@),
        !names_image("price"@),
        !names_image("gender"@),
        !names_image("condition"@),
        !names_image("category"@),
        !names_image("status"@),
        !names_image("on_sale"@),
        !names_image("urls_to_delete"@),
{
    reveal_strlit("image_file_");
    reveal_strlit("name");
    reveal_strlit("description");
    reveal_strlit("price");
    reveal_strlit("gender");
    reveal_strlit("condition");
    reveal_strlit("category");
    reveal_strlit("status");
    reveal_strlit("on_sale");
    reveal_strlit("urls_to_delete");
    assert("image_file_"@[0] == 'i');
    assert("description"@[0] == 'd');
    assert("urls_to_delete"@[0] == 'u');
    if names_image("description"@) {
        assert("description"@.subrange(0, "image_file_"@.len() as int)[0] == "description"@[0]);
    }
    if names_image("urls_to_delete"@) {
        assert("urls_to_delete"@.subrange(0, "image_file_"@.len() as int)[0]
            == "urls_to_delete"@[0]);
    }
}

/// None of these names is the name of the list of images to take away.
pub proof fn lemma_not_the_list()
    ensures
        "name"@ != "urls_to_delete"@,
        "description"@ != "urls_to_delete"@,
        "price"@ != "urls_to_delete"@,
        "gender"@ != "urls_to_delete"@,
        "condition"@ != "urls_to_delete"@,
        "category"@ != "urls_to_delete"@,
        "status"@ != "urls_to_delete"@,
        "on_sale"@ != "urls_to_delete"@,
{
    reveal_strlit("name");
    reveal_strlit("description");
    reveal_strlit("price");
    reveal_strlit("gender");
    reveal_strlit("condition");
    reveal_strlit("category");
    reveal_strlit("status");
    reveal_strlit("on_sale");
    reveal_strlit("urls_to_delete");
    assert("urls_to_delete"@.len() == 14);
    assert("name"@.len() == 4);
    assert("description"@.len() == 11);
    assert("price"@.len() == 5);
    assert("gender"@.len() == 6);
    assert("condition"@.len() == 9);
    assert("category"@.len() == 8);
    assert("status"@.len() == 6);
    assert("on_sale"@.len() == 7);
}

} // verus!
