//! Which images of a product stay when it is changed.
use crate::handlers::update_product::{retained, UpdateProduct};
use crate::ids::Id;
use crate::json::string_list_in;
use crate::laws::changed_products::{added_pictures, doomed_by, law_product_changed};
use crate::laws::forms::last_text;
use crate::protocol::{Command, Outcome, Step};
use crate::store::{at_rest, runs, Part, World};
use vstd::prelude::*;

verus! {

/// Whether a form asks for this image to be taken away: the last of its lists names the address.
pub open spec fn asked_away(parts: Seq<Part>, image: Seq<char>) -> bool {
    match last_text(parts, "urls_to_delete"@) {
        Some(list) if list@ != ""@ && list@ != "[]"@ => match string_list_in(list@) {
            Some(addresses) => exists|i: int|
                0 <= i < addresses.len() && #[trigger] addresses[i] == image,
            None => false,
        },
        _ => false,
    }
}

/// Whether `kept` is what is left of `images` without those to take away: the images at `places`, in
/// their old order, none of them to be taken away, and every other image is one to take away.
pub open spec fn kept_at(
    images: Seq<String>,
    parts: Seq<Part>,
    kept: Seq<String>,
    places: Seq<int>,
) -> bool {
    &&& places.len() == kept.len()
    &&& forall|i: int, j: int| 0 <= i < j < places.len() ==> places[i] < places[j]
    &&& forall|i: int|
        0 <= i < kept.len() ==> {
            &&& 0 <= #[trigger] places[i] < images.len()
            &&& kept[i] == images[places[i]]
            &&& !asked_away(parts, kept[i]@)
        }
    &&& forall|k: int|
        0 <= k < images.len() && !asked_away(parts, (#[trigger] images[k])@) ==> places.contains(k)
}

/// Whether some images are what is left without those to take away.
pub open spec fn are_kept(images: Seq<String>, parts: Seq<Part>, kept: Seq<String>) -> bool {
    exists|places: Seq<int>| kept_at(images, parts, kept, places)
}

proof fn lemma_retained(images: Seq<String>, doomed: Seq<Seq<char>>, parts: Seq<Part>) -> (places:
    Seq<int>)
    requires
        forall|image: Seq<char>| #[trigger] doomed.contains(image) == asked_away(parts, image),
    ensures
        kept_at(images, parts, retained(images, doomed), places),
    decreases images.len(),
{
    if images.len() == 0 {
        Seq::empty()
    } else {
        let rest = images.drop_last();
        let before = lemma_retained(rest, doomed, parts);
        let image = images.last();
        let kept = retained(images, doomed);
        assert(doomed.contains(image@) == asked_away(parts, image@));
        let places = if doomed.contains(image@) {
            before
        } else {
            before.push(images.len() - 1)
        };
        assert forall|i: int| 0 <= i < kept.len() implies {
            &&& 0 <= #[trigger] places[i] < images.len()
            &&& kept[i] == images[places[i]]
            &&& !asked_away(parts, kept[i]@)
        } by {
            if i < before.len() {
                assert(0 <= before[i] < rest.len());
                assert(rest[before[i]] == images[before[i]]);
            }
        }
        assert forall|k: int|
            0 <= k < images.len() && !asked_away(parts, (#[trigger] images[k])@) implies places.contains(
            k,
        ) by {
            if k < rest.len() {
                assert(rest[k] == images[k]);
                assert(before.contains(k));
                let i = choose|i: int| 0 <= i < before.len() && before[i] == k;
                assert(places[i] == k);
            } else {
                assert(places[places.len() - 1] == k);
            }
        }
        places
    }
}

/// When a product was changed, its images are the old ones without those that the form asks to take
/// away, each as often and in the same order as before, and behind them one for each new image.
pub proof fn law_images_stay_unless_asked_away(
    id: Id,
    start: World,
    outcome: Outcome,
    end: World,
    fuel: nat,
)
    requires
        runs(
            Step::Perform(UpdateProduct::Opening { id }, Command::Begin),
            start,
            outcome,
            end,
            fuel,
        ),
        at_rest(start),
        outcome is Ok,
    ensures
        ({
            let images = end.committed.products[id].images;
            let added = end.uploaded.skip(start.uploaded.len() as int);
            let kept = images.take(images.len() - added.len());
            &&& images == kept + added
            &&& added.len() == added_pictures(start.form).len()
            &&& are_kept(start.committed.products[id].images, start.form, kept)
        }),
{
    law_product_changed(id, start, outcome, end, fuel);
    let parts = start.form;
    let old = start.committed.products[id].images;
    let doomed = doomed_by(parts);
    reveal_strlit("");
    assert forall|image: Seq<char>| #[trigger]
        doomed.contains(image) == asked_away(parts, image) by {
        if let Some(list) = last_text(parts, "urls_to_delete"@) {
            assert(list@.len() == 0 <==> list@ =~= ""@);
            if list@.len() > 0 && list@ != "[]"@ {
                if doomed.contains(image) {
                    let i = choose|i: int| 0 <= i < doomed.len() && doomed[i] == image;
                    assert(string_list_in(list@)->0[i] == image);
                }
            }
        }
    }
    let places = lemma_retained(old, doomed, parts);
    let added = end.uploaded.skip(start.uploaded.len() as int);
    let images = end.committed.products[id].images;
    assert(images == retained(old, doomed) + added);
    assert(images.take(images.len() - added.len()) =~= retained(old, doomed));
}

} // verus!
