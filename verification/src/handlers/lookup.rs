//! Finding products by id.
use crate::ids::Id;
use crate::models::Product;
use std::collections::HashMap;
use vstd::prelude::*;
use vstd::std_specs::hash::group_hash_axioms;

verus! {

/// The place of the last product with this id.
pub open spec fn place_of(products: Seq<Product>, id: Id) -> Option<int>
    decreases products.len(),
{
    if products.len() == 0 {
        None
    } else if products.last().id == id {
        Some(products.len() - 1)
    } else {
        place_of(products.drop_last(), id)
    }
}

/// The product with this id; the last one where there are several.
pub open spec fn product_of(products: Seq<Product>, id: Id) -> Option<Product> {
    match place_of(products, id) {
        Some(place) => Some(products[place]),
        None => None,
    }
}

/// A place that is found holds a product with the id that was looked for.
pub proof fn lemma_place_of(products: Seq<Product>, id: Id)
    ensures
        place_of(products, id) is Some ==> {
            &&& 0 <= place_of(products, id)->0 < products.len()
            &&& products[place_of(products, id)->0].id == id
        },
        place_of(products, id) is None ==> forall|i: int|
            0 <= i < products.len() ==> (#[trigger] products[i]).id != id,
    decreases products.len(),
{
    if products.len() > 0 && products.last().id != id {
        lemma_place_of(products.drop_last(), id);
        assert forall|i: int|
            place_of(products, id) is None && 0 <= i < products.len() implies (
        #[trigger] products[i]).id != id by {
            if i < products.len() - 1 {
                assert(products.drop_last()[i] == products[i]);
            }
        }
    }
}

/// Of several products with one id, the last is found.
pub proof fn law_last_product_is_found(products: Seq<Product>, id: Id, place: int)
    requires
        0 <= place < products.len(),
        products[place].id == id,
        forall|later: int| place < later < products.len() ==> (#[trigger] products[later]).id != id,
    ensures
        product_of(products, id) == Some(products[place]),
    decreases products.len(),
{
    if place < products.len() - 1 {
        let rest = products.drop_last();
        assert(products[products.len() - 1].id != id);
        assert forall|later: int| place < later < rest.len() implies (#[trigger] rest[later]).id
            != id by {
            assert(rest[later] == products[later]);
        }
        law_last_product_is_found(rest, id, place);
        lemma_place_of(rest, id);
    }
}

/// Products by id.
pub struct ProductIndex {
    pub places: HashMap<Id, usize>,
}

impl ProductIndex {
    /// Whether this is the index of `products`.
    pub open spec fn indexes(self, products: Seq<Product>) -> bool {
        forall|id: Id|
            #![trigger self.places@.contains_key(id)]
            #![trigger place_of(products, id)]
            {
                &&& self.places@.contains_key(id) == (place_of(products, id) is Some)
                &&& place_of(products, id) is Some ==> self.places@[id] == place_of(products, id)->0
            }
    }

    /// Notes the place of each product.
    pub fn new(products: &Vec<Product>) -> (index: ProductIndex)
        ensures
            index.indexes(products@),
    {
        broadcast use group_hash_axioms;

        let mut places: HashMap<Id, usize> = HashMap::new();
        for i in 0..products.len()
            invariant
                (ProductIndex { places }).indexes(products@.take(i as int)),
        {
            let ghost before = products@.take(i as int);
            let ghost after = products@.take(i + 1);
            let ghost old_places = places@;
            places.insert(products[i].id, i);
            proof {
                assert(after.drop_last() =~= before);
                assert(places@ == old_places.insert(products@[i as int].id, i));
                assert forall|id: Id|
                    #![trigger places@.contains_key(id)]
                    #![trigger place_of(after, id)]
                    {
                        &&& places@.contains_key(id) == (place_of(after, id) is Some)
                        &&& place_of(after, id) is Some ==> places@[id] == place_of(after, id)->0
                    } by {
                    assert(old_places.contains_key(id) == (place_of(before, id) is Some));
                }
            }
        }
        assert(products@.take(products.len() as int) =~= products@);
        ProductIndex { places }
    }

    /// Finds a product of those that were noted.
    pub fn find<'a>(&self, products: &'a Vec<Product>, id: Id) -> (product: Option<&'a Product>)
        requires
            self.indexes(products@),
        ensures
            product is Some <==> product_of(products@, id) is Some,
            product is Some ==> *product->0 == product_of(products@, id)->0 && product->0.id == id,
    {
        broadcast use group_hash_axioms;

        proof {
            lemma_place_of(products@, id);
        }
        match self.places.get(&id) {
            Some(place) => Some(&products[*place]),
            None => None,
        }
    }
}

} // verus!
