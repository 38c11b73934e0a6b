//! The detail composer: projects the first hit of an identifier lookup into
//! a display-ready detail view, or reports not-found when there is no hit.
//!
//! The lookup itself runs the identifier as a free-text query against the
//! search index (a best-effort lookup, not an exact-key fetch); the
//! surrounding process performs it and hands the hits in.

use vstd::prelude::*;
use crate::catalog::{VFBNutriments, VFBProduct};
use crate::locale::{resolve_locale_spec, resolve_name};
use crate::templates::ProductInfoTemplate;

verus! {

/// An incoming detail request: the product identifier to look up.
pub struct InfoQuery {
    pub id: String,
}

/// The fixed nutriment label map of a detail view: the nine display keys, in
/// order, each mapped to the already-coerced display value.
pub open spec fn nutriment_rows_spec(n: VFBNutriments) -> Seq<(Seq<char>, Seq<char>)> {
    seq![
        ("energy kcal"@, n.energy_kcal@),
        ("energy kj"@, n.energy_kj@),
        ("fat"@, n.fat@),
        ("saturated fat"@, n.saturated_fat@),
        ("carbs"@, n.carbohydrates@),
        ("sugar"@, n.sugars@),
        ("fiber"@, n.fiber@),
        ("protein"@, n.proteins@),
        ("salt"@, n.salt@),
    ]
}

/// Projects the nutriment display map into the fixed set of nine
/// human-readable labels, in order.
pub fn nutriments_map(nutriments: VFBNutriments) -> (r: Vec<(String, String)>)
    ensures
        r.deep_view() == nutriment_rows_spec(nutriments),
{
    let VFBNutriments {
        energy_kcal,
        energy_kj,
        fat,
        saturated_fat,
        carbohydrates,
        sugars,
        fiber,
        proteins,
        salt,
    } = nutriments;
    let mut m: Vec<(String, String)> = Vec::new();
    m.push(("energy kcal".to_owned(), energy_kcal));
    m.push(("energy kj".to_owned(), energy_kj));
    m.push(("fat".to_owned(), fat));
    m.push(("saturated fat".to_owned(), saturated_fat));
    m.push(("carbs".to_owned(), carbohydrates));
    m.push(("sugar".to_owned(), sugars));
    m.push(("fiber".to_owned(), fiber));
    m.push(("protein".to_owned(), proteins));
    m.push(("salt".to_owned(), salt));
    proof {
        assert(m.deep_view() =~~= nutriment_rows_spec(nutriments));
    }
    m
}

/// A detail view correctly projected from one stored product: name and
/// ingredients resolved German-first, the image copied through, the fixed
/// nutriment label map, and the store tags copied through (already a plain,
/// possibly empty list since normalization).
pub open spec fn detail_of(t: ProductInfoTemplate, p: VFBProduct) -> bool {
    &&& t.name.deep_view() == resolve_locale_spec(p.name_de.deep_view(), p.name_en.deep_view())
    &&& t.ingredients.deep_view() == resolve_locale_spec(
        p.ingredients_de.deep_view(),
        p.ingredients_en.deep_view(),
    )
    &&& t.front_image == p.front_image
    &&& t.nutriments.deep_view() == nutriment_rows_spec(p.nutriments)
    &&& t.stores == p.stores_tags
}

/// Projects the hits of a detail lookup: the first hit becomes the detail
/// view, and an empty hit list is a not-found outcome — a normal, reportable
/// condition, not a failure and not a defaulted success.
pub fn product_detail(hits: Vec<VFBProduct>) -> (r: Option<ProductInfoTemplate>)
    ensures
        (r is None) <==> hits@.len() == 0,
        hits@.len() > 0 ==> (r matches Option::Some(t) && detail_of(t, hits@[0])),
{
    let mut hits = hits;
    if hits.len() == 0 {
        return Option::None;
    }
    let first = hits.remove(0);
    let name = resolve_name(&first.name_de, &first.name_en);
    let ingredients = resolve_name(&first.ingredients_de, &first.ingredients_en);
    let VFBProduct { front_image, nutriments, stores_tags, .. } = first;
    Option::Some(
        ProductInfoTemplate {
            name,
            ingredients,
            front_image,
            nutriments: nutriments_map(nutriments),
            stores: stores_tags,
        },
    )
}

} // verus!
