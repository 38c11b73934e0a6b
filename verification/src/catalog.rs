//! The catalog data model: raw import records as the document store holds
//! them, and the canonical normalized product schema that the search index
//! stores, together with the normalization from one to the other.

use vstd::prelude::*;
use crate::image::{front_image_spec, resolve_front_image, ImageType};
use crate::locale::clone_opt_string;
use crate::values::{coerce_spec, value_to_nutriments_string, RawValue};

verus! {

/// The nutriment structure of a raw import record: nine optional fields of
/// mixed type, keyed by nutrient name and measured per 100g.
pub struct OFFNutriments {
    pub energy_kcal: Option<RawValue>,
    pub energy_kj: Option<RawValue>,
    pub fat: Option<RawValue>,
    pub saturated_fat: Option<RawValue>,
    pub carbohydrates: Option<RawValue>,
    pub sugars: Option<RawValue>,
    pub fiber: Option<RawValue>,
    pub proteins: Option<RawValue>,
    pub salt: Option<RawValue>,
}

/// The nutriment display map of a normalized product: nine human-readable
/// strings, each `"N/A"` when the raw value was absent or of an unexpected
/// shape.
pub struct VFBNutriments {
    pub energy_kcal: String,
    pub energy_kj: String,
    pub fat: String,
    pub saturated_fat: String,
    pub carbohydrates: String,
    pub sugars: String,
    pub fiber: String,
    pub proteins: String,
    pub salt: String,
}

/// A raw catalog record as the document store holds it. The identifier is
/// the product's trade barcode and the canonical join key between the
/// document store and the search index.
pub struct OffProduct {
    pub id: Option<String>,
    pub product_name_de: Option<String>,
    pub product_name_en: Option<String>,
    pub brands: Option<String>,
    pub ingredients_text_de: Option<String>,
    pub ingredients_text_en: Option<String>,
    pub images: Option<ImageType>,
    pub nutriments: Option<OFFNutriments>,
    pub stores_tags: Option<Vec<String>>,
}

/// A normalized product, the only schema written into the search index. The
/// store tags are a plain list, possibly empty: an absent raw list defaults
/// to the empty list at normalization time.
pub struct VFBProduct {
    pub id: Option<String>,
    pub name_de: Option<String>,
    pub name_en: Option<String>,
    pub brands: Option<String>,
    pub ingredients_de: Option<String>,
    pub ingredients_en: Option<String>,
    pub front_image: Option<String>,
    pub nutriments: VFBNutriments,
    pub stores_tags: Vec<String>,
}

/// The normalized nutriments of a record: each field coerced when the raw
/// structure is present, all nine set to `"N/A"` when it is entirely absent.
pub open spec fn normalized_nutriments(src: Option<OFFNutriments>, out: VFBNutriments) -> bool {
    match src {
        Option::Some(n) => {
            &&& out.energy_kcal@ == coerce_spec(n.energy_kcal)
            &&& out.energy_kj@ == coerce_spec(n.energy_kj)
            &&& out.fat@ == coerce_spec(n.fat)
            &&& out.saturated_fat@ == coerce_spec(n.saturated_fat)
            &&& out.carbohydrates@ == coerce_spec(n.carbohydrates)
            &&& out.sugars@ == coerce_spec(n.sugars)
            &&& out.fiber@ == coerce_spec(n.fiber)
            &&& out.proteins@ == coerce_spec(n.proteins)
            &&& out.salt@ == coerce_spec(n.salt)
        },
        Option::None => {
            &&& out.energy_kcal@ == "N/A"@
            &&& out.energy_kj@ == "N/A"@
            &&& out.fat@ == "N/A"@
            &&& out.saturated_fat@ == "N/A"@
            &&& out.carbohydrates@ == "N/A"@
            &&& out.sugars@ == "N/A"@
            &&& out.fiber@ == "N/A"@
            &&& out.proteins@ == "N/A"@
            &&& out.salt@ == "N/A"@
        },
    }
}

/// `v` is the canonical normalized form of the raw record `p`: localized
/// names, brand and ingredients are copied through (no locale fallback is
/// applied at normalization time), the front image is resolved from the
/// identifier and the image metadata, the nutriments are coerced to display
/// strings, and the store tags are copied through, defaulting to an empty
/// list when absent.
pub open spec fn is_normalization_of(v: VFBProduct, p: OffProduct) -> bool {
    &&& v.id == p.id
    &&& v.name_de == p.product_name_de
    &&& v.name_en == p.product_name_en
    &&& v.brands == p.brands
    &&& v.ingredients_de == p.ingredients_text_de
    &&& v.ingredients_en == p.ingredients_text_en
    &&& v.front_image.deep_view() == front_image_spec(p.id, p.images)
    &&& normalized_nutriments(p.nutriments, v.nutriments)
    &&& v.stores_tags.deep_view() == match p.stores_tags {
        Option::Some(w) => w.deep_view(),
        Option::None => Seq::<Seq<char>>::empty(),
    }
}

impl OFFNutriments {
    /// Coerces each of the nine raw nutriment fields into its display
    /// string.
    pub fn to_vfb_nutriments(&self) -> (r: VFBNutriments)
        ensures
            r.energy_kcal@ == coerce_spec(self.energy_kcal),
            r.energy_kj@ == coerce_spec(self.energy_kj),
            r.fat@ == coerce_spec(self.fat),
            r.saturated_fat@ == coerce_spec(self.saturated_fat),
            r.carbohydrates@ == coerce_spec(self.carbohydrates),
            r.sugars@ == coerce_spec(self.sugars),
            r.fiber@ == coerce_spec(self.fiber),
            r.proteins@ == coerce_spec(self.proteins),
            r.salt@ == coerce_spec(self.salt),
    {
        VFBNutriments {
            energy_kcal: value_to_nutriments_string(&self.energy_kcal),
            energy_kj: value_to_nutriments_string(&self.energy_kj),
            fat: value_to_nutriments_string(&self.fat),
            saturated_fat: value_to_nutriments_string(&self.saturated_fat),
            carbohydrates: value_to_nutriments_string(&self.carbohydrates),
            sugars: value_to_nutriments_string(&self.sugars),
            fiber: value_to_nutriments_string(&self.fiber),
            proteins: value_to_nutriments_string(&self.proteins),
            salt: value_to_nutriments_string(&self.salt),
        }
    }
}

impl VFBNutriments {
    /// The nutriment display map of a record without any nutriment
    /// structure: all nine fields carry the sentinel.
    pub fn not_available() -> (r: VFBNutriments)
        ensures
            normalized_nutriments(Option::None, r),
    {
        VFBNutriments {
            energy_kcal: "N/A".to_owned(),
            energy_kj: "N/A".to_owned(),
            fat: "N/A".to_owned(),
            saturated_fat: "N/A".to_owned(),
            carbohydrates: "N/A".to_owned(),
            sugars: "N/A".to_owned(),
            fiber: "N/A".to_owned(),
            proteins: "N/A".to_owned(),
            salt: "N/A".to_owned(),
        }
    }
}

/// Clones a vector of strings, preserving each element's value.
pub fn clone_string_vec(v: &Vec<String>) -> (r: Vec<String>)
    ensures
        r@ == v@,
{
    let n = v.len();
    let mut out: Vec<String> = Vec::new();
    let mut i: usize = 0;
    while i < n
        invariant
            n == v@.len(),
            i <= n,
            out@ =~= v@.take(i as int),
        decreases n - i,
    {
        out.push(v[i].clone());
        i = i + 1;
    }
    proof {
        assert(out@ =~= v@);
    }
    out
}

impl OffProduct {
    /// Normalizes one raw import record into the canonical indexed form:
    /// fields are copied through by locale, the front image is resolved, the
    /// nutriments are coerced (all nine default to `"N/A"` when the raw
    /// structure is absent), and absent store tags become the empty list.
    pub fn to_vfb(&self) -> (r: VFBProduct)
        ensures
            is_normalization_of(r, *self),
    {
        let stores_tags = match &self.stores_tags {
            Option::Some(v) => clone_string_vec(v),
            Option::None => Vec::new(),
        };
        proof {
            if self.stores_tags is None {
                assert(stores_tags.deep_view() =~= Seq::<Seq<char>>::empty());
            } else {
                assert(stores_tags.deep_view() =~~= self.stores_tags->0.deep_view());
            }
        }
        VFBProduct {
            id: clone_opt_string(&self.id),
            name_de: clone_opt_string(&self.product_name_de),
            name_en: clone_opt_string(&self.product_name_en),
            brands: clone_opt_string(&self.brands),
            ingredients_de: clone_opt_string(&self.ingredients_text_de),
            ingredients_en: clone_opt_string(&self.ingredients_text_en),
            front_image: resolve_front_image(&self.id, &self.images),
            nutriments: match &self.nutriments {
                Option::Some(e) => e.to_vfb_nutriments(),
                Option::None => VFBNutriments::not_available(),
            },
            stores_tags,
        }
    }
}

} // verus!
