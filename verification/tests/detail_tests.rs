use vfb_catalog::catalog::{VFBNutriments, VFBProduct};
use vfb_catalog::detail::{nutriments_map, product_detail};

fn nutriments_sample() -> VFBNutriments {
    VFBNutriments {
        energy_kcal: "250".to_string(),
        energy_kj: "1046.5".to_string(),
        fat: "12 g".to_string(),
        saturated_fat: "N/A".to_string(),
        carbohydrates: "N/A".to_string(),
        sugars: "0".to_string(),
        fiber: "N/A".to_string(),
        proteins: "8.1".to_string(),
        salt: "0.9".to_string(),
    }
}

fn product() -> VFBProduct {
    VFBProduct {
        id: Some("40111234".to_string()),
        name_de: Some("Apfelsaft".to_string()),
        name_en: Some("Apple juice".to_string()),
        brands: None,
        ingredients_de: None,
        ingredients_en: Some("Apples".to_string()),
        front_image: Some("front.jpg".to_string()),
        nutriments: nutriments_sample(),
        stores_tags: vec!["edeka".to_string()],
    }
}

#[test]
fn lookup_without_hits_is_not_found() {
    assert!(product_detail(Vec::new()).is_none());
}

#[test]
fn first_hit_becomes_the_detail_view() {
    let second = VFBProduct { name_de: Some("Birne".to_string()), ..product() };
    let view = product_detail(vec![product(), second]).expect("one hit must yield a view");
    assert_eq!(view.name, Some("Apfelsaft".to_string()));
    assert_eq!(view.ingredients, Some("Apples".to_string()));
    assert_eq!(view.front_image, Some("front.jpg".to_string()));
    assert_eq!(view.stores, vec!["edeka".to_string()]);
}

#[test]
fn empty_store_tags_stay_empty() {
    let p = VFBProduct { stores_tags: Vec::new(), ..product() };
    let view = product_detail(vec![p]).unwrap();
    assert_eq!(view.stores, Vec::<String>::new());
}

#[test]
fn nutriment_labels_are_fixed_and_ordered() {
    let rows = nutriments_map(nutriments_sample());
    let keys: Vec<&str> = rows.iter().map(|p| p.0.as_str()).collect();
    assert_eq!(
        keys,
        vec![
            "energy kcal",
            "energy kj",
            "fat",
            "saturated fat",
            "carbs",
            "sugar",
            "fiber",
            "protein",
            "salt",
        ]
    );
    assert_eq!(rows[0].1, "250");
    assert_eq!(rows[4].1, "N/A");
    assert_eq!(rows[8].1, "0.9");
}
