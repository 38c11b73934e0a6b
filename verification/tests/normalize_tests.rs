use vfb_catalog::catalog::{OFFNutriments, OffProduct};
use vfb_catalog::image::{ImageData, ImageType};
use vfb_catalog::values::RawValue;

fn nutriments_sample() -> OFFNutriments {
    OFFNutriments {
        energy_kcal: Some(RawValue::Int(250)),
        energy_kj: Some(RawValue::Decimal((1046.5f64).to_string())),
        fat: Some(RawValue::Text("12 g".to_string())),
        saturated_fat: None,
        carbohydrates: Some(RawValue::Other),
        sugars: Some(RawValue::Int(0)),
        fiber: None,
        proteins: Some(RawValue::Decimal((8.1f64).to_string())),
        salt: Some(RawValue::Text("0.9".to_string())),
    }
}

#[test]
fn nutriments_are_coerced_fieldwise() {
    let v = nutriments_sample().to_vfb_nutriments();
    assert_eq!(v.energy_kcal, "250");
    assert_eq!(v.energy_kj, "1046.5");
    assert_eq!(v.fat, "12 g");
    assert_eq!(v.saturated_fat, "N/A");
    assert_eq!(v.carbohydrates, "N/A");
    assert_eq!(v.sugars, "0");
    assert_eq!(v.fiber, "N/A");
    assert_eq!(v.proteins, "8.1");
    assert_eq!(v.salt, "0.9");
}

#[test]
fn normalization_copies_fields_by_locale() {
    let record = OffProduct {
        id: Some("4011123456789".to_string()),
        product_name_de: Some("Apfelsaft".to_string()),
        product_name_en: Some("Apple juice".to_string()),
        brands: Some("Obsthof".to_string()),
        ingredients_text_de: Some("Äpfel".to_string()),
        ingredients_text_en: Some("Apples".to_string()),
        images: Some(ImageType {
            front_de: Some(ImageData { imgid: Some(RawValue::Int(2)) }),
            front_en: None,
        }),
        nutriments: Some(nutriments_sample()),
        stores_tags: Some(vec!["edeka".to_string(), "rewe".to_string()]),
    };
    let v = record.to_vfb();
    assert_eq!(v.id, Some("4011123456789".to_string()));
    assert_eq!(v.name_de, Some("Apfelsaft".to_string()));
    assert_eq!(v.name_en, Some("Apple juice".to_string()));
    assert_eq!(v.brands, Some("Obsthof".to_string()));
    assert_eq!(v.ingredients_de, Some("Äpfel".to_string()));
    assert_eq!(v.ingredients_en, Some("Apples".to_string()));
    assert_eq!(
        v.front_image,
        Some(
            "https://openfoodfacts-images.s3.eu-west-3.amazonaws.com/data/401/112/345/6789/2.400.jpg"
                .to_string()
        )
    );
    assert_eq!(v.nutriments.energy_kcal, "250");
    assert_eq!(v.stores_tags, vec!["edeka".to_string(), "rewe".to_string()]);
}

#[test]
fn absent_nutriments_default_to_na() {
    let record = OffProduct {
        id: Some("40111234".to_string()),
        product_name_de: None,
        product_name_en: None,
        brands: None,
        ingredients_text_de: None,
        ingredients_text_en: None,
        images: None,
        nutriments: None,
        stores_tags: None,
    };
    let v = record.to_vfb();
    assert_eq!(v.nutriments.energy_kcal, "N/A");
    assert_eq!(v.nutriments.energy_kj, "N/A");
    assert_eq!(v.nutriments.fat, "N/A");
    assert_eq!(v.nutriments.saturated_fat, "N/A");
    assert_eq!(v.nutriments.carbohydrates, "N/A");
    assert_eq!(v.nutriments.sugars, "N/A");
    assert_eq!(v.nutriments.fiber, "N/A");
    assert_eq!(v.nutriments.proteins, "N/A");
    assert_eq!(v.nutriments.salt, "N/A");
    assert_eq!(v.stores_tags, Vec::<String>::new());
    assert_eq!(v.name_de, None);
}
