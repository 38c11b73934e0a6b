use vfb_catalog::image::{resolve_front_image, segment_identifier, ImageData, ImageType};
use vfb_catalog::values::RawValue;

const BASE: &str = "https://openfoodfacts-images.s3.eu-west-3.amazonaws.com/data/";

#[test]
fn short_identifier_is_not_segmented() {
    assert_eq!(segment_identifier("40111234"), "40111234");
    assert_eq!(segment_identifier(""), "");
    assert_eq!(segment_identifier("1234"), "1234");
}

#[test]
fn nine_character_identifier_gets_two_separators() {
    assert_eq!(segment_identifier("401112345"), "401/112/345");
}

#[test]
fn long_identifier_gets_three_separators() {
    assert_eq!(segment_identifier("4011123456789"), "401/112/345/6789");
    assert_eq!(segment_identifier("4011123456"), "401/112/345/6");
}

#[test]
fn image_for_short_identifier_without_metadata() {
    let url = resolve_front_image(&Some("40111234".to_string()), &None);
    assert_eq!(url, Some(format!("{BASE}40111234/1.400.jpg")));
}

#[test]
fn image_for_long_identifier() {
    let url = resolve_front_image(&Some("4011123456789".to_string()), &None);
    assert_eq!(url, Some(format!("{BASE}401/112/345/6789/1.400.jpg")));
}

#[test]
fn absent_identifier_yields_no_image() {
    let url = resolve_front_image(&None, &None);
    assert_eq!(url, None);
}

#[test]
fn german_image_id_wins() {
    let images = Some(ImageType {
        front_de: Some(ImageData { imgid: Some(RawValue::Int(4)) }),
        front_en: Some(ImageData { imgid: Some(RawValue::Int(9)) }),
    });
    let url = resolve_front_image(&Some("40111234".to_string()), &images);
    assert_eq!(url, Some(format!("{BASE}40111234/4.400.jpg")));
}

#[test]
fn english_image_id_is_the_fallback() {
    let images = Some(ImageType {
        front_de: None,
        front_en: Some(ImageData { imgid: Some(RawValue::Text("\"7\"".to_string())) }),
    });
    let url = resolve_front_image(&Some("40111234".to_string()), &images);
    assert_eq!(url, Some(format!("{BASE}40111234/7.400.jpg")));
}

#[test]
fn selected_entry_without_id_defaults_to_one() {
    let images = Some(ImageType {
        front_de: Some(ImageData { imgid: None }),
        front_en: Some(ImageData { imgid: Some(RawValue::Int(9)) }),
    });
    let url = resolve_front_image(&Some("40111234".to_string()), &images);
    assert_eq!(url, Some(format!("{BASE}40111234/1.400.jpg")));
}

#[test]
fn non_integral_numeric_image_id_yields_no_image() {
    let images = Some(ImageType {
        front_de: Some(ImageData { imgid: Some(RawValue::Decimal((2.5f64).to_string())) }),
        front_en: None,
    });
    let url = resolve_front_image(&Some("40111234".to_string()), &images);
    assert_eq!(url, None);
}

#[test]
fn unexpected_image_id_shape_defaults_to_one() {
    let images = Some(ImageType {
        front_de: Some(ImageData { imgid: Some(RawValue::Other) }),
        front_en: None,
    });
    let url = resolve_front_image(&Some("40111234".to_string()), &images);
    assert_eq!(url, Some(format!("{BASE}40111234/1.400.jpg")));
}

#[test]
fn negative_integral_image_id_yields_no_image() {
    let images = Some(ImageType {
        front_de: Some(ImageData { imgid: Some(RawValue::Decimal((-4i64).to_string())) }),
        front_en: None,
    });
    let url = resolve_front_image(&Some("40111234".to_string()), &images);
    assert_eq!(url, None);
}
