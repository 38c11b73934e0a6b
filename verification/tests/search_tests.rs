use vfb_catalog::catalog::{VFBNutriments, VFBProduct};
use vfb_catalog::locale::Translations;
use vfb_catalog::search::{matching_names, plan_search, search_results, SearchHit, SearchPlan, SearchQuery};

fn table_de() -> Translations {
    let mut t = Translations::new();
    t.add("matches_with".to_string(), "Treffer in".to_string());
    t.add("name".to_string(), "Name".to_string());
    t.add("ingredients".to_string(), "Zutaten".to_string());
    t.add("brands".to_string(), "Marke".to_string());
    t
}

fn na_nutriments() -> VFBNutriments {
    VFBNutriments {
        energy_kcal: "N/A".to_string(),
        energy_kj: "N/A".to_string(),
        fat: "N/A".to_string(),
        saturated_fat: "N/A".to_string(),
        carbohydrates: "N/A".to_string(),
        sugars: "N/A".to_string(),
        fiber: "N/A".to_string(),
        proteins: "N/A".to_string(),
        salt: "N/A".to_string(),
    }
}

fn product(name_de: Option<&str>, name_en: Option<&str>) -> VFBProduct {
    VFBProduct {
        id: Some("40111234".to_string()),
        name_de: name_de.map(|s| s.to_string()),
        name_en: name_en.map(|s| s.to_string()),
        brands: None,
        ingredients_de: None,
        ingredients_en: None,
        front_image: Some("front.jpg".to_string()),
        nutriments: na_nutriments(),
        stores_tags: Vec::new(),
    }
}

#[test]
fn short_query_is_answered_without_the_engine() {
    let query = SearchQuery { search_text: "  ab   ".to_string(), language: "de".to_string() };
    match plan_search(&query, &table_de()) {
        SearchPlan::Skip(t) => {
            assert_eq!(t.products.len(), 0);
            assert_eq!(t.matches_with_text, "Treffer in");
        },
        SearchPlan::Run(_) => panic!("a short query must not reach the search engine"),
    }
}

#[test]
fn long_enough_query_runs_trimmed() {
    let query = SearchQuery { search_text: " apfel ".to_string(), language: "de".to_string() };
    match plan_search(&query, &table_de()) {
        SearchPlan::Run(q) => assert_eq!(q, "apfel"),
        SearchPlan::Skip(_) => panic!("a three-character query must reach the search engine"),
    }
}

#[test]
fn highlight_labels_lose_their_locale_suffix() {
    let keys = vec!["name_de".to_string(), "ingredients_en".to_string()];
    let pairs = matching_names(&keys, &table_de());
    assert_eq!(
        pairs,
        vec![
            ("name".to_string(), "Name".to_string()),
            ("ingredients".to_string(), "Zutaten".to_string()),
        ]
    );
}

#[test]
fn duplicate_highlight_labels_appear_once() {
    let keys = vec!["name_de".to_string(), "name_en".to_string(), "brands".to_string()];
    let pairs = matching_names(&keys, &table_de());
    assert_eq!(
        pairs,
        vec![
            ("name".to_string(), "Name".to_string()),
            ("brands".to_string(), "Marke".to_string()),
        ]
    );
}

#[test]
fn rows_prefer_the_german_name() {
    let hits = vec![SearchHit {
        result: product(Some("Apfelsaft"), Some("Apple juice")),
        matches_position: None,
    }];
    let t = search_results(hits, &"de".to_string(), &table_de());
    assert_eq!(t.products.len(), 1);
    assert_eq!(t.products[0].name, Some("Apfelsaft".to_string()));
    assert_eq!(t.products[0].id, Some("40111234".to_string()));
    assert_eq!(t.products[0].front_image, Some("front.jpg".to_string()));
    assert_eq!(t.products[0].locale, "de");
    assert_eq!(t.matches_with_text, "Treffer in");
}

#[test]
fn rows_fall_back_to_english_on_empty_german_name() {
    let hits = vec![SearchHit {
        result: product(Some(""), Some("Apple juice")),
        matches_position: None,
    }];
    let t = search_results(hits, &"en".to_string(), &table_de());
    assert_eq!(t.products[0].name, Some("Apple juice".to_string()));
}

#[test]
fn rows_without_match_metadata_get_an_empty_highlight_map() {
    let hits = vec![SearchHit { result: product(Some("Apfelsaft"), None), matches_position: None }];
    let t = search_results(hits, &"de".to_string(), &table_de());
    assert_eq!(t.products[0].matches_position.len(), 0);
}

#[test]
fn rows_carry_their_highlight_map() {
    let hits = vec![SearchHit {
        result: product(Some("Apfelsaft"), None),
        matches_position: Some(vec!["name_de".to_string()]),
    }];
    let t = search_results(hits, &"de".to_string(), &table_de());
    assert_eq!(
        t.products[0].matches_position,
        vec![("name".to_string(), "Name".to_string())]
    );
}

#[test]
fn empty_hit_list_still_carries_the_caption() {
    let t = search_results(Vec::new(), &"de".to_string(), &table_de());
    assert_eq!(t.products.len(), 0);
    assert_eq!(t.matches_with_text, "Treffer in");
}
