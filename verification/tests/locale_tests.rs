use vfb_catalog::locale::{resolve_name, Locales, Translations};
use vfb_catalog::templates::home_page;

fn table_de() -> Translations {
    let mut t = Translations::new();
    t.add("search".to_string(), "Suche".to_string());
    t.add("matches_with".to_string(), "Treffer in".to_string());
    t.add("name".to_string(), "Name".to_string());
    t.add("ingredients".to_string(), "Zutaten".to_string());
    t
}

#[test]
fn locale_codes() {
    assert_eq!(Locales::DE.to_string(), "de");
    assert_eq!(Locales::EN.to_string(), "en");
}

#[test]
fn german_name_wins_when_present() {
    let r = resolve_name(&Some("Apfel".to_string()), &Some("apple".to_string()));
    assert_eq!(r, Some("Apfel".to_string()));
}

#[test]
fn empty_german_name_falls_back_to_english() {
    let r = resolve_name(&Some("".to_string()), &Some("apple".to_string()));
    assert_eq!(r, Some("apple".to_string()));
}

#[test]
fn absent_german_name_falls_back_to_english() {
    let r = resolve_name(&None, &Some("apple".to_string()));
    assert_eq!(r, Some("apple".to_string()));
}

#[test]
fn both_names_absent_resolves_to_nothing() {
    let r = resolve_name(&None, &None);
    assert_eq!(r, None);
}

#[test]
fn lookup_returns_first_matching_value() {
    let t = table_de();
    assert_eq!(t.lookup("search"), "Suche");
    assert_eq!(t.lookup("ingredients"), "Zutaten");
}

#[test]
fn lookup_of_missing_key_returns_the_key() {
    let t = table_de();
    assert_eq!(t.lookup("stores_tags"), "stores_tags");
}

#[test]
fn home_page_defaults_to_german() {
    let t = home_page(None, &table_de());
    assert_eq!(t.search, "Suche");
    assert!(t.locale == Locales::DE);
}

#[test]
fn home_page_keeps_requested_locale() {
    let t = home_page(Some(Locales::EN), &table_de());
    assert!(t.locale == Locales::EN);
}
