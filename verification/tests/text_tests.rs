use vfb_catalog::text::{str_eq, strip_locale_suffix, strip_quotes, trimmed};

#[test]
fn trim_removes_both_ends() {
    assert_eq!(trimmed("  apfel \t\n"), "apfel");
}

#[test]
fn trim_keeps_inner_whitespace() {
    assert_eq!(trimmed(" a b "), "a b");
}

#[test]
fn trim_of_blank_is_empty() {
    assert_eq!(trimmed("   "), "");
    assert_eq!(trimmed(""), "");
}

#[test]
fn quotes_are_stripped() {
    assert_eq!(strip_quotes("\"2\""), "2");
    assert_eq!(strip_quotes("a\"b\"c"), "abc");
    assert_eq!(strip_quotes("plain"), "plain");
}

#[test]
fn locale_suffix_is_stripped() {
    assert_eq!(strip_locale_suffix("name_de"), "name");
    assert_eq!(strip_locale_suffix("ingredients_en"), "ingredients");
}

#[test]
fn non_suffixed_names_are_kept() {
    assert_eq!(strip_locale_suffix("brands"), "brands");
    assert_eq!(strip_locale_suffix("id"), "id");
    assert_eq!(strip_locale_suffix("de"), "de");
}

#[test]
fn only_one_trailing_suffix_is_stripped() {
    assert_eq!(strip_locale_suffix("name_de_en"), "name_de");
}

#[test]
fn str_eq_compares_by_characters() {
    assert!(str_eq("abc", "abc"));
    assert!(!str_eq("abc", "abd"));
    assert!(!str_eq("abc", "ab"));
    assert!(str_eq("", ""));
}
