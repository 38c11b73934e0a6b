//! Display-ready views: the search result list, the product detail view and
//! the home page. The surrounding process renders them; the library only
//! fills them.

use vstd::prelude::*;
use crate::locale::{Locales, Translations};

verus! {

/// One row of the search result list.
pub struct ProductListResult {
    /// The product identifier; also the trade barcode.
    pub id: Option<String>,
    /// The locale-fallback-resolved display name.
    pub name: Option<String>,
    /// The resolved front-image URL.
    pub front_image: Option<String>,
    /// Matched-field labels mapped to localized highlight labels, in first
    /// appearance order, each label once.
    pub matches_position: Vec<(String, String)>,
    /// The effective UI locale the labels were resolved under.
    pub locale: String,
}

/// The search result list, with its locale-specific caption.
pub struct ProductListTemplate {
    pub products: Vec<ProductListResult>,
    pub matches_with_text: String,
}

/// The detail view of one product.
pub struct ProductInfoTemplate {
    pub name: Option<String>,
    pub ingredients: Option<String>,
    pub front_image: Option<String>,
    /// The nutriment label map: display key to display value.
    pub nutriments: Vec<(String, String)>,
    pub stores: Vec<String>,
}

/// The home page: its localized search caption and the effective locale.
pub struct HomeTemplate {
    pub search: String,
    pub locale: Locales,
}

/// Composes the home page for a requested locale, defaulting to German when
/// the request names none; the search caption comes from the locale's
/// translation table.
pub fn home_page(locale: Option<Locales>, tr: &Translations) -> (t: HomeTemplate)
    ensures
        t.locale == locale.unwrap_or(Locales::DE),
        t.search@ == tr.spec_lookup("search"@),
{
    let effective = match locale {
        Option::Some(l) => l,
        Option::None => Locales::DE,
    };
    HomeTemplate { search: tr.lookup("search"), locale: effective }
}

} // verus!
