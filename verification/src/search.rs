//! The query composer: the low-signal-query guard, and the assembly of
//! result rows out of search-engine hits, including the locale-agnostic
//! highlight labels.
//!
//! The search engine itself is an asynchronous collaborator of the
//! surrounding process: `plan_search` decides whether it is consulted at all
//! and with which query text, and `search_results` turns the hits it
//! returned into the result list. A failure of the engine is fatal for the
//! request and composes nothing.

use vstd::prelude::*;
use vstd::string::*;
use crate::catalog::VFBProduct;
use crate::locale::{clone_opt_string, resolve_locale_spec, resolve_name, Translations};
use crate::templates::{ProductListResult, ProductListTemplate};
use crate::text::{str_eq, strip_locale_suffix, strip_locale_suffix_spec, trim_spec, trimmed};

verus! {

/// An incoming search request: its free text and its UI locale.
pub struct SearchQuery {
    pub search_text: String,
    pub language: String,
}

/// What a search request leads to: a short query is answered with an empty
/// result list and the search engine is not consulted; any other query is
/// run against the engine with its trimmed text.
pub enum SearchPlan {
    Skip(ProductListTemplate),
    Run(String),
}

/// One hit of the search engine: the stored normalized product, and the
/// internal names of the fields the query matched in, when the engine
/// reported match positions.
pub struct SearchHit {
    pub result: VFBProduct,
    pub matches_position: Option<Vec<String>>,
}

/// Decides whether the search engine is consulted: a query whose trimmed
/// text is shorter than three characters short-circuits to an empty result
/// list (which still carries the locale's "matches with" caption), and the
/// engine is consulted exactly otherwise, with the trimmed text.
pub fn plan_search(query: &SearchQuery, tr: &Translations) -> (p: SearchPlan)
    ensures
        trim_spec(query.search_text@).len() < 3 ==> (p matches SearchPlan::Skip(t)
            && t.products@ == Seq::<ProductListResult>::empty() && t.matches_with_text@
            == tr.spec_lookup("matches_with"@)),
        trim_spec(query.search_text@).len() >= 3 ==> (p matches SearchPlan::Run(q) && q@
            == trim_spec(query.search_text@)),
{
    let q = trimmed(query.search_text.as_str());
    if q.as_str().unicode_len() < 3 {
        SearchPlan::Skip(
            ProductListTemplate {
                products: Vec::new(),
                matches_with_text: tr.lookup("matches_with"),
            },
        )
    } else {
        SearchPlan::Run(q)
    }
}

/// Whether some pair carries this key.
pub open spec fn pairs_contain_key(pairs: Seq<(Seq<char>, Seq<char>)>, k: Seq<char>) -> bool {
    exists|i: int| 0 <= i < pairs.len() && pairs[i].0 == k
}

/// The highlight map derived from the matched-field names: each name loses
/// its trailing locale suffix, and each resulting label appears once, in
/// first-appearance order, mapped to its translation.
pub open spec fn highlights_spec(keys: Seq<Seq<char>>, tr: Translations) -> Seq<
    (Seq<char>, Seq<char>),
>
    decreases keys.len(),
{
    if keys.len() == 0 {
        Seq::empty()
    } else {
        let prev = highlights_spec(keys.drop_last(), tr);
        let label = strip_locale_suffix_spec(keys.last());
        if pairs_contain_key(prev, label) {
            prev
        } else {
            prev.push((label, tr.spec_lookup(label)))
        }
    }
}

fn pairs_contain(pairs: &Vec<(String, String)>, k: &str) -> (r: bool)
    ensures
        r == pairs_contain_key(pairs.deep_view(), k@),
{
    let n = pairs.len();
    let mut i: usize = 0;
    while i < n
        invariant
            n == pairs@.len(),
            i <= n,
            forall|j: int| 0 <= j < i ==> pairs.deep_view()[j].0 != k@,
        decreases n - i,
    {
        if str_eq(pairs[i].0.as_str(), k) {
            proof {
                assert(pairs.deep_view()[i as int].0 == k@);
            }
            return true;
        }
        i = i + 1;
    }
    false
}

/// Turns the matched-field names of one hit into its highlight map: strips
/// the locale suffix off each name and resolves the label through the
/// locale's translation table, keeping each label once, in first-appearance
/// order.
pub fn matching_names(keys: &Vec<String>, tr: &Translations) -> (r: Vec<(String, String)>)
    ensures
        r.deep_view() == highlights_spec(keys.deep_view(), *tr),
{
    let n = keys.len();
    let mut out: Vec<(String, String)> = Vec::new();
    proof {
        assert(keys.deep_view().take(0) =~= Seq::<Seq<char>>::empty());
        assert(out.deep_view() =~= highlights_spec(keys.deep_view().take(0), *tr));
    }
    let mut i: usize = 0;
    while i < n
        invariant
            n == keys@.len(),
            i <= n,
            out.deep_view() == highlights_spec(keys.deep_view().take(i as int), *tr),
        decreases n - i,
    {
        let ghost prev = out.deep_view();
        let label = strip_locale_suffix(keys[i].as_str());
        proof {
            assert(keys.deep_view().take(i + 1).drop_last() =~= keys.deep_view().take(i as int));
            assert(keys.deep_view().take(i + 1).last() == keys.deep_view()[i as int]);
            assert(keys.deep_view()[i as int] == keys@[i as int]@);
        }
        if !pairs_contain(&out, label.as_str()) {
            let value = tr.lookup(label.as_str());
            out.push((label, value));
            proof {
                assert(out.deep_view() =~= prev.push(
                    (strip_locale_suffix_spec(keys@[i as int]@), tr.spec_lookup(
                        strip_locale_suffix_spec(keys@[i as int]@),
                    )),
                ));
            }
        }
        i = i + 1;
    }
    proof {
        assert(keys.deep_view().take(n as int) =~= keys.deep_view());
    }
    out
}

/// One result row correctly composed from one hit: identifier and image
/// copied through, the name resolved German-first, the highlight map derived
/// from the matched fields (empty when the engine reported none), and the
/// effective locale carried along.
pub open spec fn row_matches(
    row: ProductListResult,
    hit: SearchHit,
    locale: Seq<char>,
    tr: Translations,
) -> bool {
    &&& row.id == hit.result.id
    &&& row.name.deep_view() == resolve_locale_spec(
        hit.result.name_de.deep_view(),
        hit.result.name_en.deep_view(),
    )
    &&& row.front_image == hit.result.front_image
    &&& row.matches_position.deep_view() == match hit.matches_position {
        Option::Some(keys) => highlights_spec(keys.deep_view(), tr),
        Option::None => Seq::<(Seq<char>, Seq<char>)>::empty(),
    }
    &&& row.locale@ == locale
}

/// Assembles the result list out of the search engine's hits: one row per
/// hit, in hit order, and the locale's "matches with" caption.
pub fn search_results(hits: Vec<SearchHit>, language: &String, tr: &Translations) -> (t:
    ProductListTemplate)
    ensures
        t.matches_with_text@ == tr.spec_lookup("matches_with"@),
        t.products@.len() == hits@.len(),
        forall|i: int|
            0 <= i < hits@.len() ==> row_matches(#[trigger] t.products@[i], hits@[i], language@, *tr),
{
    let n = hits.len();
    let mut products: Vec<ProductListResult> = Vec::new();
    let mut i: usize = 0;
    while i < n
        invariant
            n == hits@.len(),
            i <= n,
            products@.len() == i,
            forall|j: int|
                0 <= j < i ==> row_matches(#[trigger] products@[j], hits@[j], language@, *tr),
        decreases n - i,
    {
        let hit = &hits[i];
        let row = ProductListResult {
            id: clone_opt_string(&hit.result.id),
            name: resolve_name(&hit.result.name_de, &hit.result.name_en),
            front_image: clone_opt_string(&hit.result.front_image),
            matches_position: match &hit.matches_position {
                Option::Some(keys) => matching_names(keys, tr),
                Option::None => Vec::new(),
            },
            locale: language.clone(),
        };
        proof {
            if hit.matches_position is None {
                assert(row.matches_position.deep_view() =~= Seq::<(Seq<char>, Seq<char>)>::empty());
            }
        }
        products.push(row);
        i = i + 1;
    }
    ProductListTemplate { products, matches_with_text: tr.lookup("matches_with") }
}

} // verus!
