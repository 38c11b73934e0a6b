//! Locales, locale-fallback resolution and the translation lookup table.
//!
//! The user-visible locales are German (the default) and English. Localized
//! record fields are resolved with a single German-preferred, English-fallback
//! rule, and label translation goes through a per-locale lookup table that the
//! surrounding process fills from its translation catalog.

use vstd::prelude::*;

verus! {

/// A user-interface locale.
#[derive(PartialEq, Eq, Structural, Clone, Copy)]
pub enum Locales {
    EN,
    DE,
}

/// The language code of a locale.
pub open spec fn lang_code(l: Locales) -> Seq<char> {
    match l {
        Locales::EN => "en"@,
        Locales::DE => "de"@,
    }
}

impl Locales {
    /// The language code of this locale, as used in request paths and
    /// translation lookups.
    pub fn to_string(&self) -> (r: &'static str)
        ensures
            r@ == lang_code(*self),
    {
        match self {
            Locales::EN => "en",
            Locales::DE => "de",
        }
    }
}

/// German-preferred, English-fallback resolution of a pair of optional
/// localized values: the German value wins when it is present and nonempty,
/// otherwise the English value (present or not) is the result.
pub open spec fn resolve_locale_spec(de: Option<Seq<char>>, en: Option<Seq<char>>) -> Option<
    Seq<char>,
> {
    if de is Some && de->0.len() > 0 {
        de
    } else {
        en
    }
}

/// Resolves a display value from its German and English variants: the German
/// one when present and nonempty, else the English one. This single function
/// serves the result list and the detail view alike.
pub fn resolve_name(de: &Option<String>, en: &Option<String>) -> (r: Option<String>)
    ensures
        r.deep_view() == resolve_locale_spec(de.deep_view(), en.deep_view()),
{
    match de {
        Option::Some(d) => {
            if !d.as_str().is_empty() {
                Option::Some(d.clone())
            } else {
                clone_opt_string(en)
            }
        },
        Option::None => clone_opt_string(en),
    }
}

/// Clones an optional string, preserving its value exactly.
pub fn clone_opt_string(o: &Option<String>) -> (r: Option<String>)
    ensures
        r == *o,
{
    match o {
        Option::Some(s) => Option::Some(s.clone()),
        Option::None => Option::None,
    }
}

/// What a lookup yields: the value of the first entry whose key matches, or
/// the key itself when no entry matches.
pub open spec fn lookup_spec(entries: Seq<(String, String)>, key: Seq<char>) -> Seq<char>
    decreases entries.len(),
{
    if entries.len() == 0 {
        key
    } else if entries[0].0@ == key {
        entries[0].1@
    } else {
        lookup_spec(entries.drop_first(), key)
    }
}

/// A translation table for one locale: label keys mapped to localized
/// strings. The surrounding process fills it from its translation catalog;
/// the library only reads it.
pub struct Translations {
    entries: Vec<(String, String)>,
}

impl Translations {
    /// The table's entries, in insertion order.
    pub closed spec fn spec_entries(&self) -> Seq<(String, String)> {
        self.entries@
    }

    /// What looking up `key` in this table yields.
    pub open spec fn spec_lookup(&self, key: Seq<char>) -> Seq<char> {
        lookup_spec(self.spec_entries(), key)
    }

    /// An empty table.
    pub fn new() -> (t: Self)
        ensures
            t.spec_entries() == Seq::<(String, String)>::empty(),
    {
        Translations { entries: Vec::new() }
    }

    /// Appends one key/value pair.
    pub fn add(&mut self, key: String, value: String)
        ensures
            final(self).spec_entries() == old(self).spec_entries().push((key, value)),
    {
        self.entries.push((key, value));
    }

    /// Looks a label key up: the value of the first matching entry, or the
    /// key itself when the table has no entry for it.
    pub fn lookup(&self, key: &str) -> (r: String)
        ensures
            r@ == self.spec_lookup(key@),
    {
        let n = self.entries.len();
        proof {
            assert(self.entries@.skip(0) =~= self.entries@);
        }
        let mut i: usize = 0;
        while i < n
            invariant
                n == self.entries@.len(),
                i <= n,
                lookup_spec(self.entries@, key@) == lookup_spec(
                    self.entries@.skip(i as int),
                    key@,
                ),
            decreases n - i,
        {
            proof {
                assert(self.entries@.skip(i as int)[0] == self.entries@[i as int]);
                assert(self.entries@.skip(i as int).drop_first() =~= self.entries@.skip(i + 1));
            }
            if crate::text::str_eq(self.entries[i].0.as_str(), key) {
                return self.entries[i].1.clone();
            }
            i = i + 1;
        }
        key.to_owned()
    }
}

} // verus!
