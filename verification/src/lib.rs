//! Catalog normalization and indexed-search pipeline for a localized
//! food-product catalog.
//!
//! The library turns heterogeneous, partially populated import records into a
//! canonical localized product schema (including a deterministic image-URL
//! derivation and numeric/text nutriment coercion), drives the rebuild of the
//! search index as a step-by-step decision machine, and composes free-text
//! search results and detail views with locale fallback. The surrounding
//! process supplies the backing services (document store, search engine,
//! translation catalog) and feeds their answers back in as plain values.

pub mod catalog;
pub mod detail;
pub mod image;
pub mod locale;
pub mod reindex;
pub mod search;
pub mod templates;
pub mod text;
pub mod values;
