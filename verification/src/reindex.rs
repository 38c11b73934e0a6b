//! The reindex orchestration, as a step-by-step decision machine.
//!
//! A reindex run streams raw records that match a fixed filter out of the
//! document store, rebuilds the search index from scratch, and upserts the
//! normalized form of each streamed record. The backing services are
//! asynchronous collaborators of the surrounding process, so the run is
//! modelled here as a machine: each step takes the answer to the previous
//! action as an event and decides the next action. The surrounding process
//! performs the actions (opening the store, querying, rebuilding the index,
//! fetching, upserting) and feeds the answers back in.
//!
//! The first upsert failure aborts the run; documents already written stay
//! in the index (an accepted inconsistency window, no rollback). Failures
//! are never retried.

use vstd::prelude::*;
use crate::catalog::{is_normalization_of, OffProduct, VFBProduct};

verus! {

/// The most documents one reindex run writes: an explicit resource cap, not
/// a correctness requirement.
pub const REINDEX_PAGE_LIMIT: u64 = 1000;

/// Why a reindex run failed.
pub enum ReindexError {
    /// The document store could not be reached: a service-unavailable
    /// condition.
    StoreUnavailable,
    /// The document-store query failed.
    QueryFailed,
    /// Destroying and recreating the search index, or declaring its
    /// searchable attributes, failed.
    IndexRebuildFailed,
    /// A streamed record did not conform to the raw record shape: fatal for
    /// the whole run.
    MalformedRecord,
    /// An upsert into the search index failed: the run aborts, and documents
    /// already written remain in the index.
    UpsertFailed,
}

/// How a reindex run ended: success with the number of documents written, or
/// one of the failure conditions.
pub enum ReindexOutcome {
    Completed(u64),
    Failed(ReindexError),
}

/// What the surrounding process is asked to do next.
pub enum ReindexAction {
    /// Open a connection to the document store.
    OpenStore,
    /// Query the `products` collection with the fixed filter, streaming at
    /// most the page limit.
    RunQuery,
    /// Destroy the search index, recreate it, and declare the fixed
    /// searchable attributes on the fresh index, in that order, before any
    /// document is written.
    RebuildIndex,
    /// Pull the next record from the stream.
    FetchNext,
    /// Upsert this normalized document into the index, keyed by the primary
    /// key.
    UpsertDoc(VFBProduct),
    /// The run is over; report this outcome.
    Report(ReindexOutcome),
}

/// The answer to the previous action.
pub enum ReindexEvent {
    StoreOpened,
    StoreFailed,
    QueryRan,
    QueryFailed,
    IndexRebuilt,
    IndexRebuildFailed,
    /// The stream yielded one well-formed record.
    NextRecord(OffProduct),
    /// The stream ended.
    StreamEnded,
    /// The stream yielded a malformed record.
    StreamFailed,
    DocUpserted,
    UpsertFailed,
}

/// Where a run stands.
pub enum ReindexPhase {
    OpeningStore,
    RunningQuery,
    RebuildingIndex,
    Streaming,
    Upserting,
    Done,
}

/// One reindex run: its phase and how many documents it has written.
pub struct Reindexer {
    pub phase: ReindexPhase,
    pub written: u64,
}

/// A spec-level description of an action; an upsert is described by the raw
/// record it normalizes, since the ensures of the normalization pin the
/// document only up to its view.
pub enum ActionLabel {
    OpenStore,
    RunQuery,
    RebuildIndex,
    FetchNext,
    Upsert(OffProduct),
    Report(ReindexOutcome),
}

/// The state a fresh run starts in.
pub open spec fn initial_reindexer() -> Reindexer {
    Reindexer { phase: ReindexPhase::OpeningStore, written: 0 }
}

/// A run writes nothing before it starts streaming, never stands in a
/// streaming phase with the page limit reached, and never writes more than
/// the page limit.
pub open spec fn reindexer_wf(m: Reindexer) -> bool {
    &&& m.written <= REINDEX_PAGE_LIMIT
    &&& (m.phase is OpeningStore || m.phase is RunningQuery || m.phase is RebuildingIndex)
        ==> m.written == 0
    &&& (m.phase is Streaming || m.phase is Upserting) ==> m.written < REINDEX_PAGE_LIMIT
}

/// Whether an event answers the action pending in this phase.
pub open spec fn accepts(phase: ReindexPhase, ev: ReindexEvent) -> bool {
    match phase {
        ReindexPhase::OpeningStore => ev is StoreOpened || ev is StoreFailed,
        ReindexPhase::RunningQuery => ev is QueryRan || ev is QueryFailed,
        ReindexPhase::RebuildingIndex => ev is IndexRebuilt || ev is IndexRebuildFailed,
        ReindexPhase::Streaming => ev is NextRecord || ev is StreamEnded || ev is StreamFailed,
        ReindexPhase::Upserting => ev is DocUpserted || ev is UpsertFailed,
        ReindexPhase::Done => false,
    }
}

/// The next state after answering the pending action with `ev`.
pub open spec fn spec_step(m: Reindexer, ev: ReindexEvent) -> Reindexer {
    match (m.phase, ev) {
        (ReindexPhase::OpeningStore, ReindexEvent::StoreOpened) => Reindexer {
            phase: ReindexPhase::RunningQuery,
            ..m
        },
        (ReindexPhase::RunningQuery, ReindexEvent::QueryRan) => Reindexer {
            phase: ReindexPhase::RebuildingIndex,
            ..m
        },
        (ReindexPhase::RebuildingIndex, ReindexEvent::IndexRebuilt) => Reindexer {
            phase: ReindexPhase::Streaming,
            ..m
        },
        (ReindexPhase::Streaming, ReindexEvent::NextRecord(rec)) => Reindexer {
            phase: ReindexPhase::Upserting,
            ..m
        },
        (ReindexPhase::Upserting, ReindexEvent::DocUpserted) => {
            if m.written + 1 == REINDEX_PAGE_LIMIT {
                Reindexer { phase: ReindexPhase::Done, written: (m.written + 1) as u64 }
            } else {
                Reindexer { phase: ReindexPhase::Streaming, written: (m.written + 1) as u64 }
            }
        },
        _ => Reindexer { phase: ReindexPhase::Done, ..m },
    }
}

/// The action decided after answering the pending action with `ev`.
pub open spec fn spec_action(m: Reindexer, ev: ReindexEvent) -> ActionLabel {
    match (m.phase, ev) {
        (ReindexPhase::OpeningStore, ReindexEvent::StoreOpened) => ActionLabel::RunQuery,
        (ReindexPhase::OpeningStore, _) => ActionLabel::Report(
            ReindexOutcome::Failed(ReindexError::StoreUnavailable),
        ),
        (ReindexPhase::RunningQuery, ReindexEvent::QueryRan) => ActionLabel::RebuildIndex,
        (ReindexPhase::RunningQuery, _) => ActionLabel::Report(
            ReindexOutcome::Failed(ReindexError::QueryFailed),
        ),
        (ReindexPhase::RebuildingIndex, ReindexEvent::IndexRebuilt) => ActionLabel::FetchNext,
        (ReindexPhase::RebuildingIndex, _) => ActionLabel::Report(
            ReindexOutcome::Failed(ReindexError::IndexRebuildFailed),
        ),
        (ReindexPhase::Streaming, ReindexEvent::NextRecord(rec)) => ActionLabel::Upsert(rec),
        (ReindexPhase::Streaming, ReindexEvent::StreamEnded) => ActionLabel::Report(
            ReindexOutcome::Completed(m.written),
        ),
        (ReindexPhase::Streaming, _) => ActionLabel::Report(
            ReindexOutcome::Failed(ReindexError::MalformedRecord),
        ),
        (ReindexPhase::Upserting, ReindexEvent::DocUpserted) => {
            if m.written + 1 == REINDEX_PAGE_LIMIT {
                ActionLabel::Report(ReindexOutcome::Completed(REINDEX_PAGE_LIMIT))
            } else {
                ActionLabel::FetchNext
            }
        },
        (ReindexPhase::Upserting, _) => ActionLabel::Report(
            ReindexOutcome::Failed(ReindexError::UpsertFailed),
        ),
        (ReindexPhase::Done, _) => ActionLabel::Report(ReindexOutcome::Completed(m.written)),
    }
}

/// Whether a concrete action carries out a described one: an upsert must
/// carry the normalized form of the described record; every other action
/// matches its description exactly.
pub open spec fn action_matches(a: ReindexAction, l: ActionLabel) -> bool {
    match (a, l) {
        (ReindexAction::OpenStore, ActionLabel::OpenStore) => true,
        (ReindexAction::RunQuery, ActionLabel::RunQuery) => true,
        (ReindexAction::RebuildIndex, ActionLabel::RebuildIndex) => true,
        (ReindexAction::FetchNext, ActionLabel::FetchNext) => true,
        (ReindexAction::UpsertDoc(doc), ActionLabel::Upsert(rec)) => is_normalization_of(doc, rec),
        (ReindexAction::Report(o1), ActionLabel::Report(o2)) => o1 == o2,
        _ => false,
    }
}

impl Reindexer {
    /// Starts a run: the machine in its initial state, and the first action
    /// to perform.
    pub fn start() -> (r: (Reindexer, ReindexAction))
        ensures
            r.0 == initial_reindexer(),
            reindexer_wf(r.0),
            r.1 == ReindexAction::OpenStore,
    {
        (Reindexer { phase: ReindexPhase::OpeningStore, written: 0 }, ReindexAction::OpenStore)
    }

    /// Answers the pending action with `ev` and decides the next action.
    /// Normalization of a streamed record happens here, inside the decision,
    /// so every upserted document is the canonical form of its record.
    pub fn step(&mut self, ev: ReindexEvent) -> (a: ReindexAction)
        requires
            reindexer_wf(*old(self)),
            accepts(old(self).phase, ev),
        ensures
            reindexer_wf(*final(self)),
            *final(self) == spec_step(*old(self), ev),
            action_matches(a, spec_action(*old(self), ev)),
    {
        match ev {
            ReindexEvent::StoreOpened => {
                self.phase = ReindexPhase::RunningQuery;
                ReindexAction::RunQuery
            },
            ReindexEvent::StoreFailed => {
                self.phase = ReindexPhase::Done;
                ReindexAction::Report(ReindexOutcome::Failed(ReindexError::StoreUnavailable))
            },
            ReindexEvent::QueryRan => {
                self.phase = ReindexPhase::RebuildingIndex;
                ReindexAction::RebuildIndex
            },
            ReindexEvent::QueryFailed => {
                self.phase = ReindexPhase::Done;
                ReindexAction::Report(ReindexOutcome::Failed(ReindexError::QueryFailed))
            },
            ReindexEvent::IndexRebuilt => {
                self.phase = ReindexPhase::Streaming;
                ReindexAction::FetchNext
            },
            ReindexEvent::IndexRebuildFailed => {
                self.phase = ReindexPhase::Done;
                ReindexAction::Report(ReindexOutcome::Failed(ReindexError::IndexRebuildFailed))
            },
            ReindexEvent::NextRecord(rec) => {
                self.phase = ReindexPhase::Upserting;
                ReindexAction::UpsertDoc(rec.to_vfb())
            },
            ReindexEvent::StreamEnded => {
                self.phase = ReindexPhase::Done;
                ReindexAction::Report(ReindexOutcome::Completed(self.written))
            },
            ReindexEvent::StreamFailed => {
                self.phase = ReindexPhase::Done;
                ReindexAction::Report(ReindexOutcome::Failed(ReindexError::MalformedRecord))
            },
            ReindexEvent::DocUpserted => {
                self.written = self.written + 1;
                if self.written == REINDEX_PAGE_LIMIT {
                    self.phase = ReindexPhase::Done;
                    ReindexAction::Report(ReindexOutcome::Completed(REINDEX_PAGE_LIMIT))
                } else {
                    self.phase = ReindexPhase::Streaming;
                    ReindexAction::FetchNext
                }
            },
            ReindexEvent::UpsertFailed => {
                self.phase = ReindexPhase::Done;
                ReindexAction::Report(ReindexOutcome::Failed(ReindexError::UpsertFailed))
            },
        }
    }
}

/// The searchable attributes declared on the fresh index before ingestion,
/// in their intended weighting order.
pub open spec fn searchable_attributes_spec() -> Seq<Seq<char>> {
    seq![
        "id"@,
        "name_de"@,
        "name_en"@,
        "stores_tags"@,
        "brands"@,
        "ingredients_de"@,
        "ingredients_en"@,
    ]
}

/// The fixed set of searchable attributes of the search index, in their
/// intended weighting order.
pub fn searchable_attributes() -> (r: Vec<String>)
    ensures
        r.deep_view() == searchable_attributes_spec(),
{
    let mut v: Vec<String> = Vec::new();
    v.push("id".to_owned());
    v.push("name_de".to_owned());
    v.push("name_en".to_owned());
    v.push("stores_tags".to_owned());
    v.push("brands".to_owned());
    v.push("ingredients_de".to_owned());
    v.push("ingredients_en".to_owned());
    proof {
        assert(v.deep_view() =~~= searchable_attributes_spec());
    }
    v
}

/// The fixed, non-configurable document-store filter of a reindex run, as
/// field/value pairs: the nutrient-analysis tags must include the vegan tag,
/// and the first country tag must be the German one.
pub fn store_filter() -> (r: Vec<(String, String)>)
    ensures
        r.deep_view() == seq![
            ("ingredients_analysis_tags"@, "en:vegan"@),
            ("countries_tags.0"@, "en:germany"@),
        ],
{
    let mut v: Vec<(String, String)> = Vec::new();
    v.push(("ingredients_analysis_tags".to_owned(), "en:vegan".to_owned()));
    v.push(("countries_tags.0".to_owned(), "en:germany".to_owned()));
    proof {
        assert(v.deep_view() =~~= seq![
            ("ingredients_analysis_tags"@, "en:vegan"@),
            ("countries_tags.0"@, "en:germany"@),
        ]);
    }
    v
}

/// The name of the document-store collection a reindex run reads.
pub fn collection_name() -> (r: &'static str)
    ensures
        r@ == "products"@,
{
    "products"
}

/// The name of the search index the pipeline rebuilds and queries.
pub fn index_name() -> (r: &'static str)
    ensures
        r@ == "products"@,
{
    "products"
}

/// The primary key documents are upserted under.
pub fn primary_key() -> (r: &'static str)
    ensures
        r@ == "id"@,
{
    "id"
}

/// A run over an empty qualifying result set still rebuilds the index: from
/// the start, the answers "store opened", "query ran", "index rebuilt",
/// "stream ended" make the machine run the query, destroy and recreate the
/// index with its searchable attributes, fetch once, and report success with
/// zero documents written.
pub proof fn lemma_empty_run_still_rebuilds_index()
    ensures
        ({
            let m0 = initial_reindexer();
            let m1 = spec_step(m0, ReindexEvent::StoreOpened);
            let m2 = spec_step(m1, ReindexEvent::QueryRan);
            let m3 = spec_step(m2, ReindexEvent::IndexRebuilt);
            &&& spec_action(m0, ReindexEvent::StoreOpened) == ActionLabel::RunQuery
            &&& spec_action(m1, ReindexEvent::QueryRan) == ActionLabel::RebuildIndex
            &&& spec_action(m2, ReindexEvent::IndexRebuilt) == ActionLabel::FetchNext
            &&& spec_action(m3, ReindexEvent::StreamEnded) == ActionLabel::Report(
                ReindexOutcome::Completed(0),
            )
            &&& spec_step(m3, ReindexEvent::StreamEnded).phase is Done
        }),
{
}

} // verus!
