//! The per-message step of the dispatcher.
//!
//! A framed message is (topic, type tag, payload).  `handle_message`
//! decodes the payload, aggregates for ticks, and plans the statements to
//! execute: an optional table creation — present exactly when the (topic,
//! kind) pair is not yet marked provisioned — and the upserts.  The caller
//! executes the plan and, after a creation statement succeeded, calls
//! `mark_provisioned`; a failed creation thus stays unmarked and a later
//! message retries it.  Any error leaves the whole state as it was.

use vstd::prelude::*;
use crate::aggregate::{Aggregator, AggregationError, TickAggregates, next_counters, step_counters};
use crate::decode::{DecodeError, decode_book, decode_tick, book_record_of, tick_fields_ok, tick_record_of};
use crate::jsonval::json_arr;
use crate::records::{BookRecord, TickRecord};
use crate::schema::{RecordKind, SchemaCache, pair_provisioned, pair_marked};
use crate::statements::{book_create_cql, book_insert_cql, tick_create_cql, tick_insert_cql, build_book_insert, build_tick_insert};

verus! {

/// The `BOOK` type tag, as the bytes of its four ASCII letters.
pub open spec fn book_tag() -> Seq<u8> {
    seq![66u8, 79u8, 79u8, 75u8]
}

/// The `TICK` type tag, as the bytes of its four ASCII letters.
pub open spec fn tick_tag() -> Seq<u8> {
    seq![84u8, 73u8, 67u8, 75u8]
}

/// Why a message was dropped; the pipeline state is left as it was.
#[derive(Clone, Copy, PartialEq, Eq, Structural, Debug)]
pub enum PipelineError {
    Decode(DecodeError),
    Aggregation(AggregationError),
}

/// A tick together with the cumulative values it is persisted with.
#[derive(Debug)]
pub struct EnrichedTick {
    pub tick: TickRecord,
    pub aggregates: TickAggregates,
}

/// What to execute for one `BOOK` message: the creation statement when
/// the topic's book table is not yet provisioned, then one upsert per
/// decoded row.
#[derive(Debug)]
pub struct BookPlan {
    pub create: Option<String>,
    pub insert_statement: String,
    pub rows: Vec<BookRecord>,
}

/// What to execute for one `TICK` message.
#[derive(Debug)]
pub struct TickPlan {
    pub create: Option<String>,
    pub insert_statement: String,
    pub row: EnrichedTick,
}

/// The planned effect of one message.
#[derive(Debug)]
pub enum MessagePlan {
    /// The type tag is neither `BOOK` nor `TICK`: nothing to do.
    Skip,
    Book(BookPlan),
    Tick(TickPlan),
}

/// The dispatcher's state: the keyspace written to, the schema cache and
/// the aggregation state.
pub struct Pipeline {
    keyspace: String,
    schemas: SchemaCache,
    agg: Aggregator,
}

impl Pipeline {
    /// The keyspace every planned statement names.
    pub closed spec fn keyspace_view(self) -> Seq<char> {
        self.keyspace@
    }

    /// The schema cache's contents.
    pub closed spec fn schema_pairs(self) -> Map<Seq<char>, (bool, bool)> {
        self.schemas.pairs()
    }

    /// The per-symbol cumulative counters.
    pub closed spec fn agg_model(self) -> Map<Seq<char>, (int, int)> {
        self.agg.model()
    }

    /// The shared last-processed-time clock.
    pub closed spec fn agg_clock(self) -> Option<int> {
        self.agg.clock()
    }

    pub closed spec fn wf(self) -> bool {
        self.agg.wf()
    }

    /// A fresh pipeline for one keyspace: nothing provisioned, nothing
    /// aggregated.
    pub fn new(keyspace: String) -> (r: Pipeline)
        ensures
            r.wf(),
            r.keyspace_view() == keyspace@,
            r.schema_pairs() == Map::<Seq<char>, (bool, bool)>::empty(),
            r.agg_model() == Map::<Seq<char>, (int, int)>::empty(),
            r.agg_clock() == Option::<int>::None,
    {
        Pipeline { keyspace, schemas: SchemaCache::new(), agg: Aggregator::new() }
    }

    /// Routes one framed message.  A `BOOK` payload is decoded and
    /// planned without touching aggregation state; a `TICK` payload is
    /// decoded, aggregated — exactly one counter step — and planned; any
    /// other tag is skipped.  Errors change nothing.  The schema cache is
    /// only read here: the plan's `create` statement is present exactly
    /// when the pair is unprovisioned, and the caller marks it after the
    /// statement succeeded.
    pub fn handle_message(&mut self, topic: &str, type_tag: &[u8], payload: &[u8]) -> (r: Result<MessagePlan, PipelineError>)
        requires
            old(self).wf(),
        ensures
            final(self).wf(),
            final(self).keyspace_view() == old(self).keyspace_view(),
            final(self).schema_pairs() == old(self).schema_pairs(),
            (r matches Ok(p) && p matches MessagePlan::Skip) <==> (type_tag@ != book_tag()
                && type_tag@ != tick_tag()),
            r matches Err(_) ==> final(self).agg_model() == old(self).agg_model()
                && final(self).agg_clock() == old(self).agg_clock(),
            r matches Err(e) ==> (e matches PipelineError::Decode(_) ==> type_tag@ == book_tag()
                || type_tag@ == tick_tag()),
            r matches Err(e) ==> (e matches PipelineError::Aggregation(_) ==> type_tag@ == tick_tag()),
            r matches Ok(p) ==> (p matches MessagePlan::Skip ==> final(self).agg_model()
                == old(self).agg_model() && final(self).agg_clock() == old(self).agg_clock()),
            r matches Ok(p) ==> (p matches MessagePlan::Book(b) ==> ({
                &&& type_tag@ == book_tag()
                &&& final(self).agg_model() == old(self).agg_model()
                &&& final(self).agg_clock() == old(self).agg_clock()
                &&& (exists|pv: serde_json::Value| (#[trigger] json_arr(pv)) is Some
                    && b.rows@.len() == json_arr(pv)->Some_0.len()
                    && (forall|i: int| 0 <= i < b.rows@.len()
                        ==> book_record_of(#[trigger] b.rows@[i], json_arr(pv)->Some_0[i])))
                &&& b.insert_statement@ == book_insert_cql(old(self).keyspace_view(), topic@)
                &&& (b.create matches Some(s) ==> s@ == book_create_cql(old(self).keyspace_view(), topic@))
                &&& (b.create matches Some(_) <==> !pair_provisioned(old(self).schema_pairs(), topic@, RecordKind::Book))
            })),
            r matches Ok(p) ==> (p matches MessagePlan::Tick(t) ==> ({
                let next = next_counters(old(self).agg_model(), old(self).agg_clock(), t.row.tick.symbol@, t.row.tick.trade_type@, t.row.tick.volume as int, t.row.tick.time as int);
                &&& type_tag@ == tick_tag()
                &&& t.row.aggregates.cum_buy as int == next.0
                &&& t.row.aggregates.cum_sell as int == next.1
                &&& t.row.aggregates.cum_delta as int == next.0 - next.1
                &&& final(self).agg_model() == step_counters(old(self).agg_model(), old(self).agg_clock(), t.row.tick.symbol@, t.row.tick.trade_type@, t.row.tick.volume as int, t.row.tick.time as int)
                &&& final(self).agg_clock() == Some(t.row.tick.time as int)
                &&& (exists|pv: serde_json::Value| #[trigger] tick_fields_ok(pv) && tick_record_of(t.row.tick, pv))
                &&& t.insert_statement@ == tick_insert_cql(old(self).keyspace_view(), topic@)
                &&& (t.create matches Some(s) ==> s@ == tick_create_cql(old(self).keyspace_view(), topic@))
                &&& (t.create matches Some(_) <==> !pair_provisioned(old(self).schema_pairs(), topic@, RecordKind::Tick))
            })),
    {
        if tag_is_book(type_tag) {
            let rows = match decode_book(payload) {
                Ok(rows) => rows,
                Err(e) => return Err(PipelineError::Decode(e)),
            };
            let create = self.schemas.ensure_statement(self.keyspace.as_str(), topic, RecordKind::Book);
            let insert_statement = build_book_insert(self.keyspace.as_str(), topic);
            Ok(MessagePlan::Book(BookPlan { create, insert_statement, rows }))
        } else if tag_is_tick(type_tag) {
            let tick = match decode_tick(payload) {
                Ok(t) => t,
                Err(e) => return Err(PipelineError::Decode(e)),
            };
            let aggregates = match self.agg.update(tick.symbol.as_str(), tick.trade_type.as_str(), tick.volume, tick.time) {
                Ok(a) => a,
                Err(e) => return Err(PipelineError::Aggregation(e)),
            };
            let create = self.schemas.ensure_statement(self.keyspace.as_str(), topic, RecordKind::Tick);
            let insert_statement = build_tick_insert(self.keyspace.as_str(), topic);
            Ok(MessagePlan::Tick(TickPlan { create, insert_statement, row: EnrichedTick { tick, aggregates } }))
        } else {
            Ok(MessagePlan::Skip)
        }
    }

    /// Records that the destination table for (topic, kind) now exists;
    /// called after its creation statement succeeded.  Aggregation state
    /// is untouched.
    pub fn mark_provisioned(&mut self, topic: &str, kind: RecordKind)
        requires
            old(self).wf(),
        ensures
            final(self).wf(),
            final(self).keyspace_view() == old(self).keyspace_view(),
            final(self).schema_pairs() == pair_marked(old(self).schema_pairs(), topic@, kind),
            final(self).agg_model() == old(self).agg_model(),
            final(self).agg_clock() == old(self).agg_clock(),
    {
        self.schemas.mark(topic, kind);
    }
}

/// Whether the tag bytes spell `BOOK`.
fn tag_is_book(tag: &[u8]) -> (r: bool)
    ensures
        r == (tag@ == book_tag()),
{
    if tag.len() != 4 {
        return false;
    }
    let r = tag[0] == 66 && tag[1] == 79 && tag[2] == 79 && tag[3] == 75;
    proof {
        if r {
            assert(tag@ =~= book_tag());
        }
    }
    r
}

/// Whether the tag bytes spell `TICK`.
fn tag_is_tick(tag: &[u8]) -> (r: bool)
    ensures
        r == (tag@ == tick_tag()),
{
    if tag.len() != 4 {
        return false;
    }
    let r = tag[0] == 84 && tag[1] == 73 && tag[2] == 67 && tag[3] == 75;
    proof {
        if r {
            assert(tag@ =~= tick_tag());
        }
    }
    r
}

} // verus!
