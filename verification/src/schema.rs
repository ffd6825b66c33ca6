//! The schema cache: which (topic, record-kind) pairs already have a
//! provisioned destination table.
//!
//! Membership is write-once for the life of the process: a pair is marked
//! only after its creation statement succeeded, and is never unmarked, so
//! a failed provisioning is naturally retried by a later message.

use vstd::prelude::*;
use vstd::hash_map::StringHashMap;
use crate::statements::{book_create_cql, tick_create_cql, build_book_create, build_tick_create};

verus! {

/// The two record kinds a topic can carry, each with its own table.
#[derive(Clone, Copy, PartialEq, Eq, Structural, Debug)]
pub enum RecordKind {
    Book,
    Tick,
}

/// Whether the pair (topic, kind) is marked provisioned in the model `m`,
/// which maps a topic to its (book, tick) flags.
pub open spec fn pair_provisioned(m: Map<Seq<char>, (bool, bool)>, topic: Seq<char>, kind: RecordKind) -> bool {
    m.contains_key(topic) && match kind {
        RecordKind::Book => m[topic].0,
        RecordKind::Tick => m[topic].1,
    }
}

/// The model `m` with the pair (topic, kind) marked provisioned.
pub open spec fn pair_marked(m: Map<Seq<char>, (bool, bool)>, topic: Seq<char>, kind: RecordKind) -> Map<Seq<char>, (bool, bool)> {
    let cur = if m.contains_key(topic) {
        m[topic]
    } else {
        (false, false)
    };
    let upd = match kind {
        RecordKind::Book => (true, cur.1),
        RecordKind::Tick => (cur.0, true),
    };
    m.insert(topic, upd)
}

/// The set of (topic, kind) pairs whose destination table is known to
/// exist.
pub struct SchemaCache {
    flags: StringHashMap<(bool, bool)>,
}

impl SchemaCache {
    /// The cache's contents: topic to (book provisioned, tick provisioned).
    pub closed spec fn pairs(self) -> Map<Seq<char>, (bool, bool)> {
        self.flags@
    }

    /// An empty cache: no pair is provisioned.
    pub fn new() -> (r: SchemaCache)
        ensures
            r.pairs() == Map::<Seq<char>, (bool, bool)>::empty(),
    {
        SchemaCache { flags: StringHashMap::new() }
    }

    /// Whether (topic, kind) is already marked provisioned.
    pub fn is_provisioned(&self, topic: &str, kind: RecordKind) -> (r: bool)
        ensures
            r == pair_provisioned(self.pairs(), topic@, kind),
    {
        match self.flags.get(topic) {
            Some(p) => match kind {
                RecordKind::Book => p.0,
                RecordKind::Tick => p.1,
            },
            None => false,
        }
    }

    /// The provisioning statement still owed for (topic, kind): the
    /// kind's creation statement exactly when the pair is not yet marked,
    /// nothing otherwise.  The pair is marked separately, once the
    /// statement succeeded.
    pub fn ensure_statement(&self, keyspace: &str, topic: &str, kind: RecordKind) -> (r: Option<String>)
        ensures
            (r matches Some(_)) <==> !pair_provisioned(self.pairs(), topic@, kind),
            r matches Some(s) ==> s@ == match kind {
                RecordKind::Book => book_create_cql(keyspace@, topic@),
                RecordKind::Tick => tick_create_cql(keyspace@, topic@),
            },
    {
        if self.is_provisioned(topic, kind) {
            None
        } else {
            match kind {
                RecordKind::Book => Some(build_book_create(keyspace, topic)),
                RecordKind::Tick => Some(build_tick_create(keyspace, topic)),
            }
        }
    }

    /// Marks (topic, kind) provisioned; every other pair keeps its state.
    pub fn mark(&mut self, topic: &str, kind: RecordKind)
        ensures
            final(self).pairs() == pair_marked(old(self).pairs(), topic@, kind),
    {
        let cur: (bool, bool) = match self.flags.get(topic) {
            Some(p) => *p,
            None => (false, false),
        };
        let upd = match kind {
            RecordKind::Book => (true, cur.1),
            RecordKind::Tick => (cur.0, true),
        };
        self.flags.insert(topic.to_owned(), upd);
    }
}

/// Law: once a (topic, kind) pair is marked provisioned it stays so, and a
/// second ensure for the same pair therefore plans no provisioning
/// statement; marking one pair leaves every other pair as it was.
pub proof fn lemma_provision_once(m: Map<Seq<char>, (bool, bool)>, topic: Seq<char>, kind: RecordKind, topic2: Seq<char>, kind2: RecordKind)
    ensures
        pair_provisioned(pair_marked(m, topic, kind), topic, kind),
        topic2 != topic || kind2 != kind ==> pair_provisioned(pair_marked(m, topic, kind), topic2, kind2)
            == pair_provisioned(m, topic2, kind2),
{
}

} // verus!
