//! The CQL statement texts that provisioning and persistence issue.
//!
//! Statement building is kept here, verified, because the texts encode the
//! table layouts and the clustering order; executing them is the storage
//! collaborator's concern.

use vstd::prelude::*;
use vstd::string::StringExecFns;

verus! {

/// The idempotent keyspace creation statement.
pub open spec fn keyspace_create_cql(keyspace: Seq<char>) -> Seq<char> {
    "CREATE KEYSPACE IF NOT EXISTS "@ + keyspace
        + " WITH REPLICATION = { 'class' : 'SimpleStrategy', 'replication_factor' : 1 };"@
}

/// The idempotent creation statement for a topic's book table:
/// `(symbol, price, time, volume, type)`, primary key
/// `(symbol, time, price)`, clustered by time descending.
pub open spec fn book_create_cql(keyspace: Seq<char>, topic: Seq<char>) -> Seq<char> {
    "CREATE TABLE IF NOT EXISTS "@ + keyspace + "."@ + topic
        + "_book (symbol text, price double, time timestamp, volume int, type text, PRIMARY KEY (symbol,time,price)) WITH CLUSTERING ORDER BY (time DESC);"@
}

/// The idempotent creation statement for a topic's tick table:
/// `(symbol, bid, price, ask, time, volume, type, cumbuy, cumsell,
/// cumdelta)`, primary key `(symbol, time, price)`, clustered by time
/// descending.
pub open spec fn tick_create_cql(keyspace: Seq<char>, topic: Seq<char>) -> Seq<char> {
    "CREATE TABLE IF NOT EXISTS "@ + keyspace + "."@ + topic
        + "_tick (symbol text, bid double, price double, ask double, time timestamp, volume int, type text, cumbuy int, cumsell int, cumdelta int, PRIMARY KEY (symbol,time,price)) WITH CLUSTERING ORDER BY (time DESC);"@
}

/// The parameterized upsert for one book entry.
pub open spec fn book_insert_cql(keyspace: Seq<char>, topic: Seq<char>) -> Seq<char> {
    "INSERT INTO "@ + keyspace + "."@ + topic
        + "_book (symbol, price, time, volume, type) VALUES (?, ?, ?, ?, ?);"@
}

/// The parameterized upsert for one tick, cumulative fields included.
pub open spec fn tick_insert_cql(keyspace: Seq<char>, topic: Seq<char>) -> Seq<char> {
    "INSERT INTO "@ + keyspace + "."@ + topic
        + "_tick (symbol, bid, price, ask, time, volume, type, cumbuy, cumsell, cumdelta) VALUES (?, ?, ?, ?, ?, ?, ?, ?, ?, ?);"@
}

pub fn build_keyspace_create(keyspace: &str) -> (r: String)
    ensures
        r@ == keyspace_create_cql(keyspace@),
{
    let mut s = String::from_str("CREATE KEYSPACE IF NOT EXISTS ");
    s.append(keyspace);
    s.append(" WITH REPLICATION = { 'class' : 'SimpleStrategy', 'replication_factor' : 1 };");
    s
}

pub fn build_book_create(keyspace: &str, topic: &str) -> (r: String)
    ensures
        r@ == book_create_cql(keyspace@, topic@),
{
    let mut s = String::from_str("CREATE TABLE IF NOT EXISTS ");
    s.append(keyspace);
    s.append(".");
    s.append(topic);
    s.append("_book (symbol text, price double, time timestamp, volume int, type text, PRIMARY KEY (symbol,time,price)) WITH CLUSTERING ORDER BY (time DESC);");
    s
}

pub fn build_tick_create(keyspace: &str, topic: &str) -> (r: String)
    ensures
        r@ == tick_create_cql(keyspace@, topic@),
{
    let mut s = String::from_str("CREATE TABLE IF NOT EXISTS ");
    s.append(keyspace);
    s.append(".");
    s.append(topic);
    s.append("_tick (symbol text, bid double, price double, ask double, time timestamp, volume int, type text, cumbuy int, cumsell int, cumdelta int, PRIMARY KEY (symbol,time,price)) WITH CLUSTERING ORDER BY (time DESC);");
    s
}

pub fn build_book_insert(keyspace: &str, topic: &str) -> (r: String)
    ensures
        r@ == book_insert_cql(keyspace@, topic@),
{
    let mut s = String::from_str("INSERT INTO ");
    s.append(keyspace);
    s.append(".");
    s.append(topic);
    s.append("_book (symbol, price, time, volume, type) VALUES (?, ?, ?, ?, ?);");
    s
}

pub fn build_tick_insert(keyspace: &str, topic: &str) -> (r: String)
    ensures
        r@ == tick_insert_cql(keyspace@, topic@),
{
    let mut s = String::from_str("INSERT INTO ");
    s.append(keyspace);
    s.append(".");
    s.append(topic);
    s.append("_tick (symbol, bid, price, ask, time, volume, type, cumbuy, cumsell, cumdelta) VALUES (?, ?, ?, ?, ?, ?, ?, ?, ?, ?);");
    s
}

} // verus!
