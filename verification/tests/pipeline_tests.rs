use mdingest::decode::DecodeError;
use mdingest::pipeline::{MessagePlan, Pipeline, PipelineError};
use mdingest::schema::{RecordKind, SchemaCache};
use mdingest::statements::{
    build_book_create, build_book_insert, build_keyspace_create, build_tick_create,
    build_tick_insert,
};

const TICK_A: &[u8] =
    br#"{"symbol":"EURUSD","bid":1.0824,"price":1.0825,"ask":1.0826,"time":1700000000,"volume":10,"type":"B"}"#;
const TICK_B: &[u8] =
    br#"{"symbol":"EURUSD","bid":1.0824,"price":1.0825,"ask":1.0826,"time":1700000001,"volume":3,"type":"S"}"#;

fn tick_plan(p: Result<MessagePlan, PipelineError>) -> mdingest::pipeline::TickPlan {
    match p.unwrap() {
        MessagePlan::Tick(t) => t,
        _ => panic!("expected a tick plan"),
    }
}

fn book_plan(p: Result<MessagePlan, PipelineError>) -> mdingest::pipeline::BookPlan {
    match p.unwrap() {
        MessagePlan::Book(b) => b,
        _ => panic!("expected a book plan"),
    }
}

#[test]
fn unknown_tag_is_skipped() {
    let mut pipe = Pipeline::new("forex".to_string());
    let plan = pipe.handle_message("FEUR", b"NEWS", b"{}").unwrap();
    assert!(matches!(plan, MessagePlan::Skip));
}

#[test]
fn tick_messages_carry_cumulative_fields() {
    let mut pipe = Pipeline::new("forex".to_string());
    let first = tick_plan(pipe.handle_message("FEUR", b"TICK", TICK_A));
    assert_eq!(first.row.aggregates.cum_buy, 10);
    assert_eq!(first.row.aggregates.cum_sell, 0);
    assert_eq!(first.row.aggregates.cum_delta, 10);
    let second = tick_plan(pipe.handle_message("FEUR", b"TICK", TICK_B));
    assert_eq!(second.row.aggregates.cum_buy, 10);
    assert_eq!(second.row.aggregates.cum_sell, 3);
    assert_eq!(second.row.aggregates.cum_delta, 7);
    assert_eq!(second.row.tick.symbol, "EURUSD");
}

#[test]
fn next_day_tick_is_persisted_with_reset_counters() {
    let mut pipe = Pipeline::new("forex".to_string());
    tick_plan(pipe.handle_message("FEUR", b"TICK", TICK_A));
    tick_plan(pipe.handle_message("FEUR", b"TICK", TICK_B));
    let third_payload =
        br#"{"symbol":"EURUSD","bid":1.0824,"price":1.0825,"ask":1.0826,"time":1700086400,"volume":5,"type":"B"}"#;
    let third = tick_plan(pipe.handle_message("FEUR", b"TICK", third_payload));
    assert_eq!(third.row.aggregates.cum_buy, 5);
    assert_eq!(third.row.aggregates.cum_sell, 0);
    assert_eq!(third.row.aggregates.cum_delta, 5);
}

#[test]
fn failed_tick_decode_leaves_aggregation_untouched() {
    let mut pipe = Pipeline::new("forex".to_string());
    let missing_volume =
        br#"{"symbol":"EURUSD","bid":1.0,"price":1.0,"ask":1.0,"time":1700000000,"type":"B"}"#;
    let err = pipe.handle_message("FEUR", b"TICK", missing_volume).unwrap_err();
    assert_eq!(err, PipelineError::Decode(DecodeError::Field));
    let plan = tick_plan(pipe.handle_message("FEUR", b"TICK", TICK_A));
    assert_eq!(plan.row.aggregates.cum_buy, 10);
    assert_eq!(plan.row.aggregates.cum_sell, 0);
}

#[test]
fn empty_book_batch_plans_no_inserts_and_no_error() {
    let mut pipe = Pipeline::new("forex".to_string());
    let plan = book_plan(pipe.handle_message("FEUR", b"BOOK", b"[]"));
    assert_eq!(plan.rows.len(), 0);
}

#[test]
fn table_is_provisioned_once_per_topic_and_kind() {
    let mut pipe = Pipeline::new("forex".to_string());
    let first = tick_plan(pipe.handle_message("FEUR", b"TICK", TICK_A));
    let create = first.create.expect("first tick message must plan the table creation");
    assert_eq!(create, build_tick_create("forex", "FEUR"));
    pipe.mark_provisioned("FEUR", RecordKind::Tick);
    let second = tick_plan(pipe.handle_message("FEUR", b"TICK", TICK_B));
    assert!(second.create.is_none());
    // The book table of the same topic, and other topics, are unaffected.
    let book = book_plan(pipe.handle_message("FEUR", b"BOOK", b"[]"));
    assert!(book.create.is_some());
    let other = tick_plan(pipe.handle_message("FGBP", b"TICK", TICK_A));
    assert!(other.create.is_some());
}

#[test]
fn unmarked_provisioning_is_retried() {
    let mut pipe = Pipeline::new("forex".to_string());
    let first = tick_plan(pipe.handle_message("FEUR", b"TICK", TICK_A));
    assert!(first.create.is_some());
    // The creation statement failed: the caller does not mark the pair,
    // so the next message plans it again.
    let second = tick_plan(pipe.handle_message("FEUR", b"TICK", TICK_B));
    assert!(second.create.is_some());
}

#[test]
fn schema_cache_remembers_marked_pairs() {
    let mut cache = SchemaCache::new();
    assert!(!cache.is_provisioned("FEUR", RecordKind::Tick));
    cache.mark("FEUR", RecordKind::Tick);
    assert!(cache.is_provisioned("FEUR", RecordKind::Tick));
    assert!(!cache.is_provisioned("FEUR", RecordKind::Book));
    assert!(!cache.is_provisioned("FGBP", RecordKind::Tick));
}

#[test]
fn statement_texts_match_the_table_layouts() {
    assert_eq!(
        build_keyspace_create("forex"),
        "CREATE KEYSPACE IF NOT EXISTS forex WITH REPLICATION = { 'class' : 'SimpleStrategy', 'replication_factor' : 1 };"
    );
    assert_eq!(
        build_book_create("forex", "FEUR"),
        "CREATE TABLE IF NOT EXISTS forex.FEUR_book (symbol text, price double, time timestamp, volume int, type text, PRIMARY KEY (symbol,time,price)) WITH CLUSTERING ORDER BY (time DESC);"
    );
    assert_eq!(
        build_tick_create("forex", "FEUR"),
        "CREATE TABLE IF NOT EXISTS forex.FEUR_tick (symbol text, bid double, price double, ask double, time timestamp, volume int, type text, cumbuy int, cumsell int, cumdelta int, PRIMARY KEY (symbol,time,price)) WITH CLUSTERING ORDER BY (time DESC);"
    );
    assert_eq!(
        build_book_insert("forex", "FEUR"),
        "INSERT INTO forex.FEUR_book (symbol, price, time, volume, type) VALUES (?, ?, ?, ?, ?);"
    );
    assert_eq!(
        build_tick_insert("forex", "FEUR"),
        "INSERT INTO forex.FEUR_tick (symbol, bid, price, ask, time, volume, type, cumbuy, cumsell, cumdelta) VALUES (?, ?, ?, ?, ?, ?, ?, ?, ?, ?);"
    );
}

#[test]
fn book_plan_carries_the_insert_statement_and_rows() {
    let mut pipe = Pipeline::new("forex".to_string());
    let payload =
        br#"[{"symbol":"EURUSD","price":1.0825,"time":1700000000,"volume":3,"type":"BOOK_TYPE_BID"}]"#;
    let plan = book_plan(pipe.handle_message("FEUR", b"BOOK", payload));
    assert_eq!(plan.insert_statement, build_book_insert("forex", "FEUR"));
    assert_eq!(plan.rows.len(), 1);
    assert_eq!(plan.rows[0].order_type, "BID");
}

#[test]
fn pre_epoch_tick_time_is_an_aggregation_error() {
    let mut pipe = Pipeline::new("forex".to_string());
    let payload =
        br#"{"symbol":"EURUSD","bid":1.0,"price":1.0,"ask":1.0,"time":-5,"volume":10,"type":"B"}"#;
    let err = pipe.handle_message("FEUR", b"TICK", payload).unwrap_err();
    assert_eq!(
        err,
        PipelineError::Aggregation(mdingest::aggregate::AggregationError::TimeBeforeEpoch)
    );
}
