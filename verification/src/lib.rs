//! Verified core of a market-data ingestion pipeline.
//!
//! Framed messages carry a topic, a type tag (`BOOK` or `TICK`) and a JSON
//! payload.  This library decodes payloads into typed records, maintains
//! per-symbol cumulative buy/sell volume with a day-boundary reset rule,
//! memoizes table provisioning per (topic, kind), and builds the CQL
//! statements that persist each record.  Transport and storage I/O stay
//! outside; callers execute the planned statements and report outcomes back.

pub mod aggregate;
pub mod decode;
pub mod jsonval;
pub mod pipeline;
pub mod records;
pub mod schema;
pub mod statements;
