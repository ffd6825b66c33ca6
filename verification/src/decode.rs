//! Decoding of `BOOK` and `TICK` payloads into typed records.
//!
//! The JSON document comes from the trusted parser boundary in `jsonval`.
//! What a given document decodes to is fixed exactly, over the named
//! member maps of that boundary, by `decode_tick_value`,
//! `decode_book_entry` and `decode_book_value`, which take the parsed
//! value; `decode_tick` and `decode_book` only parse and hand over.
//! Decoding is pure: a failure returns an error and touches no state.

use vstd::prelude::*;
use crate::jsonval::{parse_json, json_str_field, json_int_field, json_num_field, json_array, str_fields, int_fields, num_fields, json_arr};
use crate::records::{BookRecord, TickRecord, simplified_order_type, simplify_order_type};

verus! {

/// Why a payload could not be decoded; the message is dropped.
#[derive(Clone, Copy, PartialEq, Eq, Structural, Debug)]
pub enum DecodeError {
    /// The payload is not well-formed JSON.
    Syntax,
    /// The document's top-level shape is wrong: a `BOOK` payload that is
    /// not an array.
    Shape,
    /// A required field is absent, of the wrong type, or out of range.
    Field,
}

/// Whether a parsed value holds every member a tick needs, each of the
/// right type and range: string `symbol` and `type`, numeric `bid`,
/// `price` and `ask`, integer `time`, and an integer `volume` fitting
/// 32 bits.
pub open spec fn tick_fields_ok(v: serde_json::Value) -> bool {
    &&& str_fields(v).contains_key("symbol"@)
    &&& num_fields(v).contains("bid"@)
    &&& num_fields(v).contains("price"@)
    &&& num_fields(v).contains("ask"@)
    &&& int_fields(v).contains_key("time"@)
    &&& int_fields(v).contains_key("volume"@)
    &&& i32::MIN as int <= int_fields(v)["volume"@] <= i32::MAX as int
    &&& str_fields(v).contains_key("type"@)
}

/// Whether a parsed value holds every member a book entry needs: string
/// `symbol` and `type`, numeric `price`, integer `time`, and an integer
/// `volume` fitting 32 bits.
pub open spec fn book_fields_ok(v: serde_json::Value) -> bool {
    &&& str_fields(v).contains_key("symbol"@)
    &&& num_fields(v).contains("price"@)
    &&& int_fields(v).contains_key("time"@)
    &&& int_fields(v).contains_key("volume"@)
    &&& i32::MIN as int <= int_fields(v)["volume"@] <= i32::MAX as int
    &&& str_fields(v).contains_key("type"@)
}

/// Whether a decoded tick record carries exactly the plain members of the
/// parsed value it came from.
pub open spec fn tick_record_of(t: TickRecord, v: serde_json::Value) -> bool {
    &&& t.symbol@ == str_fields(v)["symbol"@]
    &&& t.time as int == int_fields(v)["time"@]
    &&& t.volume as int == int_fields(v)["volume"@]
    &&& t.trade_type@ == str_fields(v)["type"@]
}

/// Whether a decoded book record carries exactly the plain members of the
/// parsed value it came from, the order type normalized.
pub open spec fn book_record_of(b: BookRecord, v: serde_json::Value) -> bool {
    &&& b.symbol@ == str_fields(v)["symbol"@]
    &&& b.time as int == int_fields(v)["time"@]
    &&& b.volume as int == int_fields(v)["volume"@]
    &&& b.order_type@ == simplified_order_type(str_fields(v)["type"@])
}

/// A tick from its parsed JSON document: succeeds exactly when every
/// required member is present, of the right type and in range, and then
/// returns that document's members.
pub fn decode_tick_value(v: &serde_json::Value) -> (r: Result<TickRecord, DecodeError>)
    ensures
        (r matches Ok(_)) <==> tick_fields_ok(*v),
        r matches Err(e) ==> e == DecodeError::Field,
        r matches Ok(t) ==> tick_record_of(t, *v),
{
    let symbol = match json_str_field(v, "symbol") {
        Some(s) => s,
        None => return Err(DecodeError::Field),
    };
    let bid = match json_num_field(v, "bid") {
        Some(n) => n,
        None => return Err(DecodeError::Field),
    };
    let price = match json_num_field(v, "price") {
        Some(n) => n,
        None => return Err(DecodeError::Field),
    };
    let ask = match json_num_field(v, "ask") {
        Some(n) => n,
        None => return Err(DecodeError::Field),
    };
    let time = match json_int_field(v, "time") {
        Some(n) => n,
        None => return Err(DecodeError::Field),
    };
    let volume64 = match json_int_field(v, "volume") {
        Some(n) => n,
        None => return Err(DecodeError::Field),
    };
    if volume64 > i32::MAX as i64 || volume64 < i32::MIN as i64 {
        return Err(DecodeError::Field);
    }
    let trade_type = match json_str_field(v, "type") {
        Some(s) => s,
        None => return Err(DecodeError::Field),
    };
    Ok(TickRecord { symbol, bid, price, ask, time, volume: volume64 as i32, trade_type })
}

/// One entry of a book batch from its parsed JSON object: succeeds
/// exactly when every required member is present, of the right type and
/// in range, and then returns that object's members with the order type
/// normalized.
pub fn decode_book_entry(entry: &serde_json::Value) -> (r: Result<BookRecord, DecodeError>)
    ensures
        (r matches Ok(_)) <==> book_fields_ok(*entry),
        r matches Err(e) ==> e == DecodeError::Field,
        r matches Ok(b) ==> book_record_of(b, *entry),
{
    let symbol = match json_str_field(entry, "symbol") {
        Some(s) => s,
        None => return Err(DecodeError::Field),
    };
    let price = match json_num_field(entry, "price") {
        Some(n) => n,
        None => return Err(DecodeError::Field),
    };
    let time = match json_int_field(entry, "time") {
        Some(n) => n,
        None => return Err(DecodeError::Field),
    };
    let volume64 = match json_int_field(entry, "volume") {
        Some(n) => n,
        None => return Err(DecodeError::Field),
    };
    if volume64 > i32::MAX as i64 || volume64 < i32::MIN as i64 {
        return Err(DecodeError::Field);
    }
    let raw_type = match json_str_field(entry, "type") {
        Some(s) => s,
        None => return Err(DecodeError::Field),
    };
    let order_type = simplify_order_type(raw_type.as_str());
    Ok(BookRecord { symbol, price, time, volume: volume64 as i32, order_type })
}

/// A book batch from its parsed JSON document: `Shape` exactly when the
/// document is not an array; otherwise one record per element, in the
/// array's order, succeeding exactly when every element decodes.  An
/// empty array therefore yields zero records and no error.
pub fn decode_book_value(v: &serde_json::Value) -> (r: Result<Vec<BookRecord>, DecodeError>)
    ensures
        r matches Err(e) ==> e == DecodeError::Shape || e == DecodeError::Field,
        (r matches Err(e) && e == DecodeError::Shape) <==> (json_arr(*v) is None),
        (r matches Ok(_)) <==> (json_arr(*v) is Some
            && forall|i: int| 0 <= i < json_arr(*v)->Some_0.len()
                ==> book_fields_ok(#[trigger] json_arr(*v)->Some_0[i])),
        r matches Ok(rows) ==> (json_arr(*v) is Some
            && rows@.len() == json_arr(*v)->Some_0.len()
            && forall|i: int| 0 <= i < rows@.len()
                ==> book_record_of(#[trigger] rows@[i], json_arr(*v)->Some_0[i])),
{
    let entries = match json_array(v) {
        Some(a) => a,
        None => return Err(DecodeError::Shape),
    };
    let mut records: Vec<BookRecord> = Vec::new();
    let mut i: usize = 0;
    while i < entries.len()
        invariant
            i <= entries.len(),
            json_arr(*v) == Some(entries@),
            records@.len() == i,
            forall|k: int| 0 <= k < i ==> book_fields_ok(#[trigger] entries@[k]),
            forall|k: int| 0 <= k < i ==> book_record_of(#[trigger] records@[k], entries@[k]),
        decreases entries.len() - i,
    {
        let record = match decode_book_entry(&entries[i]) {
            Ok(b) => b,
            Err(_) => {
                proof {
                    assert(json_arr(*v)->Some_0 == entries@);
                    assert(!book_fields_ok(json_arr(*v)->Some_0[i as int]));
                }
                return Err(DecodeError::Field);
            },
        };
        records.push(record);
        i = i + 1;
    }
    Ok(records)
}

/// Decodes a `TICK` payload: `Syntax` when the bytes are not well-formed
/// JSON — which bytes are is decided by the trusted parser — and
/// otherwise exactly what `decode_tick_value` returns for the parsed
/// document.
pub fn decode_tick(payload: &[u8]) -> (r: Result<TickRecord, DecodeError>)
    ensures
        r matches Err(e) ==> e == DecodeError::Syntax || e == DecodeError::Field,
        r matches Ok(t) ==> exists|v: serde_json::Value| tick_fields_ok(v) && tick_record_of(t, v),
{
    let parsed = match parse_json(payload) {
        Some(v) => v,
        None => return Err(DecodeError::Syntax),
    };
    decode_tick_value(&parsed)
}

/// Decodes a `BOOK` payload: `Syntax` when the bytes are not well-formed
/// JSON — which bytes are is decided by the trusted parser — and
/// otherwise exactly what `decode_book_value` returns for the parsed
/// document.
pub fn decode_book(payload: &[u8]) -> (r: Result<Vec<BookRecord>, DecodeError>)
    ensures
        r matches Ok(rows) ==> exists|v: serde_json::Value| (#[trigger] json_arr(v)) is Some
            && rows@.len() == json_arr(v)->Some_0.len()
            && (forall|i: int| 0 <= i < rows@.len()
                ==> book_record_of(#[trigger] rows@[i], json_arr(v)->Some_0[i])),
{
    let parsed = match parse_json(payload) {
        Some(v) => v,
        None => return Err(DecodeError::Syntax),
    };
    decode_book_value(&parsed)
}

} // verus!
