//! The two decoded record shapes and the order-type normalization.

use vstd::prelude::*;
use vstd::string::StrSliceExecFns;

verus! {

/// One order-book entry of a `BOOK` batch.
#[derive(Debug)]
pub struct BookRecord {
    pub symbol: String,
    /// The price as the parsed JSON number, carried through to storage
    /// without being read here.
    pub price: serde_json::Value,
    /// Seconds since the Unix epoch.
    pub time: i64,
    pub volume: i32,
    /// Order type with the fixed `BOOK_TYPE_` prefix already stripped.
    pub order_type: String,
}

/// A single trade tick of a `TICK` message.
#[derive(Debug)]
pub struct TickRecord {
    pub symbol: String,
    pub bid: serde_json::Value,
    pub price: serde_json::Value,
    pub ask: serde_json::Value,
    /// Seconds since the Unix epoch.
    pub time: i64,
    pub volume: i32,
    /// `"B"` for a buy, `"S"` for a sell; any other tag is ignored by the
    /// aggregator.
    pub trade_type: String,
}

/// The normalized order type: the fixed `BOOK_TYPE_` prefix removed when
/// present, the text unchanged otherwise.
pub open spec fn simplified_order_type(s: Seq<char>) -> Seq<char> {
    if s.len() >= 10 && s.subrange(0, 10) == "BOOK_TYPE_"@ {
        s.subrange(10, s.len() as int)
    } else {
        s
    }
}

/// Strips the fixed `BOOK_TYPE_` prefix from an order type if present.
/// A pure, total transform with no failure mode.
pub fn simplify_order_type(order_type: &str) -> (r: String)
    ensures
        r@ == simplified_order_type(order_type@),
{
    let prefix = "BOOK_TYPE_";
    proof {
        reveal_strlit("BOOK_TYPE_");
    }
    let n = order_type.unicode_len();
    if n < 10 {
        return order_type.to_owned();
    }
    let mut i: usize = 0;
    let mut same = true;
    while i < 10
        invariant
            i <= 10,
            10 <= n,
            n == order_type@.len(),
            prefix@ == "BOOK_TYPE_"@,
            prefix@.len() == 10,
            same <==> (forall|j: int| 0 <= j < i ==> order_type@[j] == prefix@[j]),
        decreases 10 - i,
    {
        if order_type.get_char(i) != prefix.get_char(i) {
            same = false;
        }
        i = i + 1;
    }
    if same {
        proof {
            assert(order_type@.subrange(0, 10) =~= "BOOK_TYPE_"@);
        }
        let rest = order_type.substring_char(10, n);
        rest.to_owned()
    } else {
        proof {
            let j = choose|j: int| 0 <= j < 10 && order_type@[j] != prefix@[j];
            assert(order_type@.subrange(0, 10)[j] == order_type@[j]);
        }
        order_type.to_owned()
    }
}

} // verus!
