//! The six subscribable stream kinds and the parsing of the configured
//! stream-kind identifier. Any identifier outside the six literal values
//! is rejected before any network activity.

use vstd::prelude::*;
use vstd::string::StringExecFns;

verus! {

/// One of the six categories of subscribable event data.
#[derive(Clone, Copy, Debug, PartialEq, Eq)]
pub enum StreamKind {
    DexTrades,
    DexOrders,
    DexPools,
    Transactions,
    Transfers,
    Balances,
}

/// The stream kind that a configured identifier selects: each of the six
/// literal identifiers maps to its kind; every other string maps to none.
pub open spec fn kind_of(s: Seq<char>) -> Option<StreamKind> {
    if s == "dex_trades"@ {
        Option::Some(StreamKind::DexTrades)
    } else if s == "dex_orders"@ {
        Option::Some(StreamKind::DexOrders)
    } else if s == "dex_pools"@ {
        Option::Some(StreamKind::DexPools)
    } else if s == "transactions"@ {
        Option::Some(StreamKind::Transactions)
    } else if s == "transfers"@ {
        Option::Some(StreamKind::Transfers)
    } else if s == "balances"@ {
        Option::Some(StreamKind::Balances)
    } else {
        Option::None
    }
}

/// Parses the configured stream-kind identifier; `None` exactly on the
/// strings outside the six recognized identifiers.
pub fn parse_stream_kind(s: &str) -> (r: Option<StreamKind>)
    ensures
        r == kind_of(s@),
{
    let owned: String = s.to_owned();
    if owned == String::from_str("dex_trades") {
        Option::Some(StreamKind::DexTrades)
    } else if owned == String::from_str("dex_orders") {
        Option::Some(StreamKind::DexOrders)
    } else if owned == String::from_str("dex_pools") {
        Option::Some(StreamKind::DexPools)
    } else if owned == String::from_str("transactions") {
        Option::Some(StreamKind::Transactions)
    } else if owned == String::from_str("transfers") {
        Option::Some(StreamKind::Transfers)
    } else if owned == String::from_str("balances") {
        Option::Some(StreamKind::Balances)
    } else {
        Option::None
    }
}

} // verus!
