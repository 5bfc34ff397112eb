//! The three failure kinds of a run. None is retried: each propagates to
//! the run's single entry point, with the underlying cause preserved.

use vstd::prelude::*;
use vstd::string::StringExecFns;

verus! {

/// A failure of a run.
#[derive(Debug, PartialEq, Eq)]
pub enum RunError {
    /// An unrecognized stream kind, or a credential value that cannot be
    /// encoded into a transport header; surfaced before any network
    /// activity.
    Configuration { detail: String },
    /// The connection could not be established or the streaming call
    /// could not be initiated.
    Transport { cause: String },
    /// The open stream yielded an error instead of a message.
    Stream { cause: String },
}

/// The diagnostic text for an unrecognized stream-kind identifier: it
/// names the invalid input and enumerates the valid alternatives.
pub open spec fn unknown_kind_message(s: Seq<char>) -> Seq<char> {
    "unknown stream type: "@ + s
        + ". supported types: dex_trades|dex_orders|dex_pools|transactions|transfers|balances"@
}

/// Builds the configuration error for an unrecognized stream-kind
/// identifier.
pub fn unknown_kind_error(s: &str) -> (r: RunError)
    ensures
        r matches RunError::Configuration { detail } && detail@ == unknown_kind_message(s@),
{
    let mut detail: String = String::from_str("unknown stream type: ");
    detail.append(s);
    detail.append(
        ". supported types: dex_trades|dex_orders|dex_pools|transactions|transfers|balances",
    );
    RunError::Configuration { detail }
}

} // verus!
