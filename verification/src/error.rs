//! Error taxonomy of the watcher.
//!
//! Configuration errors are fatal at startup; query errors are caught at the
//! tick boundary of the monitor that saw them and never unwind further.
use vstd::prelude::*;

verus! {

#[derive(Debug, PartialEq, Eq)]
pub enum Error {
    /// A coin's minimum balance is not a decimal string that fits in a `u128`.
    ConfigParseU128,
    /// A coin asks for more decimal places than the supported maximum; the
    /// field carries that maximum.
    ConfigDecimalExceed { decimal: u32 },
    /// An address configures more than one EVM-variant coin; the field names
    /// the first such address.
    ConfigSingleEvmCoinTypeInAddress { address: String },
    /// A CW20-variant coin has no contract address.
    ConfigMissingCW20ContractAddress,
    /// A balance query failed; transport and protocol failures are both
    /// normalized to this one outcome, with a human-readable cause and the
    /// endpoint that was queried.
    QueryError { source: String, endpoint: String },
    /// A single-denomination ledger query returned no balance for the
    /// requested denomination.
    GetCosmosBalance { denom: String },
}

/// The endpoint a failed query used, for the query-status gauge label; empty
/// for errors that carry none.
pub open spec fn error_endpoint(e: Error) -> Seq<char> {
    match e {
        Error::QueryError { source: _, endpoint } => endpoint@,
        _ => Seq::<char>::empty(),
    }
}

impl Error {
    /// The endpoint of a query failure, or the empty string.
    pub fn query_endpoint(&self) -> (r: &str)
        ensures
            r@ == error_endpoint(*self),
    {
        proof {
            reveal_strlit("");
            assert(""@ =~= Seq::<char>::empty());
        }
        match self {
            Error::QueryError { source: _, endpoint } => endpoint.as_str(),
            _ => "",
        }
    }
}

} // verus!
