//! What can go wrong when metrics are pulled from a node.
use vstd::prelude::*;

verus! {

/// Why a node's metrics could not be collected.
#[derive(Debug)]
pub enum MetricCollectorError {
    /// We were unable to get data from the node.
    GetDataError(String),
    /// We could not perform basic parsing on the response.
    ResponseParseError(String),
}

} // verus!
