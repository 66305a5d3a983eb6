use vstd::prelude::*;

use crate::value::V1Num;

verus! {

/// The handshake a server sends when a stream opens.
#[derive(Debug)]
pub struct V1Hello {
    pub name: Option<String>,
    pub version: String,
    pub timestamp: Option<String>,
    pub start_time: Option<String>,
    pub playback_rate: Option<V1Num>,
    pub self_: Option<String>,
    pub roles: Vec<String>,
}

} // verus!
