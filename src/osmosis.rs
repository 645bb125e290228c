//! The client of the Osmosis routes, under `/osmo`, and the records they exchange.
use vstd::prelude::*;
use crate::Kiln;
use crate::request::{chain_endpoint, Endpoint, EndpointView};

verus! {

/// The client of the operations under `/osmo`.
#[derive(Debug)]
pub struct KilnOsmosisClient {
    endpoint: Endpoint,
}

impl View for KilnOsmosisClient {
    type V = EndpointView;

    closed spec fn view(&self) -> EndpointView {
        self.endpoint@
    }
}

impl KilnOsmosisClient {
    pub fn new(kiln: &Kiln) -> (r: KilnOsmosisClient)
        ensures
            r@ == chain_endpoint(kiln@, "osmo"@),
    {
        KilnOsmosisClient { endpoint: Endpoint::for_chain(kiln, "osmo") }
    }
}

} // verus!
