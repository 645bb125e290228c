//! The client of the Celestia routes, under `/tia`, and the records they exchange.
use vstd::prelude::*;
use crate::Kiln;
use crate::request::{chain_endpoint, Endpoint, EndpointView};

verus! {

/// The client of the operations under `/tia`.
#[derive(Debug)]
pub struct KilnCelestiaClient {
    endpoint: Endpoint,
}

impl View for KilnCelestiaClient {
    type V = EndpointView;

    closed spec fn view(&self) -> EndpointView {
        self.endpoint@
    }
}

impl KilnCelestiaClient {
    pub fn new(kiln: &Kiln) -> (r: KilnCelestiaClient)
        ensures
            r@ == chain_endpoint(kiln@, "tia"@),
    {
        KilnCelestiaClient { endpoint: Endpoint::for_chain(kiln, "tia") }
    }
}

} // verus!
