//! The client of the Kava routes, under `/kava`, and the records they exchange.
use vstd::prelude::*;
use crate::Kiln;
use crate::request::{chain_endpoint, Endpoint, EndpointView};

verus! {

/// The client of the operations under `/kava`.
#[derive(Debug)]
pub struct KilnKavaClient {
    endpoint: Endpoint,
}

impl View for KilnKavaClient {
    type V = EndpointView;

    closed spec fn view(&self) -> EndpointView {
        self.endpoint@
    }
}

impl KilnKavaClient {
    pub fn new(kiln: &Kiln) -> (r: KilnKavaClient)
        ensures
            r@ == chain_endpoint(kiln@, "kava"@),
    {
        KilnKavaClient { endpoint: Endpoint::for_chain(kiln, "kava") }
    }
}

} // verus!
