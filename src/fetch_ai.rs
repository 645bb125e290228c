//! The client of the Fetch.ai routes, under `/fet`, and the records they exchange.
use vstd::prelude::*;
use crate::Kiln;
use crate::request::{chain_endpoint, Endpoint, EndpointView};

verus! {

/// The client of the operations under `/fet`.
#[derive(Debug)]
pub struct KilnFetchaiClient {
    endpoint: Endpoint,
}

impl View for KilnFetchaiClient {
    type V = EndpointView;

    closed spec fn view(&self) -> EndpointView {
        self.endpoint@
    }
}

impl KilnFetchaiClient {
    pub fn new(kiln: &Kiln) -> (r: KilnFetchaiClient)
        ensures
            r@ == chain_endpoint(kiln@, "fet"@),
    {
        KilnFetchaiClient { endpoint: Endpoint::for_chain(kiln, "fet") }
    }
}

} // verus!
