//! The client of the ZetaChain routes, under `/zeta`, and the records they exchange.
use vstd::prelude::*;
use crate::Kiln;
use crate::request::{chain_endpoint, Endpoint, EndpointView};

verus! {

/// The client of the operations under `/zeta`.
#[derive(Debug)]
pub struct KilnZetachainClient {
    endpoint: Endpoint,
}

impl View for KilnZetachainClient {
    type V = EndpointView;

    closed spec fn view(&self) -> EndpointView {
        self.endpoint@
    }
}

impl KilnZetachainClient {
    pub fn new(kiln: &Kiln) -> (r: KilnZetachainClient)
        ensures
            r@ == chain_endpoint(kiln@, "zeta"@),
    {
        KilnZetachainClient { endpoint: Endpoint::for_chain(kiln, "zeta") }
    }
}

} // verus!
