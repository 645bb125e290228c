//! The client of the organisations routes, under `/organisations`, and the records they exchange.
use vstd::prelude::*;
use crate::Kiln;
use crate::ids::Uuid;
use crate::request::{chain_endpoint, get_bytes, get_json, resource_url, Endpoint, EndpointView, Request};

verus! {

/// The client of the operations under `/organisations`.
#[derive(Debug)]
pub struct KilnOrganisationClient {
    endpoint: Endpoint,
}

impl View for KilnOrganisationClient {
    type V = EndpointView;

    closed spec fn view(&self) -> EndpointView {
        self.endpoint@
    }
}

impl KilnOrganisationClient {
    pub fn new(kiln: &Kiln) -> (r: KilnOrganisationClient)
        ensures
            r@ == chain_endpoint(kiln@, "organisations"@),
    {
        KilnOrganisationClient { endpoint: Endpoint::for_chain(kiln, "organisations") }
    }

    /// The holdings of the organisation `id`.
    pub fn get_by_uuid(&self, id: Uuid) -> (r: Request)
        ensures
            r@ == get_json(self@, resource_url(self@.base_url, id.text())),
    {
        let id_param = id.to_text();
        let url = self.endpoint.url(id_param.as_str());
        self.endpoint.get_json(url)
    }

    /// The report of the organisation `id`, as raw bytes.
    pub fn reports(&self, id: Uuid) -> (r: Request)
        ensures
            r@ == get_bytes(self@, resource_url(self@.base_url, id.text() + "/reports"@)),
    {
        let mut resource = id.to_text();
        resource.append("/reports");
        let url = self.endpoint.url(resource.as_str());
        self.endpoint.get_bytes(url)
    }
}

} // verus!
