//! The client of the DeFi routes, under `/defi`, and the records they exchange.
use vstd::prelude::*;
use crate::Kiln;
use crate::request::{chain_endpoint, get_json, query_url, resource_url, Endpoint, EndpointView, Request};
use crate::text::{comma_join, param_views, texts, QueryParam};

verus! {

/// The client of the operations under `/defi`.
#[derive(Debug)]
pub struct KilnDefiClient {
    endpoint: Endpoint,
}

impl View for KilnDefiClient {
    type V = EndpointView;

    closed spec fn view(&self) -> EndpointView {
        self.endpoint@
    }
}

impl KilnDefiClient {
    pub fn new(kiln: &Kiln) -> (r: KilnDefiClient)
        ensures
            r@ == chain_endpoint(kiln@, "defi"@),
    {
        KilnDefiClient { endpoint: Endpoint::for_chain(kiln, "defi") }
    }

    /// Reads `stakes`, with the filters as query parameters in the order the API documents.
    pub fn stakes(&self, wallets: Vec<String>, vaults: Vec<String>) -> (r: Request)
        ensures
            r@ == get_json(self@, query_url(self@.base_url, "stakes"@, seq![
                ("wallets"@, comma_join(texts(wallets@))),
                ("vaults"@, comma_join(texts(vaults@))),
            ])),
    {
        let params = vec![
            QueryParam::new("wallets", crate::text::join_values(&wallets)),
            QueryParam::new("vaults", crate::text::join_values(&vaults)),
        ];
        let url = self.endpoint.url_with_query("stakes", &params);
        proof {
            assert(param_views(params@) =~= seq![
                    ("wallets"@, comma_join(texts(wallets@))),
                    ("vaults"@, comma_join(texts(vaults@))),
                ]);
        }
        self.endpoint.get_json(url)
    }

    /// Reads `operations`.
    pub fn get_operations(&self) -> (r: Request)
        ensures
            r@ == get_json(self@, resource_url(self@.base_url, "operations"@)),
    {
        let url = self.endpoint.url("operations");
        self.endpoint.get_json(url)
    }

    /// Reads `network-stats`.
    pub fn network_stats(&self) -> (r: Request)
        ensures
            r@ == get_json(self@, resource_url(self@.base_url, "network-stats"@)),
    {
        let url = self.endpoint.url("network-stats");
        self.endpoint.get_json(url)
    }
}

} // verus!
