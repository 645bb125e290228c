//! The client of the Noble routes, under `/noble`, and the records they exchange.
use vstd::prelude::*;
use crate::Kiln;
use crate::request::{chain_endpoint, get_json, query_url, resource_url, send_json, Endpoint, EndpointView, Method, Request};
use crate::text::{param_views, QueryParam};

verus! {

#[derive(Debug)]
pub struct BurnTxRequest {
    pub pubkey: String,
    pub recipient: String,
    pub amount_uusdc: String,
}

#[derive(Debug)]
pub struct OsmoIBCTransferTxRequest {
    pub pubkey: String,
    pub recipient: String,
    pub amount_uusdc: String,
}

/// The client of the operations under `/noble`.
#[derive(Debug)]
pub struct KilnNobleClient {
    endpoint: Endpoint,
}

impl View for KilnNobleClient {
    type V = EndpointView;

    closed spec fn view(&self) -> EndpointView {
        self.endpoint@
    }
}

impl KilnNobleClient {
    pub fn new(kiln: &Kiln) -> (r: KilnNobleClient)
        ensures
            r@ == chain_endpoint(kiln@, "noble"@),
    {
        KilnNobleClient { endpoint: Endpoint::for_chain(kiln, "noble") }
    }

    /// Sends the JSON `body` to `balance`.
    pub fn post_get_balance(&self, body: String) -> (r: Request)
        ensures
            r@ == send_json(self@, Method::Post, resource_url(self@.base_url, "balance"@), body@),
    {
        let url = self.endpoint.url("balance");
        self.endpoint.send_json(Method::Post, url, body)
    }

    /// Sends the JSON `body` to `transaction/burn-usdc`.
    pub fn post_burn_usdc_tx(&self, body: String) -> (r: Request)
        ensures
            r@ == send_json(self@, Method::Post, resource_url(self@.base_url, "transaction/burn-usdc"@), body@),
    {
        let url = self.endpoint.url("transaction/burn-usdc");
        self.endpoint.send_json(Method::Post, url, body)
    }

    /// Sends the JSON `body` to `transaction/osmo-ibc-transfer`.
    pub fn post_osmo_ibc_transfer_tx(&self, body: String) -> (r: Request)
        ensures
            r@ == send_json(self@, Method::Post, resource_url(self@.base_url, "transaction/osmo-ibc-transfer"@), body@),
    {
        let url = self.endpoint.url("transaction/osmo-ibc-transfer");
        self.endpoint.send_json(Method::Post, url, body)
    }

    /// Sends the JSON `body` to `transaction/prepare`.
    pub fn post_prepare_tx(&self, body: String) -> (r: Request)
        ensures
            r@ == send_json(self@, Method::Post, resource_url(self@.base_url, "transaction/prepare"@), body@),
    {
        let url = self.endpoint.url("transaction/prepare");
        self.endpoint.send_json(Method::Post, url, body)
    }

    /// Reads `transaction/status`, with the filters as query parameters in the order the API documents.
    pub fn get_tx_status(&self, tx_hash: &str) -> (r: Request)
        ensures
            r@ == get_json(self@, query_url(self@.base_url, "transaction/status"@, seq![
                ("tx_hash"@, tx_hash@),
            ])),
    {
        let params = vec![
            QueryParam::new("tx_hash", String::from_str(tx_hash)),
        ];
        let url = self.endpoint.url_with_query("transaction/status", &params);
        proof {
            assert(param_views(params@) =~= seq![
                    ("tx_hash"@, tx_hash@),
                ]);
        }
        self.endpoint.get_json(url)
    }

    /// Sends the JSON `body` to `transaction/broadcast`.
    pub fn post_broadcast_tx(&self, body: String) -> (r: Request)
        ensures
            r@ == send_json(self@, Method::Post, resource_url(self@.base_url, "transaction/broadcast"@), body@),
    {
        let url = self.endpoint.url("transaction/broadcast");
        self.endpoint.send_json(Method::Post, url, body)
    }

    /// Reads `transaction/decode`, with the filters as query parameters in the order the API documents.
    pub fn get_tx_decoding(&self, tx_serialized: &str) -> (r: Request)
        ensures
            r@ == get_json(self@, query_url(self@.base_url, "transaction/decode"@, seq![
                ("tx_serialized"@, tx_serialized@),
            ])),
    {
        let params = vec![
            QueryParam::new("tx_serialized", String::from_str(tx_serialized)),
        ];
        let url = self.endpoint.url_with_query("transaction/decode", &params);
        proof {
            assert(param_views(params@) =~= seq![
                    ("tx_serialized"@, tx_serialized@),
                ]);
        }
        self.endpoint.get_json(url)
    }
}

} // verus!
