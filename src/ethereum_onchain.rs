//! The client of the Ethereum on-chain staking routes, under `/eth/onchain`, and the records they exchange.
use vstd::prelude::*;
use crate::Kiln;
use crate::ids::Uuid;
use crate::request::{chain_endpoint, get_json, query_url_amp, resource_url, send_json, Endpoint, EndpointView, Method, Request};
use crate::text::{bool_text, comma_join, param_views, texts, QueryParam};
use crate::timestamp::{utc_text_of, UtcDateTime};

verus! {

#[derive(Debug)]
pub struct EthOnchainKeysRequest {
    pub account_id: Uuid,
    pub number: u64,
    pub fee_recipient_contract_address: String,
    pub staking_contract_address: String,
}

#[derive(Debug)]
pub struct EthSuiteKeysRequest {
    pub account_id: Uuid,
    pub number: u64,
    pub factory_contract_address: String,
}

#[derive(Debug)]
pub struct OnchainV2OperationsRequest {
    pub wallets: Vec<String>,
    pub ids: Vec<String>,
    pub start_date: UtcDateTime,
    pub end_date: UtcDateTime,
}

#[derive(Clone, Copy, Debug, PartialEq, Eq, Structural)]
pub enum TicketStatus {
    Unfulfillable,
    Fulfillable,
    PartiallyFulfillable,
}

#[derive(Debug)]
pub enum OnchainV2Operation {
    Exit {
        kind: String,
        ticket_id: String,
        ticket_status: TicketStatus,
        size: String,
        size_shares: String,
        claimable: String,
        claimable_shares: String,
        cask_ids: Vec<String>,
        id: String,
        owner: String,
        time: String,
        block: u64,
        tx_hash: String,
    },
    Claim {
        kind: String,
        ticket_id: String,
        ticket_status: TicketStatus,
        claimed: String,
        claimable_shares: String,
        remaining: String,
        remaining_shares: String,
        used_cask_ids: Vec<String>,
        id: String,
        owner: String,
        time: String,
        block: u64,
        tx_hash: String,
    },
    Deposit {
        kind: String,
        amount: String,
        amount_shares: String,
        id: String,
        owner: String,
        time: String,
        block: u64,
        tx_hash: String,
    },
}

#[derive(Debug)]
pub struct OnchainV2RewardsRequest {
    pub wallets: Vec<String>,
    pub start_date: UtcDateTime,
    pub end_date: UtcDateTime,
    pub include_usd: bool,
    pub integration: String,
}

#[derive(Debug)]
pub struct OnchainV2NetworkStatsRequest {
    pub integration: String,
}

#[derive(Debug)]
pub struct Pool {
    pub address: String,
    pub name: String,
    pub ratio: u64,
    pub commission: u64,
    pub total_deposited: String,
    pub factory_address: String,
    pub operator_address: String,
}

#[derive(Debug)]
pub struct OnchainV2ExitTicketsResponse {
    pub owner: String,
    pub state: TicketStatus,
    pub retrievable_amount: String,
    pub exiting_amount: String,
    pub exit_queue_address: String,
    pub integration_address: String,
    pub ticket_id: String,
    pub cask_id: Option<String>,
    pub estimated_claimable_at: Option<u64>,
}

/// The client of the operations under `/eth/onchain`.
#[derive(Debug)]
pub struct KilnEthereumOnchainClient {
    endpoint: Endpoint,
}

impl View for KilnEthereumOnchainClient {
    type V = EndpointView;

    closed spec fn view(&self) -> EndpointView {
        self.endpoint@
    }
}

impl KilnEthereumOnchainClient {
    pub fn new(kiln: &Kiln) -> (r: KilnEthereumOnchainClient)
        ensures
            r@ == chain_endpoint(kiln@, "eth/onchain"@),
    {
        KilnEthereumOnchainClient { endpoint: Endpoint::for_chain(kiln, "eth/onchain") }
    }

    /// Sends the JSON `body` to `v1/keys`.
    pub fn post_eth_onchain_keys(&self, body: String) -> (r: Request)
        ensures
            r@ == send_json(self@, Method::Post, resource_url(self@.base_url, "v1/keys"@), body@),
    {
        let url = self.endpoint.url("v1/keys");
        self.endpoint.send_json(Method::Post, url, body)
    }

    /// Sends the JSON `body` to `v2/keys`.
    pub fn post_eth_suite_keys(&self, body: String) -> (r: Request)
        ensures
            r@ == send_json(self@, Method::Post, resource_url(self@.base_url, "v2/keys"@), body@),
    {
        let url = self.endpoint.url("v2/keys");
        self.endpoint.send_json(Method::Post, url, body)
    }

    /// Reads `v2/stakes`, with the filters as query parameters in the order the API documents.
    pub fn get_onchain_v2_stakes(&self, wallets: Vec<String>) -> (r: Request)
        ensures
            r@ == get_json(self@, query_url_amp(self@.base_url, "v2/stakes"@, seq![
                ("wallets"@, comma_join(texts(wallets@))),
            ])),
    {
        let params = vec![
            QueryParam::new("wallets", crate::text::join_values(&wallets)),
        ];
        let url = self.endpoint.url_with_amp_query("v2/stakes", &params);
        proof {
            assert(param_views(params@) =~= seq![
                    ("wallets"@, comma_join(texts(wallets@))),
                ]);
        }
        self.endpoint.get_json(url)
    }

    /// Reads `v2/operations`, with the filters as query parameters in the order the API documents.
    pub fn get_onchain_v2_operations(
        &self,
        onchain_v2_operation_request: &OnchainV2OperationsRequest,
    ) -> (r: Request)
        ensures
            r@ == get_json(self@, query_url_amp(self@.base_url, "v2/operations"@, seq![
                ("wallets"@, comma_join(texts(onchain_v2_operation_request.wallets@))),
                ("ids"@, comma_join(texts(onchain_v2_operation_request.ids@))),
                ("start_date"@, utc_text_of(onchain_v2_operation_request.start_date@.0, onchain_v2_operation_request.start_date@.1)),
                ("end_date"@, utc_text_of(onchain_v2_operation_request.end_date@.0, onchain_v2_operation_request.end_date@.1)),
            ])),
    {
        let params = vec![
            QueryParam::new("wallets", crate::text::join_values(&onchain_v2_operation_request.wallets)),
            QueryParam::new("ids", crate::text::join_values(&onchain_v2_operation_request.ids)),
            QueryParam::new("start_date", onchain_v2_operation_request.start_date.text()),
            QueryParam::new("end_date", onchain_v2_operation_request.end_date.text()),
        ];
        let url = self.endpoint.url_with_amp_query("v2/operations", &params);
        proof {
            assert(param_views(params@) =~= seq![
                    ("wallets"@, comma_join(texts(onchain_v2_operation_request.wallets@))),
                    ("ids"@, comma_join(texts(onchain_v2_operation_request.ids@))),
                    ("start_date"@, utc_text_of(onchain_v2_operation_request.start_date@.0, onchain_v2_operation_request.start_date@.1)),
                    ("end_date"@, utc_text_of(onchain_v2_operation_request.end_date@.0, onchain_v2_operation_request.end_date@.1)),
                ]);
        }
        self.endpoint.get_json(url)
    }

    /// Reads `v2/rewards`, with the filters as query parameters in the order the API documents.
    pub fn get_onchain_v2_rewards(
        &self,
        onchain_v2_rewards_request: &OnchainV2RewardsRequest,
    ) -> (r: Request)
        ensures
            r@ == get_json(self@, query_url_amp(self@.base_url, "v2/rewards"@, seq![
                ("wallets"@, comma_join(texts(onchain_v2_rewards_request.wallets@))),
                ("start_date"@, utc_text_of(onchain_v2_rewards_request.start_date@.0, onchain_v2_rewards_request.start_date@.1)),
                ("end_date"@, utc_text_of(onchain_v2_rewards_request.end_date@.0, onchain_v2_rewards_request.end_date@.1)),
                ("include_usd"@, bool_text(onchain_v2_rewards_request.include_usd)),
                ("integration"@, onchain_v2_rewards_request.integration@),
            ])),
    {
        let params = vec![
            QueryParam::new("wallets", crate::text::join_values(&onchain_v2_rewards_request.wallets)),
            QueryParam::new("start_date", onchain_v2_rewards_request.start_date.text()),
            QueryParam::new("end_date", onchain_v2_rewards_request.end_date.text()),
            QueryParam::new("include_usd", crate::text::bool_to_text(onchain_v2_rewards_request.include_usd)),
            QueryParam::new("integration", onchain_v2_rewards_request.integration.clone()),
        ];
        let url = self.endpoint.url_with_amp_query("v2/rewards", &params);
        proof {
            assert(param_views(params@) =~= seq![
                    ("wallets"@, comma_join(texts(onchain_v2_rewards_request.wallets@))),
                    ("start_date"@, utc_text_of(onchain_v2_rewards_request.start_date@.0, onchain_v2_rewards_request.start_date@.1)),
                    ("end_date"@, utc_text_of(onchain_v2_rewards_request.end_date@.0, onchain_v2_rewards_request.end_date@.1)),
                    ("include_usd"@, bool_text(onchain_v2_rewards_request.include_usd)),
                    ("integration"@, onchain_v2_rewards_request.integration@),
                ]);
        }
        self.endpoint.get_json(url)
    }

    /// Reads `v2/network-stats`, with the filters as query parameters in the order the API documents.
    pub fn get_onchain_v2_network_stats(
        &self,
        integration_request: &OnchainV2NetworkStatsRequest,
    ) -> (r: Request)
        ensures
            r@ == get_json(self@, query_url_amp(self@.base_url, "v2/network-stats"@, seq![
                ("integration"@, integration_request.integration@),
            ])),
    {
        let params = vec![
            QueryParam::new("integration", integration_request.integration.clone()),
        ];
        let url = self.endpoint.url_with_amp_query("v2/network-stats", &params);
        proof {
            assert(param_views(params@) =~= seq![
                    ("integration"@, integration_request.integration@),
                ]);
        }
        self.endpoint.get_json(url)
    }

    /// Reads `v2/exit-tickets`, with the filters as query parameters in the order the API documents.
    pub fn get_onchain_v2_exit_tickets(&self, wallets: Vec<String>) -> (r: Request)
        ensures
            r@ == get_json(self@, query_url_amp(self@.base_url, "v2/exit-tickets"@, seq![
                ("wallets"@, comma_join(texts(wallets@))),
            ])),
    {
        let params = vec![
            QueryParam::new("wallets", crate::text::join_values(&wallets)),
        ];
        let url = self.endpoint.url_with_amp_query("v2/exit-tickets", &params);
        proof {
            assert(param_views(params@) =~= seq![
                    ("wallets"@, comma_join(texts(wallets@))),
                ]);
        }
        self.endpoint.get_json(url)
    }
}

} // verus!
