//! The client of the Cosmos Hub routes, under `/atom`, and the records they exchange.
use vstd::prelude::*;
use crate::Kiln;
use crate::ids::{uuid_texts, Uuid};
use crate::request::{chain_endpoint, get_bytes, get_json, query_url, resource_url, send_json, Endpoint, EndpointView, Method, Request};
use crate::text::{bool_text, comma_join, param_views, texts, QueryParam};
use crate::timestamp::utc_text_of;
use crate::types::{reward_params, reward_query, GetStakesRequest, ReportsRequest, RewardRequest, ValidatorOperationsRequest};

verus! {

#[derive(Debug)]
pub struct CosmosStakeTxRequest {
    pub account_id: Uuid,
    pub pubkey: String,
    pub validator: String,
    pub amount_uatom: String,
    pub restake_rewards: bool,
    pub grantee_address: String,
}

#[derive(Debug)]
pub struct CosmosUnstakeRewardsTxRequest {
    pub pubkey: String,
    pub validator: String,
    pub amount_uatom: String,
}

#[derive(Debug)]
pub struct CosmosRedelegateTxRequest {
    pub account_id: Uuid,
    pub pubkey: String,
    pub validator_source: String,
    pub validator_destination: String,
    pub amount_uatom: String,
}

/// The client of the operations under `/atom`.
#[derive(Debug)]
pub struct KilnCosmosClient {
    endpoint: Endpoint,
}

impl View for KilnCosmosClient {
    type V = EndpointView;

    closed spec fn view(&self) -> EndpointView {
        self.endpoint@
    }
}

impl KilnCosmosClient {
    pub fn new(kiln: &Kiln) -> (r: KilnCosmosClient)
        ensures
            r@ == chain_endpoint(kiln@, "atom"@),
    {
        KilnCosmosClient { endpoint: Endpoint::for_chain(kiln, "atom") }
    }

    /// The reward history, in the daily or the per-epoch form.
    pub fn get_rewards(&self, reward_request: RewardRequest) -> (r: Request)
        ensures
            r@ == get_json(self@, query_url(self@.base_url, "rewards"@, reward_query(reward_request))),
    {
        let params = reward_params(&reward_request);
        let url = self.endpoint.url_with_query("rewards", &params);
        self.endpoint.get_json(url)
    }

    /// Reads `stakes`, with the filters as query parameters in the order the API documents.
    pub fn get_stakes(&self, cosmos_stake_request: &GetStakesRequest) -> (r: Request)
        ensures
            r@ == get_json(self@, query_url(self@.base_url, "stakes"@, seq![
                ("validators"@, comma_join(texts(cosmos_stake_request.validators@))),
                ("delegators"@, comma_join(texts(cosmos_stake_request.delegators@))),
                ("accounts"@, comma_join(uuid_texts(cosmos_stake_request.accounts@))),
            ])),
    {
        let params = vec![
            QueryParam::new("validators", crate::text::join_values(&cosmos_stake_request.validators)),
            QueryParam::new("delegators", crate::text::join_values(&cosmos_stake_request.delegators)),
            QueryParam::new("accounts", crate::ids::join_uuids(&cosmos_stake_request.accounts)),
        ];
        let url = self.endpoint.url_with_query("stakes", &params);
        proof {
            assert(param_views(params@) =~= seq![
                    ("validators"@, comma_join(texts(cosmos_stake_request.validators@))),
                    ("delegators"@, comma_join(texts(cosmos_stake_request.delegators@))),
                    ("accounts"@, comma_join(uuid_texts(cosmos_stake_request.accounts@))),
                ]);
        }
        self.endpoint.get_json(url)
    }

    /// Sends the JSON `body` to `stakes`.
    pub fn post_stakes(&self, body: String) -> (r: Request)
        ensures
            r@ == send_json(self@, Method::Post, resource_url(self@.base_url, "stakes"@), body@),
    {
        let url = self.endpoint.url("stakes");
        self.endpoint.send_json(Method::Post, url, body)
    }

    /// Reads `operations`, with the filters as query parameters in the order the API documents.
    pub fn get_operations(
        &self,
        validator_operations_request: &ValidatorOperationsRequest,
    ) -> (r: Request)
        ensures
            r@ == get_json(self@, query_url(self@.base_url, "operations"@, seq![
                ("validators"@, comma_join(texts(validator_operations_request.validators@))),
                ("authz"@, bool_text(validator_operations_request.authz)),
                ("delegators"@, comma_join(texts(validator_operations_request.delegators@))),
                ("accounts"@, comma_join(uuid_texts(validator_operations_request.accounts@))),
                ("start_date"@, utc_text_of(validator_operations_request.start_date@.0, validator_operations_request.start_date@.1)),
                ("end_date"@, utc_text_of(validator_operations_request.end_date@.0, validator_operations_request.end_date@.1)),
            ])),
    {
        let params = vec![
            QueryParam::new("validators", crate::text::join_values(&validator_operations_request.validators)),
            QueryParam::new("authz", crate::text::bool_to_text(validator_operations_request.authz)),
            QueryParam::new("delegators", crate::text::join_values(&validator_operations_request.delegators)),
            QueryParam::new("accounts", crate::ids::join_uuids(&validator_operations_request.accounts)),
            QueryParam::new("start_date", validator_operations_request.start_date.text()),
            QueryParam::new("end_date", validator_operations_request.end_date.text()),
        ];
        let url = self.endpoint.url_with_query("operations", &params);
        proof {
            assert(param_views(params@) =~= seq![
                    ("validators"@, comma_join(texts(validator_operations_request.validators@))),
                    ("authz"@, bool_text(validator_operations_request.authz)),
                    ("delegators"@, comma_join(texts(validator_operations_request.delegators@))),
                    ("accounts"@, comma_join(uuid_texts(validator_operations_request.accounts@))),
                    ("start_date"@, utc_text_of(validator_operations_request.start_date@.0, validator_operations_request.start_date@.1)),
                    ("end_date"@, utc_text_of(validator_operations_request.end_date@.0, validator_operations_request.end_date@.1)),
                ]);
        }
        self.endpoint.get_json(url)
    }

    /// Downloads `network-stats` as raw bytes.
    pub fn get_network_stats(&self) -> (r: Request)
        ensures
            r@ == get_json(self@, resource_url(self@.base_url, "network-stats"@)),
    {
        let url = self.endpoint.url("network-stats");
        self.endpoint.get_json(url)
    }

    /// Downloads `reports` as raw bytes.
    pub fn get_reports(&self, reports_request: &ReportsRequest) -> (r: Request)
        ensures
            r@ == get_bytes(self@, query_url(self@.base_url, "reports"@, seq![
                ("validators"@, comma_join(texts(reports_request.validators@))),
                ("delegators"@, comma_join(texts(reports_request.delegators@))),
                ("accounts"@, comma_join(uuid_texts(reports_request.accounts@))),
            ])),
    {
        let params = vec![
            QueryParam::new("validators", crate::text::join_values(&reports_request.validators)),
            QueryParam::new("delegators", crate::text::join_values(&reports_request.delegators)),
            QueryParam::new("accounts", crate::ids::join_uuids(&reports_request.accounts)),
        ];
        let url = self.endpoint.url_with_query("reports", &params);
        proof {
            assert(param_views(params@) =~= seq![
                    ("validators"@, comma_join(texts(reports_request.validators@))),
                    ("delegators"@, comma_join(texts(reports_request.delegators@))),
                    ("accounts"@, comma_join(uuid_texts(reports_request.accounts@))),
                ]);
        }
        self.endpoint.get_bytes(url)
    }

    /// Sends the JSON `body` to `transaction/stake`.
    pub fn post_stake_tx(&self, body: String) -> (r: Request)
        ensures
            r@ == send_json(self@, Method::Post, resource_url(self@.base_url, "transaction/stake"@), body@),
    {
        let url = self.endpoint.url("transaction/stake");
        self.endpoint.send_json(Method::Post, url, body)
    }

    /// Sends the JSON `body` to `transaction/withdraw-rewards`.
    pub fn post_withdraw_rewards_tx(&self, body: String) -> (r: Request)
        ensures
            r@ == send_json(self@, Method::Post, resource_url(self@.base_url, "transaction/withdraw-rewards"@), body@),
    {
        let url = self.endpoint.url("transaction/withdraw-rewards");
        self.endpoint.send_json(Method::Post, url, body)
    }

    /// Sends the JSON `body` to `transaction/restake-rewards`.
    pub fn post_restake_rewards_tx(&self, body: String) -> (r: Request)
        ensures
            r@ == send_json(self@, Method::Post, resource_url(self@.base_url, "transaction/restake-rewards"@), body@),
    {
        let url = self.endpoint.url("transaction/restake-rewards");
        self.endpoint.send_json(Method::Post, url, body)
    }

    /// Sends the JSON `body` to `transaction/unstake`.
    pub fn unstake_rewards_transaction(&self, body: String) -> (r: Request)
        ensures
            r@ == send_json(self@, Method::Post, resource_url(self@.base_url, "transaction/unstake"@), body@),
    {
        let url = self.endpoint.url("transaction/unstake");
        self.endpoint.send_json(Method::Post, url, body)
    }

    /// Sends the JSON `body` to `transaction/redelegate`.
    pub fn post_redelegate_tx(&self, body: String) -> (r: Request)
        ensures
            r@ == send_json(self@, Method::Post, resource_url(self@.base_url, "transaction/redelegate"@), body@),
    {
        let url = self.endpoint.url("transaction/redelegate");
        self.endpoint.send_json(Method::Post, url, body)
    }

    /// Sends the JSON `body` to `transaction/prepare`.
    pub fn post_prepare_tx(&self, body: String) -> (r: Request)
        ensures
            r@ == send_json(self@, Method::Post, resource_url(self@.base_url, "transaction/prepare"@), body@),
    {
        let url = self.endpoint.url("transaction/prepare");
        self.endpoint.send_json(Method::Post, url, body)
    }

    /// Sends the JSON `body` to `transaction/broadcast`.
    pub fn post_broadcast_tx(&self, body: String) -> (r: Request)
        ensures
            r@ == send_json(self@, Method::Post, resource_url(self@.base_url, "transaction/broadcast"@), body@),
    {
        let url = self.endpoint.url("transaction/broadcast");
        self.endpoint.send_json(Method::Post, url, body)
    }

    /// Reads `transaction/status`, with the filters as query parameters in the order the API documents.
    pub fn get_tx_status(&self, tx_hash: &str) -> (r: Request)
        ensures
            r@ == get_json(self@, query_url(self@.base_url, "transaction/status"@, seq![
                ("tx_hash"@, tx_hash@),
            ])),
    {
        let params = vec![
            QueryParam::new("tx_hash", String::from_str(tx_hash)),
        ];
        let url = self.endpoint.url_with_query("transaction/status", &params);
        proof {
            assert(param_views(params@) =~= seq![
                    ("tx_hash"@, tx_hash@),
                ]);
        }
        self.endpoint.get_json(url)
    }

    /// Reads `transaction/decode`, with the filters as query parameters in the order the API documents.
    pub fn get_tx_decoding(&self, tx_serialized: &str) -> (r: Request)
        ensures
            r@ == get_json(self@, query_url(self@.base_url, "transaction/decode"@, seq![
                ("tx_serialized"@, tx_serialized@),
            ])),
    {
        let params = vec![
            QueryParam::new("tx_serialized", String::from_str(tx_serialized)),
        ];
        let url = self.endpoint.url_with_query("transaction/decode", &params);
        proof {
            assert(param_views(params@) =~= seq![
                    ("tx_serialized"@, tx_serialized@),
                ]);
        }
        self.endpoint.get_json(url)
    }
}

} // verus!
