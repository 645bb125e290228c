//! The client of the NEAR routes, under `/near`, and the records they exchange.
use vstd::prelude::*;
use crate::Kiln;
use crate::ids::{uuid_texts, Uuid};
use crate::request::{chain_endpoint, get_bytes, get_json, query_url, resource_url, send_json, Endpoint, EndpointView, Method, Request};
use crate::text::{comma_join, param_views, texts, QueryParam};
use crate::timestamp::{utc_text_of, UtcDateTime};
use crate::types::{reward_params, reward_query, ResponseFormat, RewardRequest};

verus! {

#[derive(Debug)]
pub struct NearGetStakesRequest {
    pub stake_accounts: Vec<Uuid>,
    pub validators: Vec<String>,
    pub wallets: Vec<String>,
    pub accounts: Vec<Uuid>,
}

#[derive(Debug)]
pub struct NearOperationsRequest {
    pub stake_accounts: Vec<Uuid>,
    pub wallets: Vec<String>,
    pub accounts: Vec<Uuid>,
    pub start_date: UtcDateTime,
    pub end_date: UtcDateTime,
}

#[derive(Debug)]
pub struct NearOperationsResponse {
    pub receipt_id: String,
    pub kind: String,
    pub time: UtcDateTime,
    pub block: u64,
    pub tx_hash: String,
    pub tx_fees: String,
    pub validator: String,
    pub account: String,
    pub amount: String,
}

#[derive(Debug)]
pub struct NearReportsRequest {
    pub stake_accounts: Vec<Uuid>,
    pub accounts: Vec<Uuid>,
    pub wallets: Vec<String>,
    pub format: ResponseFormat,
}

#[derive(Debug)]
pub struct NearEd25519Key {
    pub key_type: u64,
    pub data: Vec<u8>,
}

#[derive(Debug)]
pub struct NearPublicKey {
    pub ed_25519_key: NearEd25519Key,
}

#[derive(Debug)]
pub struct NearTx {
    pub signer_id: String,
    pub public_key: NearPublicKey,
    pub variant: String,
}

#[derive(Debug)]
pub struct NearFunctionCallArgs {
    pub kind: String,
    pub data: Vec<u8>,
}

#[derive(Debug)]
pub struct NearFunctionCall {
    pub method_name: String,
    pub args: NearFunctionCallArgs,
    pub gas: String,
    pub deposit: String,
}

#[derive(Debug)]
pub struct NearAction {
    pub function_call: NearFunctionCall,
    pub variant: String,
}

#[derive(Debug)]
pub struct NearTxResponse {
    pub unsigned_tx_serialized: String,
    pub unsigned_tx_hash: String,
    pub tx: NearTx,
    pub nonce: String,
    pub receiver_id: String,
    pub actions: Vec<NearAction>,
    pub block_hash: Vec<u8>,
}

#[derive(Debug)]
pub struct NearStakeTxRequest {
    pub account_id: Uuid,
    pub wallet: String,
    pub pool_id: String,
    pub amount_yocto: String,
}

#[derive(Debug)]
pub struct NearUnstakeTxRequest {
    pub wallet: String,
    pub pool_id: String,
    pub amount_yocto: Option<String>,
}

#[derive(Debug)]
pub struct NearWithdrawRewardsTxRequest {
    pub wallet: String,
    pub pool_id: String,
    pub amount_yocto: Option<String>,
}

#[derive(Debug)]
pub struct NearPrepareTxRequest {
    pub unsigned_tx_serialized: String,
    pub signature: String,
}

#[derive(Debug)]
pub struct NearTxDecodingPublicKey {
    pub key_type: u64,
    pub data: Vec<u8>,
}

#[derive(Debug)]
pub struct NearTxDecodingResponse {
    pub public_key: NearTxDecodingPublicKey,
    pub signer_id: String,
    pub nonce: String,
    pub receiver_id: String,
    pub actions: Vec<NearAction>,
    pub block_hash: Vec<u8>,
}

#[derive(Debug)]
pub struct NearBroadcastTxRequest {
    pub signed_tx_serialized: String,
}

/// The client of the operations under `/near`.
#[derive(Debug)]
pub struct KilnNearClient {
    endpoint: Endpoint,
}

impl View for KilnNearClient {
    type V = EndpointView;

    closed spec fn view(&self) -> EndpointView {
        self.endpoint@
    }
}

impl KilnNearClient {
    pub fn new(kiln: &Kiln) -> (r: KilnNearClient)
        ensures
            r@ == chain_endpoint(kiln@, "near"@),
    {
        KilnNearClient { endpoint: Endpoint::for_chain(kiln, "near") }
    }

    /// The reward history, in the daily or the per-epoch form.
    pub fn get_rewards(&self, reward_request: RewardRequest) -> (r: Request)
        ensures
            r@ == get_json(self@, query_url(self@.base_url, "rewards"@, reward_query(reward_request))),
    {
        let params = reward_params(&reward_request);
        let url = self.endpoint.url_with_query("rewards", &params);
        self.endpoint.get_json(url)
    }

    /// Reads `stakes`, with the filters as query parameters in the order the API documents.
    pub fn get_stakes(&self, stakes_request: &NearGetStakesRequest) -> (r: Request)
        ensures
            r@ == get_json(self@, query_url(self@.base_url, "stakes"@, seq![
                ("validators"@, comma_join(texts(stakes_request.validators@))),
                ("stake_accounts"@, comma_join(uuid_texts(stakes_request.stake_accounts@))),
                ("accounts"@, comma_join(uuid_texts(stakes_request.accounts@))),
                ("wallets"@, comma_join(texts(stakes_request.wallets@))),
            ])),
    {
        let params = vec![
            QueryParam::new("validators", crate::text::join_values(&stakes_request.validators)),
            QueryParam::new("stake_accounts", crate::ids::join_uuids(&stakes_request.stake_accounts)),
            QueryParam::new("accounts", crate::ids::join_uuids(&stakes_request.accounts)),
            QueryParam::new("wallets", crate::text::join_values(&stakes_request.wallets)),
        ];
        let url = self.endpoint.url_with_query("stakes", &params);
        proof {
            assert(param_views(params@) =~= seq![
                    ("validators"@, comma_join(texts(stakes_request.validators@))),
                    ("stake_accounts"@, comma_join(uuid_texts(stakes_request.stake_accounts@))),
                    ("accounts"@, comma_join(uuid_texts(stakes_request.accounts@))),
                    ("wallets"@, comma_join(texts(stakes_request.wallets@))),
                ]);
        }
        self.endpoint.get_json(url)
    }

    /// Sends the JSON `body` to `stakes`.
    pub fn post_stakes(&self, body: String) -> (r: Request)
        ensures
            r@ == send_json(self@, Method::Post, resource_url(self@.base_url, "stakes"@), body@),
    {
        let url = self.endpoint.url("stakes");
        self.endpoint.send_json(Method::Post, url, body)
    }

    /// Reads `operations`, with the filters as query parameters in the order the API documents.
    pub fn get_operations(&self, operations_request: &NearOperationsRequest) -> (r: Request)
        ensures
            r@ == get_json(self@, query_url(self@.base_url, "operations"@, seq![
                ("stake_accounts"@, comma_join(uuid_texts(operations_request.stake_accounts@))),
                ("accounts"@, comma_join(uuid_texts(operations_request.accounts@))),
                ("wallets"@, comma_join(texts(operations_request.wallets@))),
                ("start_date"@, utc_text_of(operations_request.start_date@.0, operations_request.start_date@.1)),
                ("end_date"@, utc_text_of(operations_request.end_date@.0, operations_request.end_date@.1)),
            ])),
    {
        let params = vec![
            QueryParam::new("stake_accounts", crate::ids::join_uuids(&operations_request.stake_accounts)),
            QueryParam::new("accounts", crate::ids::join_uuids(&operations_request.accounts)),
            QueryParam::new("wallets", crate::text::join_values(&operations_request.wallets)),
            QueryParam::new("start_date", operations_request.start_date.text()),
            QueryParam::new("end_date", operations_request.end_date.text()),
        ];
        let url = self.endpoint.url_with_query("operations", &params);
        proof {
            assert(param_views(params@) =~= seq![
                    ("stake_accounts"@, comma_join(uuid_texts(operations_request.stake_accounts@))),
                    ("accounts"@, comma_join(uuid_texts(operations_request.accounts@))),
                    ("wallets"@, comma_join(texts(operations_request.wallets@))),
                    ("start_date"@, utc_text_of(operations_request.start_date@.0, operations_request.start_date@.1)),
                    ("end_date"@, utc_text_of(operations_request.end_date@.0, operations_request.end_date@.1)),
                ]);
        }
        self.endpoint.get_json(url)
    }

    /// Downloads `reports` as raw bytes.
    pub fn get_reports(&self, reports_request: &NearReportsRequest) -> (r: Request)
        ensures
            r@ == get_bytes(self@, query_url(self@.base_url, "reports"@, seq![
                ("stake_accounts"@, comma_join(uuid_texts(reports_request.stake_accounts@))),
                ("accounts"@, comma_join(uuid_texts(reports_request.accounts@))),
                ("wallets"@, comma_join(texts(reports_request.wallets@))),
                ("format"@, reports_request.format.wire_name()),
            ])),
    {
        let params = vec![
            QueryParam::new("stake_accounts", crate::ids::join_uuids(&reports_request.stake_accounts)),
            QueryParam::new("accounts", crate::ids::join_uuids(&reports_request.accounts)),
            QueryParam::new("wallets", crate::text::join_values(&reports_request.wallets)),
            QueryParam::new("format", String::from_str(reports_request.format.as_str())),
        ];
        let url = self.endpoint.url_with_query("reports", &params);
        proof {
            assert(param_views(params@) =~= seq![
                    ("stake_accounts"@, comma_join(uuid_texts(reports_request.stake_accounts@))),
                    ("accounts"@, comma_join(uuid_texts(reports_request.accounts@))),
                    ("wallets"@, comma_join(texts(reports_request.wallets@))),
                    ("format"@, reports_request.format.wire_name()),
                ]);
        }
        self.endpoint.get_bytes(url)
    }

    /// Sends the JSON `body` to `network-stats`.
    pub fn get_network_stats(&self) -> (r: Request)
        ensures
            r@ == get_json(self@, resource_url(self@.base_url, "network-stats"@)),
    {
        let url = self.endpoint.url("network-stats");
        self.endpoint.get_json(url)
    }

    /// Sends the JSON `body` to `transaction/stake`.
    pub fn post_stake_tx(&self, body: String) -> (r: Request)
        ensures
            r@ == send_json(self@, Method::Post, resource_url(self@.base_url, "transaction/stake"@), body@),
    {
        let url = self.endpoint.url("transaction/stake");
        self.endpoint.send_json(Method::Post, url, body)
    }

    /// Sends the JSON `body` to `transaction/unstake`.
    pub fn post_unstake_tx(&self, body: String) -> (r: Request)
        ensures
            r@ == send_json(self@, Method::Post, resource_url(self@.base_url, "transaction/unstake"@), body@),
    {
        let url = self.endpoint.url("transaction/unstake");
        self.endpoint.send_json(Method::Post, url, body)
    }

    /// Sends the JSON `body` to `transaction/withdraw-rewards`.
    pub fn post_withdraw_rewards_tx(&self, body: String) -> (r: Request)
        ensures
            r@ == send_json(self@, Method::Post, resource_url(self@.base_url, "transaction/withdraw-rewards"@), body@),
    {
        let url = self.endpoint.url("transaction/withdraw-rewards");
        self.endpoint.send_json(Method::Post, url, body)
    }

    /// Sends the JSON `body` to `transaction/prepare`.
    pub fn post_prepare_tx(&self, body: String) -> (r: Request)
        ensures
            r@ == send_json(self@, Method::Post, resource_url(self@.base_url, "transaction/prepare"@), body@),
    {
        let url = self.endpoint.url("transaction/prepare");
        self.endpoint.send_json(Method::Post, url, body)
    }

    /// Sends the JSON `body` to `transaction/broadcast`.
    pub fn post_broadcast_tx(&self, body: String) -> (r: Request)
        ensures
            r@ == send_json(self@, Method::Post, resource_url(self@.base_url, "transaction/broadcast"@), body@),
    {
        let url = self.endpoint.url("transaction/broadcast");
        self.endpoint.send_json(Method::Post, url, body)
    }

    /// Reads `transaction/decode`, with the filters as query parameters in the order the API documents.
    pub fn get_tx_decoding(&self, tx_serialized: &str) -> (r: Request)
        ensures
            r@ == get_json(self@, query_url(self@.base_url, "transaction/decode"@, seq![
                ("tx_serialized"@, tx_serialized@),
            ])),
    {
        let params = vec![
            QueryParam::new("tx_serialized", String::from_str(tx_serialized)),
        ];
        let url = self.endpoint.url_with_query("transaction/decode", &params);
        proof {
            assert(param_views(params@) =~= seq![
                    ("tx_serialized"@, tx_serialized@),
                ]);
        }
        self.endpoint.get_json(url)
    }
}

} // verus!
