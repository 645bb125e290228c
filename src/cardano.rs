//! The client of the Cardano routes, under `/ada`, and the records they exchange.
use vstd::prelude::*;
use crate::Kiln;
use crate::ids::{uuid_texts, Uuid};
use crate::request::{chain_endpoint, get_bytes, get_json, query_url, resource_url, send_json, Endpoint, EndpointView, Method, Request};
use crate::text::{comma_join, decimal, param_views, texts, QueryParam};
use crate::timestamp::utc_text_of;
use crate::types::{reward_params, reward_query, ResponseFormat, RewardRequest, StakeOperationsRequest};

verus! {

#[derive(Debug)]
pub struct CardanoBroadcastTxResponse {
    pub tx_hash: String,
}

#[derive(Debug)]
pub struct CardanoCert {
    pub stake_delegation: String,
}

#[derive(Debug)]
pub struct CardanoPrepareTxRequest {
    pub unsigned_tx_serialized: String,
    pub signed_messages: Vec<SignedMessage>,
}

#[derive(Debug)]
pub struct CardanoPrepareTxResponse {
    pub signed_tx_serialized: String,
}

#[derive(Debug)]
pub struct CardanoReportsRequest {
    pub stake_addresses: Vec<String>,
    pub wallets: Vec<String>,
    pub accounts: Vec<String>,
    pub format: ResponseFormat,
}

#[derive(Debug)]
pub struct CardanoStakeCredentials {
    pub key: String,
}

#[derive(Debug)]
pub struct CardanoStakeDelegation {
    pub stake_credential: CardanoStakeCredentials,
    pub pool_keyhash: String,
}

#[derive(Debug)]
pub struct CardanoStakeTxResponse {
    pub unsigned_tx_hash: String,
    pub unsigned_tx_serialiazed: String,
    pub inputs: Vec<CardanoStakeTxInput>,
}

#[derive(Debug)]
pub struct CardanoStakeTxOutput {
    pub address: String,
    pub amount: CardanoTxAmount,
}

#[derive(Debug)]
pub struct CardanoStakeTxRequest {
    pub account_id: Uuid,
    pub wallet: String,
    pub pool_id: String,
}

#[derive(Debug)]
pub struct CardanoStakeTxInput {
    pub transaction_id: String,
    pub index: u64,
}

#[derive(Debug)]
pub struct SignedMessage {
    pub pubkey: String,
    pub signature: String,
}

#[derive(Debug)]
pub struct CardanoTxAmount {
    pub coin: String,
}

#[derive(Clone, Copy, Debug, PartialEq, Eq, Structural)]
pub enum CardanoTxStatus {
    Success,
    PendingConfirmation,
}

#[derive(Debug)]
pub struct CardanoTxStatusOutputAmount {
    pub unit: String,
    pub quantity: String,
}

#[derive(Debug)]
pub struct CardanoTxStatusReceipt {
    pub hash: String,
    pub block: String,
    pub block_height: u64,
    pub block_time: u64,
    pub slot: u64,
    pub index: u64,
    pub output_amount: Vec<CardanoTxStatusOutputAmount>,
    pub fees: String,
    pub deposit: String,
    pub size: u64,
    pub invalid_before: Option<String>,
    pub invalid_hereafter: Option<String>,
    pub utxo_count: u64,
    pub withdrawal_count: u64,
    pub mir_cert_count: u64,
    pub delegation_count: u64,
    pub stake_cert_count: u64,
    pub pool_update_count: u64,
    pub pool_retire_count: u64,
    pub asset_mint_or_burn_count: u64,
    pub redeemer_count: u64,
    pub valid_contract: bool,
}

#[derive(Debug)]
pub struct CardanoTxStatusResponse {
    pub status: CardanoTxStatus,
    pub receipt: CardanoTxStatusReceipt,
}

#[derive(Debug)]
pub struct CardanoWithdrawRewardsTxRequest {
    pub wallet: String,
    pub amount_lovelace: Option<String>,
}

/// The client of the operations under `/ada`.
#[derive(Debug)]
pub struct KilnCardanoClient {
    endpoint: Endpoint,
}

impl View for KilnCardanoClient {
    type V = EndpointView;

    closed spec fn view(&self) -> EndpointView {
        self.endpoint@
    }
}

impl KilnCardanoClient {
    pub fn new(kiln: &Kiln) -> (r: KilnCardanoClient)
        ensures
            r@ == chain_endpoint(kiln@, "ada"@),
    {
        KilnCardanoClient { endpoint: Endpoint::for_chain(kiln, "ada") }
    }

    /// The reward history, in the daily or the per-epoch form.
    pub fn get_rewards(&self, reward_request: RewardRequest) -> (r: Request)
        ensures
            r@ == get_json(self@, query_url(self@.base_url, "rewards"@, reward_query(reward_request))),
    {
        let params = reward_params(&reward_request);
        let url = self.endpoint.url_with_query("rewards", &params);
        self.endpoint.get_json(url)
    }

    /// Reads `stakes`, with the filters as query parameters in the order the API documents.
    pub fn get_stakes(
        &self,
        wallets: Vec<String>,
        vaults: Vec<String>,
        pool_ids: Vec<String>,
        accounts: Vec<Uuid>,
        current_page: Option<u64>,
        page_size: Option<u64>,
    ) -> (r: Request)
        ensures
            r@ == get_json(self@, query_url(self@.base_url, "stakes"@, seq![
                ("wallets"@, comma_join(texts(wallets@))),
                ("vaults"@, comma_join(texts(vaults@))),
                ("pool_ids"@, comma_join(texts(pool_ids@))),
                ("accounts"@, comma_join(uuid_texts(accounts@))),
                ("page_size"@, decimal((match page_size { Some(v) => v, None => 1u64 }) as nat)),
                ("current_page"@, decimal((match current_page { Some(v) => v, None => 1u64 }) as nat)),
            ])),
    {
        let params = vec![
            QueryParam::new("wallets", crate::text::join_values(&wallets)),
            QueryParam::new("vaults", crate::text::join_values(&vaults)),
            QueryParam::new("pool_ids", crate::text::join_values(&pool_ids)),
            QueryParam::new("accounts", crate::ids::join_uuids(&accounts)),
            QueryParam::new("page_size", crate::text::decimal_text(match page_size { Some(v) => v, None => 1 })),
            QueryParam::new("current_page", crate::text::decimal_text(match current_page { Some(v) => v, None => 1 })),
        ];
        let url = self.endpoint.url_with_query("stakes", &params);
        proof {
            assert(param_views(params@) =~= seq![
                    ("wallets"@, comma_join(texts(wallets@))),
                    ("vaults"@, comma_join(texts(vaults@))),
                    ("pool_ids"@, comma_join(texts(pool_ids@))),
                    ("accounts"@, comma_join(uuid_texts(accounts@))),
                    ("page_size"@, decimal((match page_size { Some(v) => v, None => 1u64 }) as nat)),
                    ("current_page"@, decimal((match current_page { Some(v) => v, None => 1u64 }) as nat)),
                ]);
        }
        self.endpoint.get_json(url)
    }

    /// Reads `network-stats`, with the filters as query parameters in the order the API documents.
    pub fn get_network_stats(&self, reports_request: &CardanoReportsRequest) -> (r: Request)
        ensures
            r@ == get_json(self@, query_url(self@.base_url, "network-stats"@, seq![
                ("stake_addresses"@, comma_join(texts(reports_request.stake_addresses@))),
                ("wallets"@, comma_join(texts(reports_request.wallets@))),
                ("accounts"@, comma_join(texts(reports_request.accounts@))),
                ("format"@, reports_request.format.wire_name()),
            ])),
    {
        let params = vec![
            QueryParam::new("stake_addresses", crate::text::join_values(&reports_request.stake_addresses)),
            QueryParam::new("wallets", crate::text::join_values(&reports_request.wallets)),
            QueryParam::new("accounts", crate::text::join_values(&reports_request.accounts)),
            QueryParam::new("format", String::from_str(reports_request.format.as_str())),
        ];
        let url = self.endpoint.url_with_query("network-stats", &params);
        proof {
            assert(param_views(params@) =~= seq![
                    ("stake_addresses"@, comma_join(texts(reports_request.stake_addresses@))),
                    ("wallets"@, comma_join(texts(reports_request.wallets@))),
                    ("accounts"@, comma_join(texts(reports_request.accounts@))),
                    ("format"@, reports_request.format.wire_name()),
                ]);
        }
        self.endpoint.get_json(url)
    }

    /// Reads `operations`, with the filters as query parameters in the order the API documents.
    pub fn get_operations(&self, operation_request: StakeOperationsRequest) -> (r: Request)
        ensures
            r@ == get_json(self@, query_url(self@.base_url, "operations"@, seq![
                ("stake_addresses"@, comma_join(texts(operation_request.stake_addresses@))),
                ("wallets"@, comma_join(texts(operation_request.wallets@))),
                ("pool_ids"@, comma_join(texts(operation_request.pool_ids@))),
                ("accounts"@, comma_join(uuid_texts(operation_request.accounts@))),
                ("start_date"@, utc_text_of(operation_request.start_date@.0, operation_request.start_date@.1)),
                ("end_date"@, utc_text_of(operation_request.end_date@.0, operation_request.end_date@.1)),
            ])),
    {
        let params = vec![
            QueryParam::new("stake_addresses", crate::text::join_values(&operation_request.stake_addresses)),
            QueryParam::new("wallets", crate::text::join_values(&operation_request.wallets)),
            QueryParam::new("pool_ids", crate::text::join_values(&operation_request.pool_ids)),
            QueryParam::new("accounts", crate::ids::join_uuids(&operation_request.accounts)),
            QueryParam::new("start_date", operation_request.start_date.text()),
            QueryParam::new("end_date", operation_request.end_date.text()),
        ];
        let url = self.endpoint.url_with_query("operations", &params);
        proof {
            assert(param_views(params@) =~= seq![
                    ("stake_addresses"@, comma_join(texts(operation_request.stake_addresses@))),
                    ("wallets"@, comma_join(texts(operation_request.wallets@))),
                    ("pool_ids"@, comma_join(texts(operation_request.pool_ids@))),
                    ("accounts"@, comma_join(uuid_texts(operation_request.accounts@))),
                    ("start_date"@, utc_text_of(operation_request.start_date@.0, operation_request.start_date@.1)),
                    ("end_date"@, utc_text_of(operation_request.end_date@.0, operation_request.end_date@.1)),
                ]);
        }
        self.endpoint.get_json(url)
    }

    /// Downloads `reports` as raw bytes.
    pub fn get_reports(&self, reports_request: CardanoReportsRequest) -> (r: Request)
        ensures
            r@ == get_bytes(self@, query_url(self@.base_url, "reports"@, seq![
                ("stake_addresses"@, comma_join(texts(reports_request.stake_addresses@))),
                ("wallets"@, comma_join(texts(reports_request.wallets@))),
                ("accounts"@, comma_join(texts(reports_request.accounts@))),
                ("format"@, reports_request.format.wire_name()),
            ])),
    {
        let params = vec![
            QueryParam::new("stake_addresses", crate::text::join_values(&reports_request.stake_addresses)),
            QueryParam::new("wallets", crate::text::join_values(&reports_request.wallets)),
            QueryParam::new("accounts", crate::text::join_values(&reports_request.accounts)),
            QueryParam::new("format", String::from_str(reports_request.format.as_str())),
        ];
        let url = self.endpoint.url_with_query("reports", &params);
        proof {
            assert(param_views(params@) =~= seq![
                    ("stake_addresses"@, comma_join(texts(reports_request.stake_addresses@))),
                    ("wallets"@, comma_join(texts(reports_request.wallets@))),
                    ("accounts"@, comma_join(texts(reports_request.accounts@))),
                    ("format"@, reports_request.format.wire_name()),
                ]);
        }
        self.endpoint.get_bytes(url)
    }

    /// Reads `transaction/decode`, with the filters as query parameters in the order the API documents.
    pub fn get_tx_decoding(&self, tx_serialized: &str) -> (r: Request)
        ensures
            r@ == get_json(self@, query_url(self@.base_url, "transaction/decode"@, seq![
                ("tx_serialized"@, tx_serialized@),
            ])),
    {
        let params = vec![
            QueryParam::new("tx_serialized", String::from_str(tx_serialized)),
        ];
        let url = self.endpoint.url_with_query("transaction/decode", &params);
        proof {
            assert(param_views(params@) =~= seq![
                    ("tx_serialized"@, tx_serialized@),
                ]);
        }
        self.endpoint.get_json(url)
    }

    /// Sends the JSON `body` to `stakes`.
    pub fn post_stakes(&self, body: String) -> (r: Request)
        ensures
            r@ == send_json(self@, Method::Post, resource_url(self@.base_url, "stakes"@), body@),
    {
        let url = self.endpoint.url("stakes");
        self.endpoint.send_json(Method::Post, url, body)
    }

    /// Sends the JSON `body` to `transaction/stake`.
    pub fn post_stake_tx(&self, body: String) -> (r: Request)
        ensures
            r@ == send_json(self@, Method::Post, resource_url(self@.base_url, "transaction/stake"@), body@),
    {
        let url = self.endpoint.url("transaction/stake");
        self.endpoint.send_json(Method::Post, url, body)
    }

    /// Sends the JSON `body` to `transaction/withdraw-rewards`.
    pub fn post_withdraw_rewards_tx(&self, body: String) -> (r: Request)
        ensures
            r@ == send_json(self@, Method::Post, resource_url(self@.base_url, "transaction/withdraw-rewards"@), body@),
    {
        let url = self.endpoint.url("transaction/withdraw-rewards");
        self.endpoint.send_json(Method::Post, url, body)
    }

    /// Sends the JSON `body` to `transaction/unstake`.
    pub fn post_unstake_tx(&self, body: String) -> (r: Request)
        ensures
            r@ == send_json(self@, Method::Post, resource_url(self@.base_url, "transaction/unstake"@), body@),
    {
        let url = self.endpoint.url("transaction/unstake");
        self.endpoint.send_json(Method::Post, url, body)
    }

    /// Sends the JSON `body` to `transaction/prepare`.
    pub fn post_prepare_tx(&self, body: String) -> (r: Request)
        ensures
            r@ == send_json(self@, Method::Post, resource_url(self@.base_url, "transaction/prepare"@), body@),
    {
        let url = self.endpoint.url("transaction/prepare");
        self.endpoint.send_json(Method::Post, url, body)
    }

    /// Sends the JSON `body` to `transaction/broadcast`.
    pub fn post_broadcast_tx(&self, body: String) -> (r: Request)
        ensures
            r@ == send_json(self@, Method::Post, resource_url(self@.base_url, "transaction/broadcast"@), body@),
    {
        let url = self.endpoint.url("transaction/broadcast");
        self.endpoint.send_json(Method::Post, url, body)
    }

    /// Reads `transaction/status`, with the filters as query parameters in the order the API documents.
    pub fn get_tx_status(&self, tx_hash: &str) -> (r: Request)
        ensures
            r@ == get_json(self@, query_url(self@.base_url, "transaction/status"@, seq![
                ("tx_hash"@, tx_hash@),
            ])),
    {
        let params = vec![
            QueryParam::new("tx_hash", String::from_str(tx_hash)),
        ];
        let url = self.endpoint.url_with_query("transaction/status", &params);
        proof {
            assert(param_views(params@) =~= seq![
                    ("tx_hash"@, tx_hash@),
                ]);
        }
        self.endpoint.get_json(url)
    }
}

impl CardanoTxStatus {
    /// The name of this value in a query.
    pub open spec fn wire_name(self) -> Seq<char> {
        match self {
            CardanoTxStatus::Success => "Success"@,
            CardanoTxStatus::PendingConfirmation => "PendingConfirmation"@,
        }
    }

    pub fn as_str(&self) -> (r: &'static str)
        ensures
            r@ == self.wire_name(),
    {
        match self {
            CardanoTxStatus::Success => "Success",
            CardanoTxStatus::PendingConfirmation => "PendingConfirmation",
        }
    }
}

} // verus!
