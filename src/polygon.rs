//! The client of the Polygon routes, under `/pol`, and the records they exchange.
use vstd::prelude::*;
use crate::Kiln;
use crate::ids::{uuid_texts, Uuid};
use crate::request::{chain_endpoint, get_bytes, get_json, query_url, resource_url, send_json, Endpoint, EndpointView, Method, Request};
use crate::text::{comma_join, param_views, same_text, texts, QueryParam};
use crate::timestamp::{utc_text_of, UtcDateTime};
use crate::types::{reward_params, reward_query, ChainID, RewardRequest};

verus! {

#[derive(Debug)]
pub struct PolygonGetStakesRequest {
    pub wallets: Vec<String>,
    pub accounts: Vec<Uuid>,
    pub validators: Vec<String>,
}

#[derive(Debug)]
pub struct PolygonUnboundWithID {
    pub nonce: u64,
    pub balance: String,
    pub epoch: u64,
    pub is_complete: bool,
}

#[derive(Debug)]
pub struct PolygonOperationsRequest {
    pub wallets: Vec<String>,
    pub validator_indexes: Vec<String>,
    pub accounts: Vec<Uuid>,
    pub start_date: UtcDateTime,
    pub end_date: UtcDateTime,
}

#[derive(Debug)]
pub enum PolygonOperation {
    ShareMinted {
        kind: String,
        block: u64,
        time: UtcDateTime,
        tx_hash: String,
        tx_index: u64,
        tx_sender: String,
        tx_method_name: String,
        tx_gas_used: String,
        tx_effective_gas_price: String,
        tx_cumulative_gas_used: String,
        validator_id: u64,
        user: String,
        amount: String,
        tokens: String,
    },
    ShareBurned {
        kind: String,
        block: u64,
        time: UtcDateTime,
        tx_hash: String,
        tx_index: u64,
        tx_sender: String,
        tx_method_name: String,
        tx_gas_used: String,
        tx_effective_gas_price: String,
        tx_cumulative_gas_used: String,
        validator_id: u64,
        user: String,
        amount: String,
        tokens: String,
    },
    ShareBurnedWithID {
        kind: String,
        block: u64,
        time: UtcDateTime,
        tx_hash: String,
        tx_index: u64,
        tx_sender: String,
        tx_method_name: String,
        tx_gas_used: String,
        tx_effective_gas_price: String,
        tx_cumulative_gas_used: String,
        validator_id: u64,
        user: String,
        amount: String,
        tokens: String,
        nonce: String,
    },
    DelegatorRestaked {
        kind: String,
        block: u64,
        time: UtcDateTime,
        tx_hash: String,
        tx_index: u64,
        tx_sender: String,
        tx_method_name: String,
        tx_gas_used: String,
        tx_effective_gas_price: String,
        tx_cumulative_gas_used: String,
        validator_id: u64,
        user: String,
        total_staked: String,
    },
    DelegatorUnstaked {
        kind: String,
        block: u64,
        time: UtcDateTime,
        tx_hash: String,
        tx_index: u64,
        tx_sender: String,
        tx_method_name: String,
        tx_gas_used: String,
        tx_effective_gas_price: String,
        tx_cumulative_gas_used: String,
        validator_id: u64,
        user: String,
        amount: String,
    },
    DelegatorUnstakedWithID {
        kind: String,
        block: u64,
        time: UtcDateTime,
        tx_hash: String,
        tx_index: u64,
        tx_sender: String,
        tx_method_name: String,
        tx_gas_used: String,
        tx_effective_gas_price: String,
        tx_cumulative_gas_used: String,
        validator_id: u64,
        user: String,
        amount: String,
        nonce: String,
    },
    DelegatorClaimedRewards {
        kind: String,
        block: u64,
        time: UtcDateTime,
        tx_hash: String,
        tx_index: u64,
        tx_sender: String,
        tx_method_name: String,
        tx_gas_used: String,
        tx_effective_gas_price: String,
        tx_cumulative_gas_used: String,
        validator_id: u64,
        user: String,
        amount: String,
        rewards: String,
    },
    SharesTransfer {
        kind: String,
        block: u64,
        time: UtcDateTime,
        tx_hash: String,
        tx_index: u64,
        tx_sender: String,
        tx_method_name: String,
        tx_gas_used: String,
        tx_effective_gas_price: String,
        tx_cumulative_gas_used: String,
        validator_id: u64,
        from: String,
        to: String,
        value: String,
    },
}

#[derive(Debug)]
pub struct PolygonReportsRequest {
    pub validator_indexes: Vec<String>,
    pub wallets: Vec<String>,
    pub accounts: Vec<Uuid>,
}

#[derive(Debug)]
pub struct PolygonApproveTxRequest {
    pub wallet: String,
    pub contract: String,
    pub amount_wei: String,
}

#[derive(Debug)]
pub struct PolygonBuyVoucherTxRequest {
    pub account_id: Uuid,
    pub wallet: String,
    pub amount_wei: String,
    pub validator_share_proxy_address: String,
}

#[derive(Debug)]
pub struct PolygonSellVoucherTxRequest {
    pub wallet: String,
    pub amount_wei: String,
    pub validator_share_proxy_address: String,
}

#[derive(Debug)]
pub struct PolygonTxRequest {
    pub wallet: String,
    pub validator_share_proxy_address: String,
}

#[derive(Debug)]
pub struct PolygonPrepareTxRequest {
    pub unsigned_tx_serialized: String,
    pub r: String,
    pub s: String,
    pub v: String,
}

#[derive(Debug)]
pub struct PolygonTxResponse {
    pub unsigned_tx_hash: String,
    pub unsigned_tx_serialized: String,
    pub to: String,
    pub contract_call_data: String,
    pub amount_wei: String,
    pub nonce: u64,
    pub gas_limit: u64,
    pub max_priority_fee_per_gas_wei: String,
    pub max_fee_per_gas_wei: String,
    pub chain_id: ChainID,
}

#[derive(Debug)]
pub struct PolygonTxStatusReceiptLog {
    pub address: String,
    pub block_hash: String,
    pub block_number: u64,
    pub data: String,
    pub log_index: u64,
    pub removed: bool,
    pub topics: Vec<String>,
    pub transaction_hash: String,
    pub transaction_index: u64,
    pub id: String,
}

#[derive(Debug)]
pub struct PolygonTxStatusReceipt {
    pub block_hash: String,
    pub block_number: u64,
    pub contract_address: Option<String>,
    pub cumulative_gas_used: u64,
    pub effective_gas_price: u64,
    pub from: String,
    pub gas_used: u64,
    pub logs: Vec<PolygonTxStatusReceiptLog>,
    pub logs_bloom: String,
    pub status: bool,
    pub to: String,
    pub transaction_hash: String,
    pub transaction_index: u64,
    pub kind: String,
}

#[derive(Clone, Copy, Debug, PartialEq, Eq, Structural)]
pub enum PolygonTxStatus {
    Success,
    Error,
    PendingConfirmation,
}

#[derive(Debug)]
pub struct PolygonTxStatusResponse {
    pub status: PolygonTxStatus,
    pub receipt: PolygonTxStatusReceipt,
}

#[derive(Debug)]
pub struct PolygonTxDecodingResponse {
    pub r: String,
    pub s: String,
    pub v: String,
    pub y_parity: u64,
    pub chain_id: ChainID,
    pub kind: String,
    pub to: String,
    pub gas: String,
    pub data: String,
    pub nonce: u64,
    pub value: String,
    pub max_fee_per_gas: String,
    pub max_priority_fee_per_gas: String,
    pub function_name: String,
    pub args: Vec<Vec<String>>,
}

/// The client of the operations under `/pol`.
#[derive(Debug)]
pub struct KilnPolygonClient {
    endpoint: Endpoint,
}

impl View for KilnPolygonClient {
    type V = EndpointView;

    closed spec fn view(&self) -> EndpointView {
        self.endpoint@
    }
}

impl KilnPolygonClient {
    pub fn new(kiln: &Kiln) -> (r: KilnPolygonClient)
        ensures
            r@ == chain_endpoint(kiln@, "pol"@),
    {
        KilnPolygonClient { endpoint: Endpoint::for_chain(kiln, "pol") }
    }

    /// The reward history, in the daily or the per-epoch form.
    pub fn get_rewards(&self, reward_request: &RewardRequest) -> (r: Request)
        ensures
            r@ == get_json(self@, query_url(self@.base_url, "rewards"@, reward_query(*reward_request))),
    {
        let params = reward_params(reward_request);
        let url = self.endpoint.url_with_query("rewards", &params);
        self.endpoint.get_json(url)
    }

    /// Reads `stakes`, with the filters as query parameters in the order the API documents.
    pub fn get_stakes(&self, stakes_request: &PolygonGetStakesRequest) -> (r: Request)
        ensures
            r@ == get_json(self@, query_url(self@.base_url, "stakes"@, seq![
                ("validators"@, comma_join(texts(stakes_request.validators@))),
                ("wallets"@, comma_join(texts(stakes_request.wallets@))),
                ("accounts"@, comma_join(uuid_texts(stakes_request.accounts@))),
            ])),
    {
        let params = vec![
            QueryParam::new("validators", crate::text::join_values(&stakes_request.validators)),
            QueryParam::new("wallets", crate::text::join_values(&stakes_request.wallets)),
            QueryParam::new("accounts", crate::ids::join_uuids(&stakes_request.accounts)),
        ];
        let url = self.endpoint.url_with_query("stakes", &params);
        proof {
            assert(param_views(params@) =~= seq![
                    ("validators"@, comma_join(texts(stakes_request.validators@))),
                    ("wallets"@, comma_join(texts(stakes_request.wallets@))),
                    ("accounts"@, comma_join(uuid_texts(stakes_request.accounts@))),
                ]);
        }
        self.endpoint.get_json(url)
    }

    /// Sends the JSON `body` to `stakes`.
    pub fn post_stakes(&self, body: String) -> (r: Request)
        ensures
            r@ == send_json(self@, Method::Post, resource_url(self@.base_url, "stakes"@), body@),
    {
        let url = self.endpoint.url("stakes");
        self.endpoint.send_json(Method::Post, url, body)
    }

    /// Reads `operations`, with the filters as query parameters in the order the API documents.
    pub fn get_operations(&self, operations_request: &PolygonOperationsRequest) -> (r: Request)
        ensures
            r@ == get_json(self@, query_url(self@.base_url, "operations"@, seq![
                ("wallets"@, comma_join(texts(operations_request.wallets@))),
                ("validator_indexes"@, comma_join(texts(operations_request.validator_indexes@))),
                ("accounts"@, comma_join(uuid_texts(operations_request.accounts@))),
                ("start_date"@, utc_text_of(operations_request.start_date@.0, operations_request.start_date@.1)),
                ("end_date"@, utc_text_of(operations_request.end_date@.0, operations_request.end_date@.1)),
            ])),
    {
        let params = vec![
            QueryParam::new("wallets", crate::text::join_values(&operations_request.wallets)),
            QueryParam::new("validator_indexes", crate::text::join_values(&operations_request.validator_indexes)),
            QueryParam::new("accounts", crate::ids::join_uuids(&operations_request.accounts)),
            QueryParam::new("start_date", operations_request.start_date.text()),
            QueryParam::new("end_date", operations_request.end_date.text()),
        ];
        let url = self.endpoint.url_with_query("operations", &params);
        proof {
            assert(param_views(params@) =~= seq![
                    ("wallets"@, comma_join(texts(operations_request.wallets@))),
                    ("validator_indexes"@, comma_join(texts(operations_request.validator_indexes@))),
                    ("accounts"@, comma_join(uuid_texts(operations_request.accounts@))),
                    ("start_date"@, utc_text_of(operations_request.start_date@.0, operations_request.start_date@.1)),
                    ("end_date"@, utc_text_of(operations_request.end_date@.0, operations_request.end_date@.1)),
                ]);
        }
        self.endpoint.get_json(url)
    }

    /// Downloads `network-stats` as raw bytes.
    pub fn get_network_stats(&self) -> (r: Request)
        ensures
            r@ == get_json(self@, resource_url(self@.base_url, "network-stats"@)),
    {
        let url = self.endpoint.url("network-stats");
        self.endpoint.get_json(url)
    }

    /// Downloads `reports` as raw bytes.
    pub fn get_reports(&self, reports_request: &PolygonReportsRequest) -> (r: Request)
        ensures
            r@ == get_bytes(self@, query_url(self@.base_url, "reports"@, seq![
                ("validator_indexes"@, comma_join(texts(reports_request.validator_indexes@))),
                ("wallets"@, comma_join(texts(reports_request.wallets@))),
                ("accounts"@, comma_join(uuid_texts(reports_request.accounts@))),
            ])),
    {
        let params = vec![
            QueryParam::new("validator_indexes", crate::text::join_values(&reports_request.validator_indexes)),
            QueryParam::new("wallets", crate::text::join_values(&reports_request.wallets)),
            QueryParam::new("accounts", crate::ids::join_uuids(&reports_request.accounts)),
        ];
        let url = self.endpoint.url_with_query("reports", &params);
        proof {
            assert(param_views(params@) =~= seq![
                    ("validator_indexes"@, comma_join(texts(reports_request.validator_indexes@))),
                    ("wallets"@, comma_join(texts(reports_request.wallets@))),
                    ("accounts"@, comma_join(uuid_texts(reports_request.accounts@))),
                ]);
        }
        self.endpoint.get_bytes(url)
    }

    /// Sends the JSON `body` to `transaction/approve`.
    pub fn post_approve_tx(&self, body: String) -> (r: Request)
        ensures
            r@ == send_json(self@, Method::Post, resource_url(self@.base_url, "transaction/approve"@), body@),
    {
        let url = self.endpoint.url("transaction/approve");
        self.endpoint.send_json(Method::Post, url, body)
    }

    /// Sends the JSON `body` to `transaction/buy-voucher`.
    pub fn post_buy_voucher_tx(&self, body: String) -> (r: Request)
        ensures
            r@ == send_json(self@, Method::Post, resource_url(self@.base_url, "transaction/buy-voucher"@), body@),
    {
        let url = self.endpoint.url("transaction/buy-voucher");
        self.endpoint.send_json(Method::Post, url, body)
    }

    /// Sends the JSON `body` to `transaction/sell-voucher`.
    pub fn post_sell_voucher_tx(&self, body: String) -> (r: Request)
        ensures
            r@ == send_json(self@, Method::Post, resource_url(self@.base_url, "transaction/sell-voucher"@), body@),
    {
        let url = self.endpoint.url("transaction/sell-voucher");
        self.endpoint.send_json(Method::Post, url, body)
    }

    /// Sends the JSON `body` to `transaction/unstake-claim_tokens`.
    pub fn post_unstake_claim_tokens_tx(&self, body: String) -> (r: Request)
        ensures
            r@ == send_json(self@, Method::Post, resource_url(self@.base_url, "transaction/unstake-claim_tokens"@), body@),
    {
        let url = self.endpoint.url("transaction/unstake-claim_tokens");
        self.endpoint.send_json(Method::Post, url, body)
    }

    /// Sends the JSON `body` to `transaction/withdraw-rewards`.
    pub fn post_withdraw_rewards_tx(&self, body: String) -> (r: Request)
        ensures
            r@ == send_json(self@, Method::Post, resource_url(self@.base_url, "transaction/withdraw-rewards"@), body@),
    {
        let url = self.endpoint.url("transaction/withdraw-rewards");
        self.endpoint.send_json(Method::Post, url, body)
    }

    /// Sends the JSON `body` to `transaction/restake-rewards`.
    pub fn post_restake_rewards_tx(&self, body: String) -> (r: Request)
        ensures
            r@ == send_json(self@, Method::Post, resource_url(self@.base_url, "transaction/restake-rewards"@), body@),
    {
        let url = self.endpoint.url("transaction/restake-rewards");
        self.endpoint.send_json(Method::Post, url, body)
    }

    /// Sends the JSON `body` to `transaction/prepare`.
    pub fn post_prepare_tx(&self, body: String) -> (r: Request)
        ensures
            r@ == send_json(self@, Method::Post, resource_url(self@.base_url, "transaction/prepare"@), body@),
    {
        let url = self.endpoint.url("transaction/prepare");
        self.endpoint.send_json(Method::Post, url, body)
    }

    /// Sends the JSON `body` to `transaction/broadcast`.
    pub fn post_broadcast_tx(&self, body: String) -> (r: Request)
        ensures
            r@ == send_json(self@, Method::Post, resource_url(self@.base_url, "transaction/broadcast"@), body@),
    {
        let url = self.endpoint.url("transaction/broadcast");
        self.endpoint.send_json(Method::Post, url, body)
    }

    /// Reads `transaction/status`, with the filters as query parameters in the order the API documents.
    pub fn transaction_status(&self, tx_hash: &str) -> (r: Request)
        ensures
            r@ == get_json(self@, query_url(self@.base_url, "transaction/status"@, seq![
                ("tx_hash"@, tx_hash@),
            ])),
    {
        let params = vec![
            QueryParam::new("tx_hash", String::from_str(tx_hash)),
        ];
        let url = self.endpoint.url_with_query("transaction/status", &params);
        proof {
            assert(param_views(params@) =~= seq![
                    ("tx_hash"@, tx_hash@),
                ]);
        }
        self.endpoint.get_json(url)
    }

    /// Reads `transaction/decode`, with the filters as query parameters in the order the API documents.
    pub fn get_tx_decoding(&self, tx_serialized: &str) -> (r: Request)
        ensures
            r@ == get_json(self@, query_url(self@.base_url, "transaction/decode"@, seq![
                ("tx_serialized"@, tx_serialized@),
            ])),
    {
        let params = vec![
            QueryParam::new("tx_serialized", String::from_str(tx_serialized)),
        ];
        let url = self.endpoint.url_with_query("transaction/decode", &params);
        proof {
            assert(param_views(params@) =~= seq![
                    ("tx_serialized"@, tx_serialized@),
                ]);
        }
        self.endpoint.get_json(url)
    }
}

impl PolygonTxStatus {
    /// The name of this value in a query.
    pub open spec fn wire_name(self) -> Seq<char> {
        match self {
            PolygonTxStatus::Success => "success"@,
            PolygonTxStatus::Error => "error"@,
            PolygonTxStatus::PendingConfirmation => "pending_confirmation"@,
        }
    }

    pub fn as_str(&self) -> (r: &'static str)
        ensures
            r@ == self.wire_name(),
    {
        match self {
            PolygonTxStatus::Success => "success",
            PolygonTxStatus::Error => "error",
            PolygonTxStatus::PendingConfirmation => "pending_confirmation",
        }
    }

    /// The value that the text `s` names, if any; each value may have several names.
    pub open spec fn parse_spec(s: Seq<char>) -> Option<PolygonTxStatus> {
        if s == "success"@ {
            Some(PolygonTxStatus::Success)
        } else if s == "error"@ {
            Some(PolygonTxStatus::Error)
        } else if s == "pending_confirmation"@ {
            Some(PolygonTxStatus::PendingConfirmation)
        } else {
            None
        }
    }

    pub fn from_wire(s: &str) -> (r: Option<PolygonTxStatus>)
        ensures
            r == PolygonTxStatus::parse_spec(s@),
    {
        if same_text(s, "success") {
            Some(PolygonTxStatus::Success)
        } else if same_text(s, "error") {
            Some(PolygonTxStatus::Error)
        } else if same_text(s, "pending_confirmation") {
            Some(PolygonTxStatus::PendingConfirmation)
        } else {
            None
        }
    }
}

} // verus!
