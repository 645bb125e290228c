//! The client of the Polkadot routes, under `/dot`, and the records they exchange.
use vstd::prelude::*;
use crate::Kiln;
use crate::ids::{uuid_texts, Uuid};
use crate::request::{chain_endpoint, get_bytes, get_json, query_url, resource_url, send_json, Endpoint, EndpointView, Method, Request};
use crate::text::{comma_join, param_views, texts, QueryParam};
use crate::timestamp::{utc_text_of, UtcDateTime};

verus! {

#[derive(Debug)]
pub struct PolkadotGetStakesRequest {
    pub addresses: Vec<String>,
    pub accounts: Vec<Uuid>,
}

#[derive(Clone, Copy, Debug, PartialEq, Eq, Structural)]
pub enum PolkadotResponseFormat {
    Daily,
    Era,
}

#[derive(Debug)]
pub struct PolkadotRewardRequest {
    pub addresses: Vec<String>,
    pub pool_ids: Vec<String>,
    pub accounts: Vec<Uuid>,
    pub start_date: UtcDateTime,
    pub end_date: UtcDateTime,
    pub format: PolkadotResponseFormat,
}

#[derive(Debug)]
pub struct PolkadotOperation {
    pub kind: String,
    pub block_number: u64,
    pub block_time: UtcDateTime,
    pub tx_hash: String,
    pub extrinsic_seq_id: u64,
    pub event_seq_id: u64,
    pub amount: String,
    pub address: String,
    pub validator: String,
    pub pool_id: String,
    pub earned_era: String,
    pub era: String,
}

#[derive(Debug)]
pub struct PolkadotOperationsRequest {
    pub addresses: Vec<String>,
    pub accounts: Vec<Uuid>,
    pub start_date: UtcDateTime,
    pub end_date: UtcDateTime,
}

#[derive(Debug)]
pub struct PolkadotReportsRequest {
    pub addresses: Vec<String>,
    pub accounts: Vec<Uuid>,
}

#[derive(Debug)]
pub struct Payee {
    pub account: String,
}

#[derive(Debug)]
pub struct PolkadotTxMethodArgs {
    pub value: String,
    pub payee: Payee,
}

#[derive(Debug)]
pub struct PolkadotTxMethod {
    pub args: PolkadotTxMethodArgs,
    pub name: String,
    pub pallet: String,
}

#[derive(Debug)]
pub struct PolkadotUnsignedTx {
    pub block_hash: String,
    pub era_period: u64,
    pub genesis_hash: String,
    pub metadata_rpc: String,
    pub method: PolkadotTxMethod,
    pub nonce: u64,
    pub spec_version: u64,
    pub tip: u64,
    pub transaction_version: u64,
}

#[derive(Debug)]
pub struct PolkadotTxResponse {
    pub unsigned_tx_payload: String,
    pub unsigned_tx_serialized: String,
    pub unsigned_tx: PolkadotUnsignedTx,
}

#[derive(Debug)]
pub struct PolkadotBondTxRequest {
    pub account_id: Uuid,
    pub stash_account: String,
    pub amount_planck: String,
    pub reward_destination: String,
}

#[derive(Debug)]
pub struct PolkadotBondExtraTxRequest {
    pub stash_account: String,
    pub amount_planck: String,
}

#[derive(Debug)]
pub struct PolkadotRebondTxRequest {
    pub stash_account: String,
    pub amount_planck: String,
}

#[derive(Debug)]
pub struct PolkadotUnbondTxRequest {
    pub stash_account: String,
    pub amount_planck: String,
}

#[derive(Debug)]
pub struct PolkadotNominateTxRequest {
    pub stash_account: String,
    pub validator_addresses: Vec<String>,
}

#[derive(Debug)]
pub struct PolkadotWithdrawUnbondedTxRequest {
    pub stash_account: String,
}

#[derive(Debug)]
pub struct PolkadotChillTxRequest {
    pub stash_account: String,
}

#[derive(Debug)]
pub struct PolkadotSetPayeeTxRequest {
    pub stash_account: String,
    pub reward_destination: String,
}

#[derive(Debug)]
pub struct PolkadotJoinPoolTxRequest {
    pub account_id: Uuid,
    pub member_account: String,
    pub amount_planck: String,
    pub pool_id: String,
}

#[derive(Debug)]
pub struct PolkadotBondExtraPoolTxRequest {
    pub member_account: String,
    pub amount_planck: String,
}

#[derive(Debug)]
pub struct PolkadotPoolTxRequest {
    pub member_account: String,
}

#[derive(Debug)]
pub struct PolkadotUnbondFromPoolTxRequest {
    pub member_account: String,
    pub amount_planck: String,
}

#[derive(Debug)]
pub struct PolkadotTxStatusResponseDataParam {
    pub name: String,
    pub kind: String,
    pub kind_name: String,
    pub value: String,
}

#[derive(Debug)]
pub struct PolkadotTxStatusResponseDataEvent {
    pub event_index: String,
    pub block_num: u64,
    pub extrinsic_idx: u64,
    pub module_id: String,
    pub event_id: String,
    pub params: String,
    pub phase: u64,
    pub event_idx: u64,
    pub extrinsic_hash: String,
    pub finalized: bool,
    pub block_timestamp: u64,
}

#[derive(Debug)]
pub struct PolkadotTxStatusResponseDataError {
    pub module: String,
    pub name: String,
    pub doc: String,
    pub value: String,
    pub batch_index: i64,
}

#[derive(Debug)]
pub struct PolkadotTxStatusResponseDataLifetime {
    pub birth: u64,
    pub death: u64,
}

#[derive(Debug)]
pub struct PolkadotTxStatusResponseDataAccountDisplay {
    pub address: String,
}

#[derive(Debug)]
pub struct PolkadotTxStatusResponseData {
    pub block_timestamp: u64,
    pub block_num: u64,
    pub extrinsic_index: String,
    pub call_module_function: String,
    pub call_module: String,
    pub account_id: String,
    pub signature: String,
    pub nonce: u64,
    pub extrinsic_hash: String,
    pub success: bool,
    pub params: Vec<PolkadotTxStatusResponseDataParam>,
    pub transfer: Option<String>,
    pub event: Vec<PolkadotTxStatusResponseDataEvent>,
    pub event_count: u64,
    pub fee: String,
    pub fee_used: String,
    pub error: PolkadotTxStatusResponseDataError,
    pub finalized: bool,
    pub lifetime: PolkadotTxStatusResponseDataLifetime,
    pub tip: u64,
    pub account_display: PolkadotTxStatusResponseDataAccountDisplay,
    pub block_hash: String,
    pub pending: bool,
}

#[derive(Debug)]
pub struct PolkadotTxStatusResponse {
    pub code: u64,
    pub message: String,
    pub generated_at: UtcDateTime,
    pub data: PolkadotTxStatusResponseData,
}

#[derive(Debug)]
pub struct PolkadotTxDecodingResponse {
    pub address: String,
    pub asset_id: u64,
    pub block_hash: String,
    pub block_number: u64,
    pub era: String,
    pub genesis_hash: String,
    pub metadata_rpc: String,
    pub method: String,
    pub nonce: String,
    pub signed_extensions: Vec<String>,
    pub spec_version: String,
    pub tip: String,
    pub transaction_version: String,
    pub version: u64,
}

#[derive(Debug)]
pub struct PolkadotPrepareTxRequest {
    pub unsigned_tx_serialized: String,
    pub signature: String,
}

/// The client of the operations under `/dot`.
#[derive(Debug)]
pub struct KilnPolkadotClient {
    endpoint: Endpoint,
}

impl View for KilnPolkadotClient {
    type V = EndpointView;

    closed spec fn view(&self) -> EndpointView {
        self.endpoint@
    }
}

impl KilnPolkadotClient {
    pub fn new(kiln: &Kiln) -> (r: KilnPolkadotClient)
        ensures
            r@ == chain_endpoint(kiln@, "dot"@),
    {
        KilnPolkadotClient { endpoint: Endpoint::for_chain(kiln, "dot") }
    }

    /// Reads `stakes`, with the filters as query parameters in the order the API documents.
    pub fn get_stakes(&self, stakes_request: &PolkadotGetStakesRequest) -> (r: Request)
        ensures
            r@ == get_json(self@, query_url(self@.base_url, "stakes"@, seq![
                ("addresses"@, comma_join(texts(stakes_request.addresses@))),
                ("accounts"@, comma_join(uuid_texts(stakes_request.accounts@))),
            ])),
    {
        let params = vec![
            QueryParam::new("addresses", crate::text::join_values(&stakes_request.addresses)),
            QueryParam::new("accounts", crate::ids::join_uuids(&stakes_request.accounts)),
        ];
        let url = self.endpoint.url_with_query("stakes", &params);
        proof {
            assert(param_views(params@) =~= seq![
                    ("addresses"@, comma_join(texts(stakes_request.addresses@))),
                    ("accounts"@, comma_join(uuid_texts(stakes_request.accounts@))),
                ]);
        }
        self.endpoint.get_json(url)
    }

    /// Reads `rewards`, with the filters as query parameters in the order the API documents.
    pub fn get_rewards(&self, reward_request: &PolkadotRewardRequest) -> (r: Request)
        ensures
            r@ == get_json(self@, query_url(self@.base_url, "rewards"@, seq![
                ("addresses"@, comma_join(texts(reward_request.addresses@))),
                ("accounts"@, comma_join(uuid_texts(reward_request.accounts@))),
                ("pool_ids"@, comma_join(texts(reward_request.pool_ids@))),
                ("format"@, reward_request.format.wire_name()),
                ("start_date"@, utc_text_of(reward_request.start_date@.0, reward_request.start_date@.1)),
                ("end_date"@, utc_text_of(reward_request.end_date@.0, reward_request.end_date@.1)),
            ])),
    {
        let params = vec![
            QueryParam::new("addresses", crate::text::join_values(&reward_request.addresses)),
            QueryParam::new("accounts", crate::ids::join_uuids(&reward_request.accounts)),
            QueryParam::new("pool_ids", crate::text::join_values(&reward_request.pool_ids)),
            QueryParam::new("format", String::from_str(reward_request.format.as_str())),
            QueryParam::new("start_date", reward_request.start_date.text()),
            QueryParam::new("end_date", reward_request.end_date.text()),
        ];
        let url = self.endpoint.url_with_query("rewards", &params);
        proof {
            assert(param_views(params@) =~= seq![
                    ("addresses"@, comma_join(texts(reward_request.addresses@))),
                    ("accounts"@, comma_join(uuid_texts(reward_request.accounts@))),
                    ("pool_ids"@, comma_join(texts(reward_request.pool_ids@))),
                    ("format"@, reward_request.format.wire_name()),
                    ("start_date"@, utc_text_of(reward_request.start_date@.0, reward_request.start_date@.1)),
                    ("end_date"@, utc_text_of(reward_request.end_date@.0, reward_request.end_date@.1)),
                ]);
        }
        self.endpoint.get_json(url)
    }

    /// Reads `operations`, with the filters as query parameters in the order the API documents.
    pub fn get_operations(&self, operations_request: &PolkadotOperationsRequest) -> (r: Request)
        ensures
            r@ == get_json(self@, query_url(self@.base_url, "operations"@, seq![
                ("addresses"@, comma_join(texts(operations_request.addresses@))),
                ("accounts"@, comma_join(uuid_texts(operations_request.accounts@))),
                ("start_date"@, utc_text_of(operations_request.start_date@.0, operations_request.start_date@.1)),
                ("end_date"@, utc_text_of(operations_request.end_date@.0, operations_request.end_date@.1)),
            ])),
    {
        let params = vec![
            QueryParam::new("addresses", crate::text::join_values(&operations_request.addresses)),
            QueryParam::new("accounts", crate::ids::join_uuids(&operations_request.accounts)),
            QueryParam::new("start_date", operations_request.start_date.text()),
            QueryParam::new("end_date", operations_request.end_date.text()),
        ];
        let url = self.endpoint.url_with_query("operations", &params);
        proof {
            assert(param_views(params@) =~= seq![
                    ("addresses"@, comma_join(texts(operations_request.addresses@))),
                    ("accounts"@, comma_join(uuid_texts(operations_request.accounts@))),
                    ("start_date"@, utc_text_of(operations_request.start_date@.0, operations_request.start_date@.1)),
                    ("end_date"@, utc_text_of(operations_request.end_date@.0, operations_request.end_date@.1)),
                ]);
        }
        self.endpoint.get_json(url)
    }

    /// Downloads `reports` as raw bytes.
    pub fn get_reports(&self, reports_request: &PolkadotReportsRequest) -> (r: Request)
        ensures
            r@ == get_bytes(self@, query_url(self@.base_url, "reports"@, seq![
                ("addresses"@, comma_join(texts(reports_request.addresses@))),
                ("accounts"@, comma_join(uuid_texts(reports_request.accounts@))),
            ])),
    {
        let params = vec![
            QueryParam::new("addresses", crate::text::join_values(&reports_request.addresses)),
            QueryParam::new("accounts", crate::ids::join_uuids(&reports_request.accounts)),
        ];
        let url = self.endpoint.url_with_query("reports", &params);
        proof {
            assert(param_views(params@) =~= seq![
                    ("addresses"@, comma_join(texts(reports_request.addresses@))),
                    ("accounts"@, comma_join(uuid_texts(reports_request.accounts@))),
                ]);
        }
        self.endpoint.get_bytes(url)
    }

    /// Sends the JSON `body` to `network-stats`.
    pub fn get_network_stats(&self) -> (r: Request)
        ensures
            r@ == get_json(self@, resource_url(self@.base_url, "network-stats"@)),
    {
        let url = self.endpoint.url("network-stats");
        self.endpoint.get_json(url)
    }

    /// Sends the JSON `body` to `transaction/bond`.
    pub fn post_bond_tx(&self, body: String) -> (r: Request)
        ensures
            r@ == send_json(self@, Method::Post, resource_url(self@.base_url, "transaction/bond"@), body@),
    {
        let url = self.endpoint.url("transaction/bond");
        self.endpoint.send_json(Method::Post, url, body)
    }

    /// Sends the JSON `body` to `transaction/bond-extra`.
    pub fn post_bond_extra_tx(&self, body: String) -> (r: Request)
        ensures
            r@ == send_json(self@, Method::Post, resource_url(self@.base_url, "transaction/bond-extra"@), body@),
    {
        let url = self.endpoint.url("transaction/bond-extra");
        self.endpoint.send_json(Method::Post, url, body)
    }

    /// Sends the JSON `body` to `transaction/rebond`.
    pub fn post_rebond_tx(&self, body: String) -> (r: Request)
        ensures
            r@ == send_json(self@, Method::Post, resource_url(self@.base_url, "transaction/rebond"@), body@),
    {
        let url = self.endpoint.url("transaction/rebond");
        self.endpoint.send_json(Method::Post, url, body)
    }

    /// Sends the JSON `body` to `transaction/unbond`.
    pub fn post_unbond_tx(&self, body: String) -> (r: Request)
        ensures
            r@ == send_json(self@, Method::Post, resource_url(self@.base_url, "transaction/unbond"@), body@),
    {
        let url = self.endpoint.url("transaction/unbond");
        self.endpoint.send_json(Method::Post, url, body)
    }

    /// Sends the JSON `body` to `transaction/nominate`.
    pub fn post_nominate_tx(&self, body: String) -> (r: Request)
        ensures
            r@ == send_json(self@, Method::Post, resource_url(self@.base_url, "transaction/nominate"@), body@),
    {
        let url = self.endpoint.url("transaction/nominate");
        self.endpoint.send_json(Method::Post, url, body)
    }

    /// Sends the JSON `body` to `transaction/withdraw-unbonded`.
    pub fn post_withdraw_unbonded_tx(&self, body: String) -> (r: Request)
        ensures
            r@ == send_json(self@, Method::Post, resource_url(self@.base_url, "transaction/withdraw-unbonded"@), body@),
    {
        let url = self.endpoint.url("transaction/withdraw-unbonded");
        self.endpoint.send_json(Method::Post, url, body)
    }

    /// Sends the JSON `body` to `transaction/chill`.
    pub fn post_chill_tx(&self, body: String) -> (r: Request)
        ensures
            r@ == send_json(self@, Method::Post, resource_url(self@.base_url, "transaction/chill"@), body@),
    {
        let url = self.endpoint.url("transaction/chill");
        self.endpoint.send_json(Method::Post, url, body)
    }

    /// Sends the JSON `body` to `transaction/set-payee`.
    pub fn post_set_payee_tx(&self, body: String) -> (r: Request)
        ensures
            r@ == send_json(self@, Method::Post, resource_url(self@.base_url, "transaction/set-payee"@), body@),
    {
        let url = self.endpoint.url("transaction/set-payee");
        self.endpoint.send_json(Method::Post, url, body)
    }

    /// Sends the JSON `body` to `transaction/join-pool`.
    pub fn post_join_pool_tx(&self, body: String) -> (r: Request)
        ensures
            r@ == send_json(self@, Method::Post, resource_url(self@.base_url, "transaction/join-pool"@), body@),
    {
        let url = self.endpoint.url("transaction/join-pool");
        self.endpoint.send_json(Method::Post, url, body)
    }

    /// Sends the JSON `body` to `transaction/bond-extra-pool`.
    pub fn post_bond_extra_pool_tx(&self, body: String) -> (r: Request)
        ensures
            r@ == send_json(self@, Method::Post, resource_url(self@.base_url, "transaction/bond-extra-pool"@), body@),
    {
        let url = self.endpoint.url("transaction/bond-extra-pool");
        self.endpoint.send_json(Method::Post, url, body)
    }

    /// Sends the JSON `body` to `transaction/bond-rewards-pool`.
    pub fn post_bond_rewards_to_pool_tx(&self, body: String) -> (r: Request)
        ensures
            r@ == send_json(self@, Method::Post, resource_url(self@.base_url, "transaction/bond-rewards-pool"@), body@),
    {
        let url = self.endpoint.url("transaction/bond-rewards-pool");
        self.endpoint.send_json(Method::Post, url, body)
    }

    /// Sends the JSON `body` to `transaction/claim-payout-pool`.
    pub fn post_claim_payout_from_pool_tx(&self, body: String) -> (r: Request)
        ensures
            r@ == send_json(self@, Method::Post, resource_url(self@.base_url, "transaction/claim-payout-pool"@), body@),
    {
        let url = self.endpoint.url("transaction/claim-payout-pool");
        self.endpoint.send_json(Method::Post, url, body)
    }

    /// Sends the JSON `body` to `transaction/unbond-pool`.
    pub fn post_unbond_from_pool_tx(&self, body: String) -> (r: Request)
        ensures
            r@ == send_json(self@, Method::Post, resource_url(self@.base_url, "transaction/unbond-pool"@), body@),
    {
        let url = self.endpoint.url("transaction/unbond-pool");
        self.endpoint.send_json(Method::Post, url, body)
    }

    /// Sends the JSON `body` to `transaction/withdraw-unbonded-pool`.
    pub fn post_withdraw_unbonded_from_pool_tx(&self, body: String) -> (r: Request)
        ensures
            r@ == send_json(self@, Method::Post, resource_url(self@.base_url, "transaction/withdraw-unbonded-pool"@), body@),
    {
        let url = self.endpoint.url("transaction/withdraw-unbonded-pool");
        self.endpoint.send_json(Method::Post, url, body)
    }

    /// Reads `transaction/status`, with the filters as query parameters in the order the API documents.
    pub fn get_tx_status(&self, tx_hash: &str) -> (r: Request)
        ensures
            r@ == get_json(self@, query_url(self@.base_url, "transaction/status"@, seq![
                ("tx_hash"@, tx_hash@),
            ])),
    {
        let params = vec![
            QueryParam::new("tx_hash", String::from_str(tx_hash)),
        ];
        let url = self.endpoint.url_with_query("transaction/status", &params);
        proof {
            assert(param_views(params@) =~= seq![
                    ("tx_hash"@, tx_hash@),
                ]);
        }
        self.endpoint.get_json(url)
    }

    /// Reads `transaction/decode`, with the filters as query parameters in the order the API documents.
    pub fn get_tx_decoding(&self, tx_serialized: &str) -> (r: Request)
        ensures
            r@ == get_json(self@, query_url(self@.base_url, "transaction/decode"@, seq![
                ("tx_serialized"@, tx_serialized@),
            ])),
    {
        let params = vec![
            QueryParam::new("tx_serialized", String::from_str(tx_serialized)),
        ];
        let url = self.endpoint.url_with_query("transaction/decode", &params);
        proof {
            assert(param_views(params@) =~= seq![
                    ("tx_serialized"@, tx_serialized@),
                ]);
        }
        self.endpoint.get_json(url)
    }

    /// Sends the JSON `body` to `transaction/prepare`.
    pub fn post_prepare_tx(&self, body: String) -> (r: Request)
        ensures
            r@ == send_json(self@, Method::Post, resource_url(self@.base_url, "transaction/prepare"@), body@),
    {
        let url = self.endpoint.url("transaction/prepare");
        self.endpoint.send_json(Method::Post, url, body)
    }

    /// Sends the JSON `body` to `transaction/broadcast`.
    pub fn post_broadcast_tx(&self, body: String) -> (r: Request)
        ensures
            r@ == send_json(self@, Method::Post, resource_url(self@.base_url, "transaction/broadcast"@), body@),
    {
        let url = self.endpoint.url("transaction/broadcast");
        self.endpoint.send_json(Method::Post, url, body)
    }
}

impl PolkadotResponseFormat {
    /// The name of this value in a query.
    pub open spec fn wire_name(self) -> Seq<char> {
        match self {
            PolkadotResponseFormat::Daily => "Daily"@,
            PolkadotResponseFormat::Era => "Era"@,
        }
    }

    pub fn as_str(&self) -> (r: &'static str)
        ensures
            r@ == self.wire_name(),
    {
        match self {
            PolkadotResponseFormat::Daily => "Daily",
            PolkadotResponseFormat::Era => "Era",
        }
    }
}

} // verus!
