//! The client of the Tezos routes, under `/xtz`, and the records they exchange.
use vstd::prelude::*;
use crate::Kiln;
use crate::ethereum::Stake;
use crate::ids::{uuid_texts, Uuid};
use crate::request::{chain_endpoint, get_bytes, get_json, query_url, resource_url, send_json, Endpoint, EndpointView, Method, Request};
use crate::text::{comma_join, decimal, param_views, same_text, texts, QueryParam};
use crate::timestamp::{utc_text_of, UtcDateTime};
use crate::types::{reward_params, reward_query, RewardRequest};

verus! {

#[derive(Debug)]
pub struct TezosGetStakesRequest {
    pub wallets: Vec<String>,
    pub accounts: Vec<Uuid>,
    pub validators: Vec<String>,
}

#[derive(Debug)]
pub struct TezosOperationsRequest {
    pub wallets: Vec<String>,
    pub accounts: Vec<Uuid>,
    pub validators: Vec<String>,
    pub start_date: UtcDateTime,
    pub end_date: UtcDateTime,
}

#[derive(Debug)]
pub enum TezosOperation {
    Delegate {
        kind: String,
        date: UtcDateTime,
        staker_address: String,
        baker_address: String,
        operation: String,
        operation_gas_used: String,
        baker_fee: String,
        block: u64,
        amount: String,
    },
    Undelegate {
        kind: String,
        date: UtcDateTime,
        staker_address: String,
        baker_address: String,
        operation: String,
        operation_gas_used: String,
        baker_fee: String,
        block: u64,
    },
    Activation {
        kind: String,
        date: UtcDateTime,
        staker_address: String,
        baker_address: String,
        cycle: u64,
    },
    Payment {
        kind: String,
        date: UtcDateTime,
        staker_address: String,
        baker_address: String,
        sender_address: String,
        operation: String,
        operation_gas_used: String,
        baker_fee: String,
        block: u64,
        amount: String,
    },
    Stake {
        kind: String,
        date: UtcDateTime,
        staker_address: String,
        baker_address: String,
        operation: String,
        operation_gas_used: String,
        baker_fee: String,
        block: u64,
        amount: String,
    },
    Unstake {
        kind: String,
        date: UtcDateTime,
        staker_address: String,
        baker_address: String,
        operation: String,
        operation_gas_used: String,
        baker_fee: String,
        block: u64,
        amount: String,
    },
    Finalize {
        kind: String,
        date: UtcDateTime,
        staker_address: String,
        baker_address: String,
        operation: String,
        operation_gas_used: String,
        baker_fee: String,
        block: u64,
        amount: String,
    },
}

#[derive(Debug)]
pub struct TezosReportsRequest {
    pub wallets: Vec<String>,
    pub accounts: Vec<Uuid>,
}

#[derive(Debug)]
pub struct TezosDelegateTxRequest {
    pub account_id: Uuid,
    pub wallet: String,
    pub baker_address: String,
}

#[derive(Debug)]
pub struct TxParametersValue {
    pub string: String,
}

#[derive(Debug)]
pub struct TxContentParamaters {
    pub entrypoint: String,
    pub value: TxParametersValue,
}

#[derive(Debug)]
pub struct TezosBalanceUpdate {
    pub kind: String,
    pub contract: String,
    pub change: String,
    pub origin: String,
}

#[derive(Debug)]
pub enum TezosTxArg {
    Int {
        prim: String,
        int_value: String,
    },
    String {
        prim: String,
        string: String,
    },
    Bytes {
        prim: String,
        bytes: String,
    },
    Args {
        prim: String,
        args: Vec<TezosTxArg>,
    },
}

#[derive(Debug)]
pub struct TezosTxStorage {
    pub prim: String,
    pub args: Vec<Vec<TezosTxArg>>,
}

#[derive(Debug)]
pub struct TezosDiffUpdateKey {
    pub string: String,
}

#[derive(Debug)]
pub struct TezosDiffUpdate {
    pub key_hash: String,
    pub key: TezosDiffUpdateKey,
    pub value: Vec<Vec<TezosTxArg>>,
}

#[derive(Debug)]
pub struct TezosDiff {
    pub action: String,
    pub updates: Vec<TezosDiffUpdate>,
}

#[derive(Debug)]
pub struct TezosLazyStorageDiff {
    pub kind: String,
    pub id: String,
    pub diff: TezosDiff,
}

#[derive(Debug)]
pub struct TezosOperationResult {
    pub status: TezosTxStatus,
    pub storage: TezosTxStorage,
    pub balance_updates: Vec<TezosBalanceUpdate>,
    pub consumed_milligas: String,
    pub storage_size: String,
    pub paid_storage_size_diff: String,
}

#[derive(Debug)]
pub struct TezosTxMetadata {
    pub balance_updates: Vec<TezosBalanceUpdate>,
    pub operation_result: TezosOperationResult,
}

#[derive(Debug)]
pub struct TezosTxContent {
    pub kind: String,
    pub source: String,
    pub fee: String,
    pub counter: String,
    pub gas_limit: String,
    pub storage_limit: String,
    pub delegate: String,
    pub destination: String,
    pub parameters: TxContentParamaters,
    pub metadata: TezosTxMetadata,
}

#[derive(Debug)]
pub struct TezosUnsignedTx {
    pub branch: String,
    pub contents: Vec<TezosTxContent>,
}

#[derive(Debug)]
pub struct TezosTxResponse {
    pub unsigned_tx_hash: String,
    pub unsigned_tx_serialized: String,
    pub unsigned_tx: TezosUnsignedTx,
}

#[derive(Debug)]
pub struct TezosUndelegateTxRequest {
    pub wallet: String,
}

#[derive(Debug)]
pub struct TezosFinalizeUnstakeTxRequest {
    pub wallet: String,
}

#[derive(Debug)]
pub struct TezosStakeTxRequest {
    pub wallet: String,
    pub amount_umutez: String,
}

#[derive(Debug)]
pub struct TezosUnstakeTxRequest {
    pub wallet: String,
    pub amount_umutez: String,
}

#[derive(Debug)]
pub struct TezosPrepareTxRequest {
    pub unsigned_tx_serialized: String,
    pub signature: String,
}

#[derive(Debug)]
pub struct TezosTxStatusRequest {
    pub tx_hash: String,
    pub block: u64,
}

#[derive(Clone, Copy, Debug, PartialEq, Eq, Structural)]
pub enum TezosTxStatus {
    Applied,
    Failed,
    Skipped,
    Backtracked,
}

#[derive(Debug)]
pub struct TezosStatusReceipt {
    pub protocol: String,
    pub chain_id: String,
    pub hash: String,
    pub branch: String,
    pub contents: Vec<TezosTxContent>,
    pub signature: String,
}

#[derive(Debug)]
pub struct TezosTxStatusResponse {
    pub status: TezosTxStatus,
    pub receipt: TezosStatusReceipt,
}

#[derive(Debug)]
pub struct TezosTxDecodingResponse {
    pub branch: String,
    pub contents: Vec<TezosTxContent>,
}

/// The client of the operations under `/xtz`.
#[derive(Debug)]
pub struct KilnTezosClient {
    endpoint: Endpoint,
}

impl View for KilnTezosClient {
    type V = EndpointView;

    closed spec fn view(&self) -> EndpointView {
        self.endpoint@
    }
}

impl KilnTezosClient {
    pub fn new(kiln: &Kiln) -> (r: KilnTezosClient)
        ensures
            r@ == chain_endpoint(kiln@, "xtz"@),
    {
        KilnTezosClient { endpoint: Endpoint::for_chain(kiln, "xtz") }
    }

    /// The reward history, in the daily or the per-epoch form.
    pub fn get_rewards(&self, reward_request: RewardRequest) -> (r: Request)
        ensures
            r@ == get_json(self@, query_url(self@.base_url, "rewards"@, reward_query(reward_request))),
    {
        let params = reward_params(&reward_request);
        let url = self.endpoint.url_with_query("rewards", &params);
        self.endpoint.get_json(url)
    }

    /// Reads `stakes`, with the filters as query parameters in the order the API documents.
    pub fn get_stakes(&self, stakes_request: &TezosGetStakesRequest) -> (r: Request)
        ensures
            r@ == get_json(self@, query_url(self@.base_url, "stakes"@, seq![
                ("validators"@, comma_join(texts(stakes_request.validators@))),
                ("wallets"@, comma_join(texts(stakes_request.wallets@))),
                ("accounts"@, comma_join(uuid_texts(stakes_request.accounts@))),
            ])),
    {
        let params = vec![
            QueryParam::new("validators", crate::text::join_values(&stakes_request.validators)),
            QueryParam::new("wallets", crate::text::join_values(&stakes_request.wallets)),
            QueryParam::new("accounts", crate::ids::join_uuids(&stakes_request.accounts)),
        ];
        let url = self.endpoint.url_with_query("stakes", &params);
        proof {
            assert(param_views(params@) =~= seq![
                    ("validators"@, comma_join(texts(stakes_request.validators@))),
                    ("wallets"@, comma_join(texts(stakes_request.wallets@))),
                    ("accounts"@, comma_join(uuid_texts(stakes_request.accounts@))),
                ]);
        }
        self.endpoint.get_json(url)
    }

    /// Reads `operations`, with the filters as query parameters in the order the API documents.
    pub fn get_operations(
        &self,
        validator_operations_request: &TezosOperationsRequest,
    ) -> (r: Request)
        ensures
            r@ == get_json(self@, query_url(self@.base_url, "operations"@, seq![
                ("validators"@, comma_join(texts(validator_operations_request.validators@))),
                ("wallets"@, comma_join(texts(validator_operations_request.wallets@))),
                ("accounts"@, comma_join(uuid_texts(validator_operations_request.accounts@))),
                ("start_date"@, utc_text_of(validator_operations_request.start_date@.0, validator_operations_request.start_date@.1)),
                ("end_date"@, utc_text_of(validator_operations_request.end_date@.0, validator_operations_request.end_date@.1)),
            ])),
    {
        let params = vec![
            QueryParam::new("validators", crate::text::join_values(&validator_operations_request.validators)),
            QueryParam::new("wallets", crate::text::join_values(&validator_operations_request.wallets)),
            QueryParam::new("accounts", crate::ids::join_uuids(&validator_operations_request.accounts)),
            QueryParam::new("start_date", validator_operations_request.start_date.text()),
            QueryParam::new("end_date", validator_operations_request.end_date.text()),
        ];
        let url = self.endpoint.url_with_query("operations", &params);
        proof {
            assert(param_views(params@) =~= seq![
                    ("validators"@, comma_join(texts(validator_operations_request.validators@))),
                    ("wallets"@, comma_join(texts(validator_operations_request.wallets@))),
                    ("accounts"@, comma_join(uuid_texts(validator_operations_request.accounts@))),
                    ("start_date"@, utc_text_of(validator_operations_request.start_date@.0, validator_operations_request.start_date@.1)),
                    ("end_date"@, utc_text_of(validator_operations_request.end_date@.0, validator_operations_request.end_date@.1)),
                ]);
        }
        self.endpoint.get_json(url)
    }

    /// Downloads `network-stats` as raw bytes.
    pub fn get_network_stats(&self) -> (r: Request)
        ensures
            r@ == get_json(self@, resource_url(self@.base_url, "network-stats"@)),
    {
        let url = self.endpoint.url("network-stats");
        self.endpoint.get_json(url)
    }

    /// Downloads `reports` as raw bytes.
    pub fn get_reports(&self, reports_request: &TezosReportsRequest) -> (r: Request)
        ensures
            r@ == get_bytes(self@, query_url(self@.base_url, "reports"@, seq![
                ("wallets"@, comma_join(texts(reports_request.wallets@))),
                ("accounts"@, comma_join(uuid_texts(reports_request.accounts@))),
            ])),
    {
        let params = vec![
            QueryParam::new("wallets", crate::text::join_values(&reports_request.wallets)),
            QueryParam::new("accounts", crate::ids::join_uuids(&reports_request.accounts)),
        ];
        let url = self.endpoint.url_with_query("reports", &params);
        proof {
            assert(param_views(params@) =~= seq![
                    ("wallets"@, comma_join(texts(reports_request.wallets@))),
                    ("accounts"@, comma_join(uuid_texts(reports_request.accounts@))),
                ]);
        }
        self.endpoint.get_bytes(url)
    }

    /// Sends the JSON `body` to `transaction/delegate`.
    pub fn post_delegate_tx(&self, body: String) -> (r: Request)
        ensures
            r@ == send_json(self@, Method::Post, resource_url(self@.base_url, "transaction/delegate"@), body@),
    {
        let url = self.endpoint.url("transaction/delegate");
        self.endpoint.send_json(Method::Post, url, body)
    }

    /// Sends the JSON `body` to `transaction/undelegate`.
    pub fn post_undelegate_tx(&self, body: String) -> (r: Request)
        ensures
            r@ == send_json(self@, Method::Post, resource_url(self@.base_url, "transaction/undelegate"@), body@),
    {
        let url = self.endpoint.url("transaction/undelegate");
        self.endpoint.send_json(Method::Post, url, body)
    }

    /// Sends the JSON `body` to `transaction/stake`.
    pub fn post_stake_tx(&self, body: String) -> (r: Request)
        ensures
            r@ == send_json(self@, Method::Post, resource_url(self@.base_url, "transaction/stake"@), body@),
    {
        let url = self.endpoint.url("transaction/stake");
        self.endpoint.send_json(Method::Post, url, body)
    }

    /// Sends the JSON `body` to `transaction/unstake`.
    pub fn post_unstake_tx(&self, body: String) -> (r: Request)
        ensures
            r@ == send_json(self@, Method::Post, resource_url(self@.base_url, "transaction/unstake"@), body@),
    {
        let url = self.endpoint.url("transaction/unstake");
        self.endpoint.send_json(Method::Post, url, body)
    }

    /// Sends the JSON `body` to `transaction/finalize-unstake`.
    pub fn post_finalize_unstake_tx(&self, body: String) -> (r: Request)
        ensures
            r@ == send_json(self@, Method::Post, resource_url(self@.base_url, "transaction/finalize-unstake"@), body@),
    {
        let url = self.endpoint.url("transaction/finalize-unstake");
        self.endpoint.send_json(Method::Post, url, body)
    }

    /// Sends the JSON `body` to `transaction/prepare`.
    pub fn post_prepare_tx(&self, body: String) -> (r: Request)
        ensures
            r@ == send_json(self@, Method::Post, resource_url(self@.base_url, "transaction/prepare"@), body@),
    {
        let url = self.endpoint.url("transaction/prepare");
        self.endpoint.send_json(Method::Post, url, body)
    }

    /// Sends the JSON `body` to `transaction/broadcast`.
    pub fn post_broadcast_tx(&self, body: String) -> (r: Request)
        ensures
            r@ == send_json(self@, Method::Post, resource_url(self@.base_url, "transaction/broadcast"@), body@),
    {
        let url = self.endpoint.url("transaction/broadcast");
        self.endpoint.send_json(Method::Post, url, body)
    }

    /// Reads `transaction/status`, with the filters as query parameters in the order the API documents.
    pub fn get_tx_status(&self, tx_status_request: &TezosTxStatusRequest) -> (r: Request)
        ensures
            r@ == get_json(self@, query_url(self@.base_url, "transaction/status"@, seq![
                ("tx_hash"@, tx_status_request.tx_hash@),
                ("block"@, decimal(tx_status_request.block as nat)),
            ])),
    {
        let params = vec![
            QueryParam::new("tx_hash", tx_status_request.tx_hash.clone()),
            QueryParam::new("block", crate::text::decimal_text(tx_status_request.block)),
        ];
        let url = self.endpoint.url_with_query("transaction/status", &params);
        proof {
            assert(param_views(params@) =~= seq![
                    ("tx_hash"@, tx_status_request.tx_hash@),
                    ("block"@, decimal(tx_status_request.block as nat)),
                ]);
        }
        self.endpoint.get_json(url)
    }

    /// Reads `transaction/decode`, with the filters as query parameters in the order the API documents.
    pub fn get_tx_decoding(&self, tx_serialized: &str) -> (r: Request)
        ensures
            r@ == get_json(self@, query_url(self@.base_url, "transaction/decode"@, seq![
                ("tx_serialized"@, tx_serialized@),
            ])),
    {
        let params = vec![
            QueryParam::new("tx_serialized", String::from_str(tx_serialized)),
        ];
        let url = self.endpoint.url_with_query("transaction/decode", &params);
        proof {
            assert(param_views(params@) =~= seq![
                    ("tx_serialized"@, tx_serialized@),
                ]);
        }
        self.endpoint.get_json(url)
    }
}

impl TezosTxStatus {
    /// The name of this value in a query.
    pub open spec fn wire_name(self) -> Seq<char> {
        match self {
            TezosTxStatus::Applied => "Applied"@,
            TezosTxStatus::Failed => "Failed"@,
            TezosTxStatus::Skipped => "Skipped"@,
            TezosTxStatus::Backtracked => "Backtracked"@,
        }
    }

    pub fn as_str(&self) -> (r: &'static str)
        ensures
            r@ == self.wire_name(),
    {
        match self {
            TezosTxStatus::Applied => "Applied",
            TezosTxStatus::Failed => "Failed",
            TezosTxStatus::Skipped => "Skipped",
            TezosTxStatus::Backtracked => "Backtracked",
        }
    }

    /// The value that the text `s` names, if any; each value may have several names.
    pub open spec fn parse_spec(s: Seq<char>) -> Option<TezosTxStatus> {
        if s == "Applied"@ {
            Some(TezosTxStatus::Applied)
        } else if s == "Failed"@ {
            Some(TezosTxStatus::Failed)
        } else if s == "Skipped"@ {
            Some(TezosTxStatus::Skipped)
        } else if s == "Backtracked"@ {
            Some(TezosTxStatus::Backtracked)
        } else {
            None
        }
    }

    pub fn from_wire(s: &str) -> (r: Option<TezosTxStatus>)
        ensures
            r == TezosTxStatus::parse_spec(s@),
    {
        if same_text(s, "Applied") {
            Some(TezosTxStatus::Applied)
        } else if same_text(s, "Failed") {
            Some(TezosTxStatus::Failed)
        } else if same_text(s, "Skipped") {
            Some(TezosTxStatus::Skipped)
        } else if same_text(s, "Backtracked") {
            Some(TezosTxStatus::Backtracked)
        } else {
            None
        }
    }
}

} // verus!
