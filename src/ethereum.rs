//! The client of the Ethereum routes, under `/eth`, and the records they exchange.
use vstd::prelude::*;
use crate::Kiln;
use crate::ids::{uuid_texts, Uuid};
use crate::request::{chain_endpoint, get_bytes, get_json, query_url, resource_url, send_json, Endpoint, EndpointView, Method, Request};
use crate::text::{bool_text, comma_join, decimal, param_views, same_text, texts, QueryParam};
use crate::timestamp::{utc_text_of, UtcDateTime};
use crate::types::ChainID;

verus! {

#[derive(Clone, Copy, Debug, PartialEq, Eq, Structural)]
pub enum Scope {
    Kiln,
    Network,
}

#[derive(Clone, Copy, Debug, PartialEq, Eq, Structural)]
pub enum EthereumFilterState {
    Unknown,
    Unstaked,
    DepositInProgress,
    PendingInitialized,
    PendingQueued,
    ActiveOngoing,
    ActiveExiting,
    ActiveSlashed,
    ExitedUnslashed,
    ExitedSlashed,
    WithdrawalPossible,
    WithdrawalDone,
}

#[derive(Debug)]
pub struct Stake {
    pub validator: String,
}

#[derive(Debug)]
pub struct EthereumPostStakesRequest {
    pub stakes: Vec<Stake>,
    pub account_id: Uuid,
}

#[derive(Debug)]
pub struct EthereumRewardsRequest {
    pub validators: Vec<String>,
    pub scope: Scope,
    pub wallets: Vec<String>,
    pub proxies: Vec<String>,
    pub validator_indexes: Vec<u64>,
    pub accounts: Vec<Uuid>,
    pub start_date: UtcDateTime,
    pub end_date: UtcDateTime,
    pub include_usd: bool,
}

#[derive(Debug)]
pub struct EthereumRewardsResponse {
    pub date: UtcDateTime,
    pub consensus_rewards: String,
    pub execution_rewards: String,
    pub mev_execution_rewards: String,
    pub non_mev_execution_rewards: String,
    pub median_execution_reward: String,
    pub rewards: String,
    pub stake_balance: String,
    pub gross_apy: String,
    pub cl_apy: String,
    pub el_apy: String,
    pub active_validator_count: String,
    pub rewards_usd: String,
    pub stake_balance_usd: u64,
}

#[derive(Debug)]
pub struct EthereumOperationsRequest {
    pub validators: Vec<String>,
    pub wallets: Vec<String>,
    pub proxies: Vec<String>,
    pub validator_indexes: Vec<String>,
    pub accounts: Vec<Uuid>,
    pub start_date: UtcDateTime,
    pub end_date: UtcDateTime,
}

#[derive(Debug)]
pub struct KilnStats {
    pub gross_apy: GrossAPY,
}

#[derive(Debug)]
pub struct GrossAPY {
    pub last_1d: u64,
    pub last_7d: u64,
    pub last_30d: u64,
    pub updated_at: UtcDateTime,
}

#[derive(Clone, Copy, Debug, PartialEq, Eq, Structural)]
pub enum ValidationKeysFormat {
    BatchDeposit,
    CliDeposit,
}

#[derive(Debug)]
pub struct PostValidationKeysRequest {
    pub account_id: Uuid,
    pub withdrawal_address: String,
    pub fee_recipient_address: String,
    pub number: u64,
    pub format: ValidationKeysFormat,
}

#[derive(Debug)]
pub struct PostETHStakesTx {
    pub account_id: Uuid,
    pub wallet: String,
    pub amount_wei: String,
}

#[derive(Debug)]
pub struct PostETHStakesTxResponse {
    pub unsigned_tx_hash: String,
    pub unsigned_tx_serialized: String,
    pub to: String,
    pub contract_call_data: String,
    pub amount_wei: String,
    pub nonce: u64,
    pub gas_limit: u64,
    pub max_priority_fee_per_gas_wei: String,
    pub max_fee_per_gas_wei: String,
    pub chain_id: ChainID,
}

#[derive(Debug)]
pub enum ValidationKeys {
    BatchResponse {
        format: ValidationKeysFormat,
        pubkeys: Vec<String>,
        withdrawal_credentials: Vec<String>,
        signatures: Vec<String>,
        deposit_data_roots: Vec<String>,
    },
    CliResponse {
        format: ValidationKeysFormat,
        pubkey: String,
        withdrawal_credentials: String,
        amount: u64,
        signature: String,
        deposit_message_root: String,
        deposit_data_root: String,
        fork_version: String,
        network_name: String,
        deposit_cli_version: String,
    },
}

#[derive(Debug)]
pub struct SignedMessage {
    pub pubkey: String,
    pub signature: String,
}

#[derive(Debug)]
pub struct EthereumPrepareTxRequest {
    pub unsigned_tx_serialized: String,
    pub signed_messages: Vec<SignedMessage>,
}

#[derive(Debug)]
pub struct EthereumPrepareTxResponse {
    pub signed_tx_serialized: String,
}

#[derive(Debug)]
pub struct RequestExitTx {
    pub wallet: String,
    pub validators: Vec<String>,
}

#[derive(Debug)]
pub struct RequestExitTxResponse {
    pub unsigned_tx_hash: String,
    pub unsigned_tx_serialized: String,
    pub to: String,
    pub contract_call_data: String,
    pub amount_wei: String,
    pub nonce: u64,
    pub gas_limit: u64,
    pub max_priority_fee_per_gas_wei: String,
    pub max_fee_per_gas_wei: String,
    pub chain_id: ChainID,
}

#[derive(Debug)]
pub struct TxDecodingRequest {
    pub tx_serialized: String,
}

#[derive(Debug)]
pub struct EthereumTxDecodingResponse {
    pub r: String,
    pub s: String,
    pub v: String,
    pub y_parity: u64,
    pub chain_id: ChainID,
    pub kind: String,
    pub to: String,
    pub gas: String,
    pub data: String,
    pub nonce: u64,
    pub value: String,
    pub max_fee_per_gas: String,
    pub max_priority_fee_per_gas: String,
    pub function_name: String,
    pub args: Vec<Vec<String>>,
}

#[derive(Debug)]
pub struct EthereumReportsRequest {
    pub validators: Vec<String>,
    pub wallets: Vec<String>,
    pub accounts: Vec<Uuid>,
}

#[derive(Debug)]
pub struct ExitMessageResponse {
    pub validator_address: String,
    pub pgp_public_key: String,
    pub payload: String,
    pub updated_at: UtcDateTime,
}

/// The client of the operations under `/eth`.
#[derive(Debug)]
pub struct KilnEthereumClient {
    endpoint: Endpoint,
}

impl View for KilnEthereumClient {
    type V = EndpointView;

    closed spec fn view(&self) -> EndpointView {
        self.endpoint@
    }
}

impl KilnEthereumClient {
    pub fn new(kiln: &Kiln) -> (r: KilnEthereumClient)
        ensures
            r@ == chain_endpoint(kiln@, "eth"@),
    {
        KilnEthereumClient { endpoint: Endpoint::for_chain(kiln, "eth") }
    }

    /// One page of stakes, network-wide or within a scope.
    pub fn get_stakes(&self, ethereum_stake_request: EthereumStakesRequest) -> (r: Request)
        ensures
            r@ == get_json(self@, query_url(self@.base_url, "stakes"@, stakes_query(ethereum_stake_request))),
    {
        let params = match &ethereum_stake_request {
            EthereumStakesRequest::Network(n) => vec![
                QueryParam::new("validators", crate::text::join_values(&n.validators)),
                QueryParam::new("wallets", crate::text::join_values(&n.wallets)),
                QueryParam::new("proxies", crate::text::join_values(&n.proxies)),
                QueryParam::new("withdrawal_credentials", crate::text::join_values(&n.withdrawal_credentials)),
                QueryParam::new("validator_indexes", crate::text::join_numbers(&n.validator_indexes)),
                QueryParam::new("include_eigenlayer", crate::text::bool_to_text(n.include_eigenlayer)),
                QueryParam::new("accounts", crate::ids::join_uuids(&n.accounts)),
                QueryParam::new("current_page", crate::text::decimal_text(n.current_page)),
                QueryParam::new("page_size", crate::text::decimal_text(n.page_size)),
                QueryParam::new("filtered_states", join_states(&n.filtered_states)),
            ],
            EthereumStakesRequest::Scoped(s) => vec![
                QueryParam::new("validators", crate::text::join_values(&s.validators)),
                QueryParam::new("scope", String::from_str(s.scope.as_str())),
                QueryParam::new("wallets", crate::text::join_values(&s.wallets)),
                QueryParam::new("proxies", crate::text::join_values(&s.proxies)),
                QueryParam::new("withdrawal_credentials", crate::text::join_values(&s.withdrawal_credentials)),
                QueryParam::new("validator_indexes", crate::text::join_numbers(&s.validator_indexes)),
                QueryParam::new("include_eigenlayer", crate::text::bool_to_text(s.include_eigenlayer)),
                QueryParam::new("accounts", crate::ids::join_uuids(&s.accounts)),
                QueryParam::new("current_page", crate::text::decimal_text(s.current_page)),
                QueryParam::new("page_size", crate::text::decimal_text(s.page_size)),
            ],
        };
        proof {
            assert(param_views(params@) =~= stakes_query(ethereum_stake_request));
        }
        let url = self.endpoint.url_with_query("stakes", &params);
        self.endpoint.get_json(url)
    }

    /// Sends the JSON `body` to `rewards`.
    pub fn post_stakes(&self, body: String) -> (r: Request)
        ensures
            r@ == send_json(self@, Method::Post, self@.base_url, body@),
    {
        let url = String::from_str(self.endpoint.base_url());
        self.endpoint.send_json(Method::Post, url, body)
    }

    /// Reads `rewards`, with the filters as query parameters in the order the API documents.
    pub fn rewards(&self, ethereum_rewards_request: &EthereumRewardsRequest) -> (r: Request)
        ensures
            r@ == get_json(self@, query_url(self@.base_url, "rewards"@, seq![
                ("validators"@, comma_join(texts(ethereum_rewards_request.validators@))),
                ("scope"@, ethereum_rewards_request.scope.wire_name()),
                ("wallets"@, comma_join(texts(ethereum_rewards_request.wallets@))),
                ("proxies"@, comma_join(texts(ethereum_rewards_request.proxies@))),
                ("validators_indexes"@, comma_join(ethereum_rewards_request.validator_indexes@.map_values(|n: u64| decimal(n as nat)))),
                ("accounts"@, comma_join(uuid_texts(ethereum_rewards_request.accounts@))),
                ("start_date"@, utc_text_of(ethereum_rewards_request.start_date@.0, ethereum_rewards_request.start_date@.1)),
                ("end_date"@, utc_text_of(ethereum_rewards_request.end_date@.0, ethereum_rewards_request.end_date@.1)),
                ("include_usd"@, bool_text(ethereum_rewards_request.include_usd)),
            ])),
    {
        let params = vec![
            QueryParam::new("validators", crate::text::join_values(&ethereum_rewards_request.validators)),
            QueryParam::new("scope", String::from_str(ethereum_rewards_request.scope.as_str())),
            QueryParam::new("wallets", crate::text::join_values(&ethereum_rewards_request.wallets)),
            QueryParam::new("proxies", crate::text::join_values(&ethereum_rewards_request.proxies)),
            QueryParam::new("validators_indexes", crate::text::join_numbers(&ethereum_rewards_request.validator_indexes)),
            QueryParam::new("accounts", crate::ids::join_uuids(&ethereum_rewards_request.accounts)),
            QueryParam::new("start_date", ethereum_rewards_request.start_date.text()),
            QueryParam::new("end_date", ethereum_rewards_request.end_date.text()),
            QueryParam::new("include_usd", crate::text::bool_to_text(ethereum_rewards_request.include_usd)),
        ];
        let url = self.endpoint.url_with_query("rewards", &params);
        proof {
            assert(param_views(params@) =~= seq![
                    ("validators"@, comma_join(texts(ethereum_rewards_request.validators@))),
                    ("scope"@, ethereum_rewards_request.scope.wire_name()),
                    ("wallets"@, comma_join(texts(ethereum_rewards_request.wallets@))),
                    ("proxies"@, comma_join(texts(ethereum_rewards_request.proxies@))),
                    ("validators_indexes"@, comma_join(ethereum_rewards_request.validator_indexes@.map_values(|n: u64| decimal(n as nat)))),
                    ("accounts"@, comma_join(uuid_texts(ethereum_rewards_request.accounts@))),
                    ("start_date"@, utc_text_of(ethereum_rewards_request.start_date@.0, ethereum_rewards_request.start_date@.1)),
                    ("end_date"@, utc_text_of(ethereum_rewards_request.end_date@.0, ethereum_rewards_request.end_date@.1)),
                    ("include_usd"@, bool_text(ethereum_rewards_request.include_usd)),
                ]);
        }
        self.endpoint.get_json(url)
    }

    /// Reads `operations`, with the filters as query parameters in the order the API documents.
    pub fn get_operations(
        &self,
        ethereum_operations_request: &EthereumOperationsRequest,
    ) -> (r: Request)
        ensures
            r@ == get_json(self@, query_url(self@.base_url, "operations"@, seq![
                ("validators"@, comma_join(texts(ethereum_operations_request.validators@))),
                ("wallets"@, comma_join(texts(ethereum_operations_request.wallets@))),
                ("proxies"@, comma_join(texts(ethereum_operations_request.proxies@))),
                ("validators_indexes"@, comma_join(texts(ethereum_operations_request.validator_indexes@))),
                ("accounts"@, comma_join(uuid_texts(ethereum_operations_request.accounts@))),
                ("start_date"@, utc_text_of(ethereum_operations_request.start_date@.0, ethereum_operations_request.start_date@.1)),
                ("end_date"@, utc_text_of(ethereum_operations_request.end_date@.0, ethereum_operations_request.end_date@.1)),
            ])),
    {
        let params = vec![
            QueryParam::new("validators", crate::text::join_values(&ethereum_operations_request.validators)),
            QueryParam::new("wallets", crate::text::join_values(&ethereum_operations_request.wallets)),
            QueryParam::new("proxies", crate::text::join_values(&ethereum_operations_request.proxies)),
            QueryParam::new("validators_indexes", crate::text::join_values(&ethereum_operations_request.validator_indexes)),
            QueryParam::new("accounts", crate::ids::join_uuids(&ethereum_operations_request.accounts)),
            QueryParam::new("start_date", ethereum_operations_request.start_date.text()),
            QueryParam::new("end_date", ethereum_operations_request.end_date.text()),
        ];
        let url = self.endpoint.url_with_query("operations", &params);
        proof {
            assert(param_views(params@) =~= seq![
                    ("validators"@, comma_join(texts(ethereum_operations_request.validators@))),
                    ("wallets"@, comma_join(texts(ethereum_operations_request.wallets@))),
                    ("proxies"@, comma_join(texts(ethereum_operations_request.proxies@))),
                    ("validators_indexes"@, comma_join(texts(ethereum_operations_request.validator_indexes@))),
                    ("accounts"@, comma_join(uuid_texts(ethereum_operations_request.accounts@))),
                    ("start_date"@, utc_text_of(ethereum_operations_request.start_date@.0, ethereum_operations_request.start_date@.1)),
                    ("end_date"@, utc_text_of(ethereum_operations_request.end_date@.0, ethereum_operations_request.end_date@.1)),
                ]);
        }
        self.endpoint.get_json(url)
    }

    /// Reads `network-stats`.
    pub fn network_stats(&self) -> (r: Request)
        ensures
            r@ == get_json(self@, resource_url(self@.base_url, "network-stats"@)),
    {
        let url = self.endpoint.url("network-stats");
        self.endpoint.get_json(url)
    }

    /// Sends the JSON `body` to `kiln-stats`.
    pub fn kiln_stats(&self) -> (r: Request)
        ensures
            r@ == get_json(self@, resource_url(self@.base_url, "kiln-stats"@)),
    {
        let url = self.endpoint.url("kiln-stats");
        self.endpoint.get_json(url)
    }

    /// Sends the JSON `body` to `keys`.
    pub fn post_keys(&self, body: String) -> (r: Request)
        ensures
            r@ == send_json(self@, Method::Post, resource_url(self@.base_url, "keys"@), body@),
    {
        let url = self.endpoint.url("keys");
        self.endpoint.send_json(Method::Post, url, body)
    }

    /// Sends the JSON `body` to `stake`.
    pub fn post_stake_tx(&self, body: String) -> (r: Request)
        ensures
            r@ == send_json(self@, Method::Post, resource_url(self@.base_url, "stake"@), body@),
    {
        let url = self.endpoint.url("stake");
        self.endpoint.send_json(Method::Post, url, body)
    }

    /// Sends the JSON `body` to `transaction/prepare`.
    pub fn post_prepare_tx(&self, body: String) -> (r: Request)
        ensures
            r@ == send_json(self@, Method::Post, resource_url(self@.base_url, "transaction/prepare"@), body@),
    {
        let url = self.endpoint.url("transaction/prepare");
        self.endpoint.send_json(Method::Post, url, body)
    }

    /// Sends the JSON `body` to `transaction/broadcast`.
    pub fn post_broadcast_tx(&self, body: String) -> (r: Request)
        ensures
            r@ == send_json(self@, Method::Post, resource_url(self@.base_url, "transaction/broadcast"@), body@),
    {
        let url = self.endpoint.url("transaction/broadcast");
        self.endpoint.send_json(Method::Post, url, body)
    }

    /// Reads `transaction/status`, with the filters as query parameters in the order the API documents.
    pub fn get_status_tx(&self, tx_hash: &str) -> (r: Request)
        ensures
            r@ == get_json(self@, query_url(self@.base_url, "transaction/status"@, seq![
                ("tx_hash"@, tx_hash@),
            ])),
    {
        let params = vec![
            QueryParam::new("tx_hash", String::from_str(tx_hash)),
        ];
        let url = self.endpoint.url_with_query("transaction/status", &params);
        proof {
            assert(param_views(params@) =~= seq![
                    ("tx_hash"@, tx_hash@),
                ]);
        }
        self.endpoint.get_json(url)
    }

    /// Sends the JSON `body` to `transaction/exit-request`.
    pub fn post_request_exit_tx(&self, body: String) -> (r: Request)
        ensures
            r@ == send_json(self@, Method::Post, resource_url(self@.base_url, "transaction/exit-request"@), body@),
    {
        let url = self.endpoint.url("transaction/exit-request");
        self.endpoint.send_json(Method::Post, url, body)
    }

    /// Reads `transaction/decode`, with the filters as query parameters in the order the API documents.
    pub fn get_tx_decoding(&self, tx_decoding_request: &TxDecodingRequest) -> (r: Request)
        ensures
            r@ == get_json(self@, query_url(self@.base_url, "transaction/decode"@, seq![
                ("tx_serialized"@, tx_decoding_request.tx_serialized@),
            ])),
    {
        let params = vec![
            QueryParam::new("tx_serialized", tx_decoding_request.tx_serialized.clone()),
        ];
        let url = self.endpoint.url_with_query("transaction/decode", &params);
        proof {
            assert(param_views(params@) =~= seq![
                    ("tx_serialized"@, tx_decoding_request.tx_serialized@),
                ]);
        }
        self.endpoint.get_json(url)
    }

    /// Downloads `reports` as raw bytes.
    pub fn get_reports(&self, ethereum_reports_request: &EthereumReportsRequest) -> (r: Request)
        ensures
            r@ == get_bytes(self@, query_url(self@.base_url, "reports"@, seq![
                ("validators"@, comma_join(texts(ethereum_reports_request.validators@))),
                ("wallets"@, comma_join(texts(ethereum_reports_request.wallets@))),
                ("accounts"@, comma_join(uuid_texts(ethereum_reports_request.accounts@))),
            ])),
    {
        let params = vec![
            QueryParam::new("validators", crate::text::join_values(&ethereum_reports_request.validators)),
            QueryParam::new("wallets", crate::text::join_values(&ethereum_reports_request.wallets)),
            QueryParam::new("accounts", crate::ids::join_uuids(&ethereum_reports_request.accounts)),
        ];
        let url = self.endpoint.url_with_query("reports", &params);
        proof {
            assert(param_views(params@) =~= seq![
                    ("validators"@, comma_join(texts(ethereum_reports_request.validators@))),
                    ("wallets"@, comma_join(texts(ethereum_reports_request.wallets@))),
                    ("accounts"@, comma_join(uuid_texts(ethereum_reports_request.accounts@))),
                ]);
        }
        self.endpoint.get_bytes(url)
    }

    /// Reads `transaction/exit-messages`, with the filters as query parameters in the order the API documents.
    pub fn get_exit_message(&self, validators: Vec<String>) -> (r: Request)
        ensures
            r@ == get_json(self@, query_url(self@.base_url, "transaction/exit-messages"@, seq![
                ("validators"@, comma_join(texts(validators@))),
            ])),
    {
        let params = vec![
            QueryParam::new("validators", crate::text::join_values(&validators)),
        ];
        let url = self.endpoint.url_with_query("transaction/exit-messages", &params);
        proof {
            assert(param_views(params@) =~= seq![
                    ("validators"@, comma_join(texts(validators@))),
                ]);
        }
        self.endpoint.get_json(url)
    }
}

impl Scope {
    /// The name of this value in a query.
    pub open spec fn wire_name(self) -> Seq<char> {
        match self {
            Scope::Kiln => "Kiln"@,
            Scope::Network => "Network"@,
        }
    }

    pub fn as_str(&self) -> (r: &'static str)
        ensures
            r@ == self.wire_name(),
    {
        match self {
            Scope::Kiln => "Kiln",
            Scope::Network => "Network",
        }
    }
}

impl EthereumFilterState {
    /// The name of this value in a query.
    pub open spec fn wire_name(self) -> Seq<char> {
        match self {
            EthereumFilterState::Unknown => "unknown"@,
            EthereumFilterState::Unstaked => "unstaked"@,
            EthereumFilterState::DepositInProgress => "deposit_in_progress"@,
            EthereumFilterState::PendingInitialized => "pending_initialized"@,
            EthereumFilterState::PendingQueued => "pending_queued"@,
            EthereumFilterState::ActiveOngoing => "active_ongoing"@,
            EthereumFilterState::ActiveExiting => "active_exiting"@,
            EthereumFilterState::ActiveSlashed => "active_slashed"@,
            EthereumFilterState::ExitedUnslashed => "exited_unslashed"@,
            EthereumFilterState::ExitedSlashed => "exited_slashed"@,
            EthereumFilterState::WithdrawalPossible => "withdrawal_possible"@,
            EthereumFilterState::WithdrawalDone => "withdrawal_done"@,
        }
    }

    pub fn as_str(&self) -> (r: &'static str)
        ensures
            r@ == self.wire_name(),
    {
        match self {
            EthereumFilterState::Unknown => "unknown",
            EthereumFilterState::Unstaked => "unstaked",
            EthereumFilterState::DepositInProgress => "deposit_in_progress",
            EthereumFilterState::PendingInitialized => "pending_initialized",
            EthereumFilterState::PendingQueued => "pending_queued",
            EthereumFilterState::ActiveOngoing => "active_ongoing",
            EthereumFilterState::ActiveExiting => "active_exiting",
            EthereumFilterState::ActiveSlashed => "active_slashed",
            EthereumFilterState::ExitedUnslashed => "exited_unslashed",
            EthereumFilterState::ExitedSlashed => "exited_slashed",
            EthereumFilterState::WithdrawalPossible => "withdrawal_possible",
            EthereumFilterState::WithdrawalDone => "withdrawal_done",
        }
    }

    /// The value that the text `s` names, if any; each value may have several names.
    pub open spec fn parse_spec(s: Seq<char>) -> Option<EthereumFilterState> {
        if s == "unknown"@ {
            Some(EthereumFilterState::Unknown)
        } else if s == "unstaked"@ {
            Some(EthereumFilterState::Unstaked)
        } else if s == "deposit_in_progress"@ {
            Some(EthereumFilterState::DepositInProgress)
        } else if s == "pending_initialized"@ {
            Some(EthereumFilterState::PendingInitialized)
        } else if s == "pending_queued"@ {
            Some(EthereumFilterState::PendingQueued)
        } else if s == "active_ongoing"@ {
            Some(EthereumFilterState::ActiveOngoing)
        } else if s == "active_exiting"@ {
            Some(EthereumFilterState::ActiveExiting)
        } else if s == "active_slashed"@ {
            Some(EthereumFilterState::ActiveSlashed)
        } else if s == "exited_unslashed"@ {
            Some(EthereumFilterState::ExitedUnslashed)
        } else if s == "exited_slashed"@ {
            Some(EthereumFilterState::ExitedSlashed)
        } else if s == "withdrawal_possible"@ {
            Some(EthereumFilterState::WithdrawalPossible)
        } else if s == "withdrawal_done"@ {
            Some(EthereumFilterState::WithdrawalDone)
        } else {
            None
        }
    }

    pub fn from_wire(s: &str) -> (r: Option<EthereumFilterState>)
        ensures
            r == EthereumFilterState::parse_spec(s@),
    {
        if same_text(s, "unknown") {
            Some(EthereumFilterState::Unknown)
        } else if same_text(s, "unstaked") {
            Some(EthereumFilterState::Unstaked)
        } else if same_text(s, "deposit_in_progress") {
            Some(EthereumFilterState::DepositInProgress)
        } else if same_text(s, "pending_initialized") {
            Some(EthereumFilterState::PendingInitialized)
        } else if same_text(s, "pending_queued") {
            Some(EthereumFilterState::PendingQueued)
        } else if same_text(s, "active_ongoing") {
            Some(EthereumFilterState::ActiveOngoing)
        } else if same_text(s, "active_exiting") {
            Some(EthereumFilterState::ActiveExiting)
        } else if same_text(s, "active_slashed") {
            Some(EthereumFilterState::ActiveSlashed)
        } else if same_text(s, "exited_unslashed") {
            Some(EthereumFilterState::ExitedUnslashed)
        } else if same_text(s, "exited_slashed") {
            Some(EthereumFilterState::ExitedSlashed)
        } else if same_text(s, "withdrawal_possible") {
            Some(EthereumFilterState::WithdrawalPossible)
        } else if same_text(s, "withdrawal_done") {
            Some(EthereumFilterState::WithdrawalDone)
        } else {
            None
        }
    }
}

impl ValidationKeysFormat {
    /// The name of this value in a query.
    pub open spec fn wire_name(self) -> Seq<char> {
        match self {
            ValidationKeysFormat::BatchDeposit => "BatchDeposit"@,
            ValidationKeysFormat::CliDeposit => "CliDeposit"@,
        }
    }

    pub fn as_str(&self) -> (r: &'static str)
        ensures
            r@ == self.wire_name(),
    {
        match self {
            ValidationKeysFormat::BatchDeposit => "BatchDeposit",
            ValidationKeysFormat::CliDeposit => "CliDeposit",
        }
    }

    /// The value that the text `s` names, if any; each value may have several names.
    pub open spec fn parse_spec(s: Seq<char>) -> Option<ValidationKeysFormat> {
        if s == "BatchDeposit"@ {
            Some(ValidationKeysFormat::BatchDeposit)
        } else if s == "CliDeposit"@ {
            Some(ValidationKeysFormat::CliDeposit)
        } else {
            None
        }
    }

    pub fn from_wire(s: &str) -> (r: Option<ValidationKeysFormat>)
        ensures
            r == ValidationKeysFormat::parse_spec(s@),
    {
        if same_text(s, "BatchDeposit") {
            Some(ValidationKeysFormat::BatchDeposit)
        } else if same_text(s, "CliDeposit") {
            Some(ValidationKeysFormat::CliDeposit)
        } else {
            None
        }
    }
}

/// A stakes query over the whole network, filtered by validator state. The
/// page numbers count from 1.
#[derive(Debug)]
pub struct EthereumNetworkStakesRequest {
    pub validators: Vec<String>,
    pub wallets: Vec<String>,
    pub proxies: Vec<String>,
    pub withdrawal_credentials: Vec<String>,
    pub validator_indexes: Vec<u64>,
    pub include_eigenlayer: bool,
    pub accounts: Vec<Uuid>,
    pub current_page: u64,
    pub page_size: u64,
    pub filtered_states: Vec<EthereumFilterState>,
}

/// A stakes query within a scope. The page numbers count from 1.
#[derive(Debug)]
pub struct EthereumScopedStakesRequest {
    pub validators: Vec<String>,
    pub scope: Scope,
    pub wallets: Vec<String>,
    pub proxies: Vec<String>,
    pub withdrawal_credentials: Vec<String>,
    pub validator_indexes: Vec<u64>,
    pub include_eigenlayer: bool,
    pub accounts: Vec<Uuid>,
    pub current_page: u64,
    pub page_size: u64,
}

#[derive(Debug)]
pub enum EthereumStakesRequest {
    Network(EthereumNetworkStakesRequest),
    Scoped(EthereumScopedStakesRequest),
}

/// Validator states encoded as one list value: their names joined by commas.
pub fn join_states(states: &Vec<EthereumFilterState>) -> (r: String)
    ensures
        r@ == comma_join(states@.map_values(|s: EthereumFilterState| s.wire_name())),
{
    let mut parts: Vec<String> = Vec::new();
    let mut i: usize = 0;
    while i < states.len()
        invariant
            i <= states.len(),
            texts(parts@) =~= states@.subrange(0, i as int).map_values(
                |s: EthereumFilterState| s.wire_name(),
            ),
        decreases states.len() - i,
    {
        let ghost before = parts@;
        parts.push(String::from_str(states[i].as_str()));
        proof {
            assert(parts@ =~= before.push(parts@.last()));
            assert(texts(parts@) =~= texts(before).push(states@[i as int].wire_name()));
            assert(states@.subrange(0, i + 1) =~= states@.subrange(0, i as int).push(states@[i as int]));
        }
        i += 1;
    }
    proof {
        assert(states@.subrange(0, states.len() as int) =~= states@);
    }
    crate::text::join_values(&parts)
}

/// The query of a stakes request, network-wide or scoped.
pub open spec fn stakes_query(req: EthereumStakesRequest) -> Seq<(Seq<char>, Seq<char>)> {
    match req {
        EthereumStakesRequest::Network(n) => seq![
            ("validators"@, comma_join(texts(n.validators@))),
            ("wallets"@, comma_join(texts(n.wallets@))),
            ("proxies"@, comma_join(texts(n.proxies@))),
            ("withdrawal_credentials"@, comma_join(texts(n.withdrawal_credentials@))),
            ("validator_indexes"@, comma_join(n.validator_indexes@.map_values(|v: u64| decimal(v as nat)))),
            ("include_eigenlayer"@, bool_text(n.include_eigenlayer)),
            ("accounts"@, comma_join(uuid_texts(n.accounts@))),
            ("current_page"@, decimal(n.current_page as nat)),
            ("page_size"@, decimal(n.page_size as nat)),
            ("filtered_states"@, comma_join(n.filtered_states@.map_values(|s: EthereumFilterState| s.wire_name()))),
        ],
        EthereumStakesRequest::Scoped(s) => seq![
            ("validators"@, comma_join(texts(s.validators@))),
            ("scope"@, s.scope.wire_name()),
            ("wallets"@, comma_join(texts(s.wallets@))),
            ("proxies"@, comma_join(texts(s.proxies@))),
            ("withdrawal_credentials"@, comma_join(texts(s.withdrawal_credentials@))),
            ("validator_indexes"@, comma_join(s.validator_indexes@.map_values(|v: u64| decimal(v as nat)))),
            ("include_eigenlayer"@, bool_text(s.include_eigenlayer)),
            ("accounts"@, comma_join(uuid_texts(s.accounts@))),
            ("current_page"@, decimal(s.current_page as nat)),
            ("page_size"@, decimal(s.page_size as nat)),
        ],
    }
}

} // verus!
