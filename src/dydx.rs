//! The client of the dYdX routes, under `/dydx`, and the records they exchange.
use vstd::prelude::*;
use crate::Kiln;
use crate::ids::{uuid_texts, Uuid};
use crate::request::{chain_endpoint, get_bytes, get_json, query_url, resource_url, send_json, Endpoint, EndpointView, Method, Request};
use crate::text::{bool_text, comma_join, param_views, same_text, texts, QueryParam};
use crate::timestamp::{utc_text_of, UtcDateTime};
use crate::types::{reward_params, reward_query, GetStakesRequest, ReportsRequest, RewardRequest, StakingOperationType};

verus! {

#[derive(Clone, Copy, Debug, PartialEq, Eq, Structural)]
pub enum DydxStakeState {
    Active,
    Inactive,
    Deactivating,
}

#[derive(Clone, Copy, Debug, PartialEq, Eq, Structural)]
pub enum DydxStakePermissionKind {
    Delegate,
    Undelegate,
    Redelegate,
    WithdrawDelegatorReward,
}

#[derive(Debug)]
pub struct DydxGetStakesResponsePermission {
    pub source: String,
    pub creation_height: u64,
    pub permission: DydxStakePermissionKind,
    pub expires_at: Option<UtcDateTime>,
    pub allow_list: Option<Vec<String>>,
    pub deny_list: Option<Vec<String>>,
}

#[derive(Debug)]
pub struct DydxGetStakesResponseUnbonding {
    pub creation_height: u64,
    pub completion_time: UtcDateTime,
    pub balance: String,
    pub initial_balance: String,
}

#[derive(Clone, Copy, Debug, PartialEq, Eq, Structural)]
pub enum DydxStakeStatus {
    Active,
    Pending,
    Disabled,
}

#[derive(Debug)]
pub struct DydxOperationsRequest {
    pub validators: Vec<String>,
    pub delegators: Vec<String>,
    pub authz: bool,
    pub accounts: Vec<Uuid>,
    pub start_date: UtcDateTime,
    pub end_date: UtcDateTime,
}

#[derive(Debug)]
pub enum DydxOperation {
    Delegate {
        kind: String,
        time: UtcDateTime,
        block: u64,
        tx_hash: String,
        tx_gas_used: String,
        message_index: u64,
        validator_address: String,
        delegator_address: String,
        amount: String,
        withdraw_rewards: String,
    },
    Undelegate {
        kind: String,
        time: UtcDateTime,
        block: u64,
        tx_hash: String,
        tx_gas_used: String,
        message_index: u64,
        validator_address: String,
        delegator_address: String,
        amount: String,
        withdraw_rewards: String,
    },
    BeginRedelegate {
        kind: String,
        time: UtcDateTime,
        block: u64,
        tx_hash: String,
        tx_gas_used: String,
        message_index: u64,
        validator_address: String,
        validator_address_source: String,
        delegator_address: String,
        amount: String,
        withdraw_rewards: String,
        withdraw_rewards_source: String,
    },
    WithdrawDelegatorReward {
        kind: String,
        time: UtcDateTime,
        block: u64,
        tx_hash: String,
        tx_gas_used: String,
        message_index: u64,
        validator_address: String,
        delegator_address: String,
        withdraw_rewards: String,
    },
    Grant {
        kind: String,
        time: UtcDateTime,
        block: u64,
        tx_hash: String,
        tx_gas_used: String,
        message_index: u64,
        grantee: String,
        granter: String,
        permission: DydxStakePermissionKind,
        allow_list: Option<Vec<String>>,
        denly_list: Option<Vec<String>>,
    },
    Exec {
        kind: String,
        validator_address: String,
        validator_address_source: String,
        delegator_address: String,
        amount: String,
        withdraw_rewards: String,
        withdraw_rewards_source: String,
        executed_operations: Option<Vec<DydxOperation>>,
    },
}

#[derive(Debug)]
pub struct DydxStakeTxRequest {
    pub account_id: Uuid,
    pub pubkey: String,
    pub validator: String,
    pub amount_adydx: String,
}

#[derive(Debug)]
pub struct DydxUnstakeTxRequest {
    pub pubkey: String,
    pub validator: String,
    pub amount_udydx: String,
}

#[derive(Debug)]
pub struct DydxRedelegateTxRequest {
    pub account_id: Uuid,
    pub pubkey: String,
    pub validator_source: String,
    pub validar_destination: String,
    pub amount_udydx: String,
}

#[derive(Debug)]
pub struct NobleIBCTransferRequest {
    pub pubkey: String,
    pub amount_uusdc: String,
}

/// The client of the operations under `/dydx`.
#[derive(Debug)]
pub struct KilnDydxClient {
    endpoint: Endpoint,
}

impl View for KilnDydxClient {
    type V = EndpointView;

    closed spec fn view(&self) -> EndpointView {
        self.endpoint@
    }
}

impl KilnDydxClient {
    pub fn new(kiln: &Kiln) -> (r: KilnDydxClient)
        ensures
            r@ == chain_endpoint(kiln@, "dydx"@),
    {
        KilnDydxClient { endpoint: Endpoint::for_chain(kiln, "dydx") }
    }

    /// The reward history, in the daily or the per-epoch form.
    pub fn get_rewards(&self, reward_request: RewardRequest) -> (r: Request)
        ensures
            r@ == get_json(self@, query_url(self@.base_url, "rewards"@, reward_query(reward_request))),
    {
        let params = reward_params(&reward_request);
        let url = self.endpoint.url_with_query("rewards", &params);
        self.endpoint.get_json(url)
    }

    /// Reads `stakes`, with the filters as query parameters in the order the API documents.
    pub fn get_stakes(&self, dydx_stake_request: &GetStakesRequest) -> (r: Request)
        ensures
            r@ == get_json(self@, query_url(self@.base_url, "stakes"@, seq![
                ("validators"@, comma_join(texts(dydx_stake_request.validators@))),
                ("delegators"@, comma_join(texts(dydx_stake_request.delegators@))),
                ("accounts"@, comma_join(uuid_texts(dydx_stake_request.accounts@))),
            ])),
    {
        let params = vec![
            QueryParam::new("validators", crate::text::join_values(&dydx_stake_request.validators)),
            QueryParam::new("delegators", crate::text::join_values(&dydx_stake_request.delegators)),
            QueryParam::new("accounts", crate::ids::join_uuids(&dydx_stake_request.accounts)),
        ];
        let url = self.endpoint.url_with_query("stakes", &params);
        proof {
            assert(param_views(params@) =~= seq![
                    ("validators"@, comma_join(texts(dydx_stake_request.validators@))),
                    ("delegators"@, comma_join(texts(dydx_stake_request.delegators@))),
                    ("accounts"@, comma_join(uuid_texts(dydx_stake_request.accounts@))),
                ]);
        }
        self.endpoint.get_json(url)
    }

    /// Sends the JSON `body` to `stakes`.
    pub fn post_stakes(&self, body: String) -> (r: Request)
        ensures
            r@ == send_json(self@, Method::Post, resource_url(self@.base_url, "stakes"@), body@),
    {
        let url = self.endpoint.url("stakes");
        self.endpoint.send_json(Method::Post, url, body)
    }

    /// Reads `operations`, with the filters as query parameters in the order the API documents.
    pub fn get_operations(&self, dydx_operations_request: &DydxOperationsRequest) -> (r: Request)
        ensures
            r@ == get_json(self@, query_url(self@.base_url, "operations"@, seq![
                ("validators"@, comma_join(texts(dydx_operations_request.validators@))),
                ("authz"@, bool_text(dydx_operations_request.authz)),
                ("delegators"@, comma_join(texts(dydx_operations_request.delegators@))),
                ("accounts"@, comma_join(uuid_texts(dydx_operations_request.accounts@))),
                ("start_date"@, utc_text_of(dydx_operations_request.start_date@.0, dydx_operations_request.start_date@.1)),
                ("end_date"@, utc_text_of(dydx_operations_request.end_date@.0, dydx_operations_request.end_date@.1)),
            ])),
    {
        let params = vec![
            QueryParam::new("validators", crate::text::join_values(&dydx_operations_request.validators)),
            QueryParam::new("authz", crate::text::bool_to_text(dydx_operations_request.authz)),
            QueryParam::new("delegators", crate::text::join_values(&dydx_operations_request.delegators)),
            QueryParam::new("accounts", crate::ids::join_uuids(&dydx_operations_request.accounts)),
            QueryParam::new("start_date", dydx_operations_request.start_date.text()),
            QueryParam::new("end_date", dydx_operations_request.end_date.text()),
        ];
        let url = self.endpoint.url_with_query("operations", &params);
        proof {
            assert(param_views(params@) =~= seq![
                    ("validators"@, comma_join(texts(dydx_operations_request.validators@))),
                    ("authz"@, bool_text(dydx_operations_request.authz)),
                    ("delegators"@, comma_join(texts(dydx_operations_request.delegators@))),
                    ("accounts"@, comma_join(uuid_texts(dydx_operations_request.accounts@))),
                    ("start_date"@, utc_text_of(dydx_operations_request.start_date@.0, dydx_operations_request.start_date@.1)),
                    ("end_date"@, utc_text_of(dydx_operations_request.end_date@.0, dydx_operations_request.end_date@.1)),
                ]);
        }
        self.endpoint.get_json(url)
    }

    /// Downloads `network-stats` as raw bytes.
    pub fn get_network_stats(&self) -> (r: Request)
        ensures
            r@ == get_json(self@, resource_url(self@.base_url, "network-stats"@)),
    {
        let url = self.endpoint.url("network-stats");
        self.endpoint.get_json(url)
    }

    /// Downloads `reports` as raw bytes.
    pub fn get_reports(&self, dydx_reports_request: &ReportsRequest) -> (r: Request)
        ensures
            r@ == get_bytes(self@, query_url(self@.base_url, "reports"@, seq![
                ("validators"@, comma_join(texts(dydx_reports_request.validators@))),
                ("delegators"@, comma_join(texts(dydx_reports_request.delegators@))),
                ("accounts"@, comma_join(uuid_texts(dydx_reports_request.accounts@))),
            ])),
    {
        let params = vec![
            QueryParam::new("validators", crate::text::join_values(&dydx_reports_request.validators)),
            QueryParam::new("delegators", crate::text::join_values(&dydx_reports_request.delegators)),
            QueryParam::new("accounts", crate::ids::join_uuids(&dydx_reports_request.accounts)),
        ];
        let url = self.endpoint.url_with_query("reports", &params);
        proof {
            assert(param_views(params@) =~= seq![
                    ("validators"@, comma_join(texts(dydx_reports_request.validators@))),
                    ("delegators"@, comma_join(texts(dydx_reports_request.delegators@))),
                    ("accounts"@, comma_join(uuid_texts(dydx_reports_request.accounts@))),
                ]);
        }
        self.endpoint.get_bytes(url)
    }

    /// Sends the JSON `body` to `balance`.
    pub fn post_get_balance(&self, body: String) -> (r: Request)
        ensures
            r@ == send_json(self@, Method::Post, resource_url(self@.base_url, "balance"@), body@),
    {
        let url = self.endpoint.url("balance");
        self.endpoint.send_json(Method::Post, url, body)
    }

    /// Sends the JSON `body` to `transaction/stake`.
    pub fn post_stake_tx(&self, body: String) -> (r: Request)
        ensures
            r@ == send_json(self@, Method::Post, resource_url(self@.base_url, "transaction/stake"@), body@),
    {
        let url = self.endpoint.url("transaction/stake");
        self.endpoint.send_json(Method::Post, url, body)
    }

    /// Sends the JSON `body` to `transaction/withdraw-rewards`.
    pub fn post_withdraw_rewards_tx(&self, body: String) -> (r: Request)
        ensures
            r@ == send_json(self@, Method::Post, resource_url(self@.base_url, "transaction/withdraw-rewards"@), body@),
    {
        let url = self.endpoint.url("transaction/withdraw-rewards");
        self.endpoint.send_json(Method::Post, url, body)
    }

    /// Sends the JSON `body` to `transaction/unstake`.
    pub fn post_unstake_tx(&self, body: String) -> (r: Request)
        ensures
            r@ == send_json(self@, Method::Post, resource_url(self@.base_url, "transaction/unstake"@), body@),
    {
        let url = self.endpoint.url("transaction/unstake");
        self.endpoint.send_json(Method::Post, url, body)
    }

    /// Sends the JSON `body` to `transaction/redelegate`.
    pub fn post_redelegate_tx(&self, body: String) -> (r: Request)
        ensures
            r@ == send_json(self@, Method::Post, resource_url(self@.base_url, "transaction/redelegate"@), body@),
    {
        let url = self.endpoint.url("transaction/redelegate");
        self.endpoint.send_json(Method::Post, url, body)
    }

    /// Sends the JSON `body` to `transaction/noble-ibc-transfer`.
    pub fn noble_ibc_transfer(&self, body: String) -> (r: Request)
        ensures
            r@ == send_json(self@, Method::Post, resource_url(self@.base_url, "transaction/noble-ibc-transfer"@), body@),
    {
        let url = self.endpoint.url("transaction/noble-ibc-transfer");
        self.endpoint.send_json(Method::Post, url, body)
    }

    /// Sends the JSON `body` to `transaction/prepare`.
    pub fn post_prepare_tx(&self, body: String) -> (r: Request)
        ensures
            r@ == send_json(self@, Method::Post, resource_url(self@.base_url, "transaction/prepare"@), body@),
    {
        let url = self.endpoint.url("transaction/prepare");
        self.endpoint.send_json(Method::Post, url, body)
    }

    /// Sends the JSON `body` to `transaction/broadcast`.
    pub fn post_broadcast_tx(&self, body: String) -> (r: Request)
        ensures
            r@ == send_json(self@, Method::Post, resource_url(self@.base_url, "transaction/broadcast"@), body@),
    {
        let url = self.endpoint.url("transaction/broadcast");
        self.endpoint.send_json(Method::Post, url, body)
    }

    /// Reads `transaction/status`, with the filters as query parameters in the order the API documents.
    pub fn get_tx_status(&self, tx_hash: &str) -> (r: Request)
        ensures
            r@ == get_json(self@, query_url(self@.base_url, "transaction/status"@, seq![
                ("tx_hash"@, tx_hash@),
            ])),
    {
        let params = vec![
            QueryParam::new("tx_hash", String::from_str(tx_hash)),
        ];
        let url = self.endpoint.url_with_query("transaction/status", &params);
        proof {
            assert(param_views(params@) =~= seq![
                    ("tx_hash"@, tx_hash@),
                ]);
        }
        self.endpoint.get_json(url)
    }

    /// Reads `transaction/decode`, with the filters as query parameters in the order the API documents.
    pub fn get_tx_decoding(&self, tx_serialized: &str) -> (r: Request)
        ensures
            r@ == get_json(self@, query_url(self@.base_url, "transaction/decode"@, seq![
                ("tx_serialized"@, tx_serialized@),
            ])),
    {
        let params = vec![
            QueryParam::new("tx_serialized", String::from_str(tx_serialized)),
        ];
        let url = self.endpoint.url_with_query("transaction/decode", &params);
        proof {
            assert(param_views(params@) =~= seq![
                    ("tx_serialized"@, tx_serialized@),
                ]);
        }
        self.endpoint.get_json(url)
    }
}

impl DydxStakePermissionKind {
    /// The value that the text `s` names, if any; each value may have several names.
    pub open spec fn parse_spec(s: Seq<char>) -> Option<DydxStakePermissionKind> {
        if s == "Staking.MsgDelegate"@ {
            Some(DydxStakePermissionKind::Delegate)
        } else if s == "Staking.MsgUndelegate"@ {
            Some(DydxStakePermissionKind::Undelegate)
        } else if s == "Staking.Redelegate"@ {
            Some(DydxStakePermissionKind::Redelegate)
        } else if s == "Distribution.MsgWithdrawDelegatorReward"@ {
            Some(DydxStakePermissionKind::WithdrawDelegatorReward)
        } else {
            None
        }
    }

    pub fn from_wire(s: &str) -> (r: Option<DydxStakePermissionKind>)
        ensures
            r == DydxStakePermissionKind::parse_spec(s@),
    {
        if same_text(s, "Staking.MsgDelegate") {
            Some(DydxStakePermissionKind::Delegate)
        } else if same_text(s, "Staking.MsgUndelegate") {
            Some(DydxStakePermissionKind::Undelegate)
        } else if same_text(s, "Staking.Redelegate") {
            Some(DydxStakePermissionKind::Redelegate)
        } else if same_text(s, "Distribution.MsgWithdrawDelegatorReward") {
            Some(DydxStakePermissionKind::WithdrawDelegatorReward)
        } else {
            None
        }
    }
}

impl DydxStakeStatus {
    /// The value that the text `s` names, if any; each value may have several names.
    pub open spec fn parse_spec(s: Seq<char>) -> Option<DydxStakeStatus> {
        if s == "active"@ {
            Some(DydxStakeStatus::Active)
        } else if s == "pending"@ {
            Some(DydxStakeStatus::Pending)
        } else if s == "disabled"@ {
            Some(DydxStakeStatus::Disabled)
        } else {
            None
        }
    }

    pub fn from_wire(s: &str) -> (r: Option<DydxStakeStatus>)
        ensures
            r == DydxStakeStatus::parse_spec(s@),
    {
        if same_text(s, "active") {
            Some(DydxStakeStatus::Active)
        } else if same_text(s, "pending") {
            Some(DydxStakeStatus::Pending)
        } else if same_text(s, "disabled") {
            Some(DydxStakeStatus::Disabled)
        } else {
            None
        }
    }
}

impl DydxOperation {
    /// The kind of this operation.
    pub open spec fn kind_spec(&self) -> StakingOperationType {
        match self {
            DydxOperation::Delegate { .. } => StakingOperationType::Delegate,
            DydxOperation::Undelegate { .. } => StakingOperationType::Undelegate,
            DydxOperation::BeginRedelegate { .. } => StakingOperationType::BeginRedelegate,
            DydxOperation::WithdrawDelegatorReward { .. } => StakingOperationType::WithdrawDelegatorReward,
            DydxOperation::Grant { .. } => StakingOperationType::Grant,
            DydxOperation::Exec { .. } => StakingOperationType::Exec,
        }
    }

    pub fn operation_type(&self) -> (r: StakingOperationType)
        ensures
            r == self.kind_spec(),
    {
        match self {
            DydxOperation::Delegate { .. } => StakingOperationType::Delegate,
            DydxOperation::Undelegate { .. } => StakingOperationType::Undelegate,
            DydxOperation::BeginRedelegate { .. } => StakingOperationType::BeginRedelegate,
            DydxOperation::WithdrawDelegatorReward { .. } => StakingOperationType::WithdrawDelegatorReward,
            DydxOperation::Grant { .. } => StakingOperationType::Grant,
            DydxOperation::Exec { .. } => StakingOperationType::Exec,
        }
    }
}

} // verus!
