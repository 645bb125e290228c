//! The client of the MultiversX routes, under `/egld`, and the records they exchange.
use vstd::prelude::*;
use crate::Kiln;
use crate::ids::{uuid_texts, Uuid};
use crate::request::{chain_endpoint, get_bytes, get_json, query_url, resource_url, Endpoint, EndpointView, Request};
use crate::text::{comma_join, param_views, same_text, texts, QueryParam};
use crate::timestamp::{utc_text_of, UtcDateTime};
use crate::types::ReportsRequest;

verus! {

#[derive(Debug)]
pub struct MultiversxGetStakesRequest {
    pub wallets: Vec<String>,
    pub accounts: Vec<Uuid>,
    pub validators: Vec<String>,
}

#[derive(Debug)]
pub struct MultiversxRewardRequest {
    pub wallets: Vec<String>,
    pub accounts: Vec<Uuid>,
    pub validators: Vec<String>,
    pub start_date: UtcDateTime,
    pub end_date: UtcDateTime,
}

#[derive(Debug)]
pub struct MultiversxOperationsRequest {
    pub wallets: Vec<String>,
    pub accounts: Vec<Uuid>,
    pub validators: Vec<String>,
    pub start_date: UtcDateTime,
    pub end_date: UtcDateTime,
}

#[derive(Clone, Copy, Debug, PartialEq, Eq, Structural)]
pub enum MultiversxOperationType {
    AddNodes,
    ChangeOwner,
    ChangeServiceFee,
    GetAllNodeStates,
    ModifyTotalDelegationCap,
    RemoveNodes,
    RestakeUnstakedNodes,
    SetAutomaticActivation,
    SetCheckCapOnReDelegateRewards,
    SetMetaData,
    StakeNodes,
    SynchronizeOwner,
    UnBondNodes,
    UnJailNodes,
    Delegate,
    UnStakeNodes,
    WhitelistForMerge,
    UnDelegate,
    ClaimRewards,
    RedelegateRewards,
    Reward,
    Withdraw,
}

#[derive(Debug)]
pub struct MultiversxOperation {
    pub sender: String,
    pub receiver: String,
    pub tx_hash: String,
    pub tx_timestamp: UtcDateTime,
    pub amount: String,
    pub gas_used: String,
    pub kind: MultiversxOperationType,
}

/// The client of the operations under `/egld`.
#[derive(Debug)]
pub struct KilnMultiversxClient {
    endpoint: Endpoint,
}

impl View for KilnMultiversxClient {
    type V = EndpointView;

    closed spec fn view(&self) -> EndpointView {
        self.endpoint@
    }
}

impl KilnMultiversxClient {
    pub fn new(kiln: &Kiln) -> (r: KilnMultiversxClient)
        ensures
            r@ == chain_endpoint(kiln@, "egld"@),
    {
        KilnMultiversxClient { endpoint: Endpoint::for_chain(kiln, "egld") }
    }

    /// Reads `stakes`, with the filters as query parameters in the order the API documents.
    pub fn get_stakes(&self, stakes_request: &MultiversxGetStakesRequest) -> (r: Request)
        ensures
            r@ == get_json(self@, query_url(self@.base_url, "stakes"@, seq![
                ("validators"@, comma_join(texts(stakes_request.validators@))),
                ("delegators"@, comma_join(texts(stakes_request.wallets@))),
                ("accounts"@, comma_join(uuid_texts(stakes_request.accounts@))),
            ])),
    {
        let params = vec![
            QueryParam::new("validators", crate::text::join_values(&stakes_request.validators)),
            QueryParam::new("delegators", crate::text::join_values(&stakes_request.wallets)),
            QueryParam::new("accounts", crate::ids::join_uuids(&stakes_request.accounts)),
        ];
        let url = self.endpoint.url_with_query("stakes", &params);
        proof {
            assert(param_views(params@) =~= seq![
                    ("validators"@, comma_join(texts(stakes_request.validators@))),
                    ("delegators"@, comma_join(texts(stakes_request.wallets@))),
                    ("accounts"@, comma_join(uuid_texts(stakes_request.accounts@))),
                ]);
        }
        self.endpoint.get_json(url)
    }

    /// Reads `rewards`, with the filters as query parameters in the order the API documents.
    pub fn get_rewards(&self, reward_request: &MultiversxRewardRequest) -> (r: Request)
        ensures
            r@ == get_json(self@, query_url(self@.base_url, "rewards"@, seq![
                ("validators"@, comma_join(texts(reward_request.validators@))),
                ("delegators"@, comma_join(texts(reward_request.wallets@))),
                ("accounts"@, comma_join(uuid_texts(reward_request.accounts@))),
                ("start_date"@, utc_text_of(reward_request.start_date@.0, reward_request.start_date@.1)),
                ("end_date"@, utc_text_of(reward_request.end_date@.0, reward_request.end_date@.1)),
            ])),
    {
        let params = vec![
            QueryParam::new("validators", crate::text::join_values(&reward_request.validators)),
            QueryParam::new("delegators", crate::text::join_values(&reward_request.wallets)),
            QueryParam::new("accounts", crate::ids::join_uuids(&reward_request.accounts)),
            QueryParam::new("start_date", reward_request.start_date.text()),
            QueryParam::new("end_date", reward_request.end_date.text()),
        ];
        let url = self.endpoint.url_with_query("rewards", &params);
        proof {
            assert(param_views(params@) =~= seq![
                    ("validators"@, comma_join(texts(reward_request.validators@))),
                    ("delegators"@, comma_join(texts(reward_request.wallets@))),
                    ("accounts"@, comma_join(uuid_texts(reward_request.accounts@))),
                    ("start_date"@, utc_text_of(reward_request.start_date@.0, reward_request.start_date@.1)),
                    ("end_date"@, utc_text_of(reward_request.end_date@.0, reward_request.end_date@.1)),
                ]);
        }
        self.endpoint.get_json(url)
    }

    /// Reads `network-stats`.
    pub fn get_network_stats(&self) -> (r: Request)
        ensures
            r@ == get_json(self@, resource_url(self@.base_url, "network-stats"@)),
    {
        let url = self.endpoint.url("network-stats");
        self.endpoint.get_json(url)
    }

    /// Reads `operations`, with the filters as query parameters in the order the API documents.
    pub fn get_operations(
        &self,
        validator_operations_request: &MultiversxOperationsRequest,
    ) -> (r: Request)
        ensures
            r@ == get_json(self@, query_url(self@.base_url, "operations"@, seq![
                ("wallets"@, comma_join(texts(validator_operations_request.wallets@))),
                ("validators"@, comma_join(texts(validator_operations_request.validators@))),
                ("accounts"@, comma_join(uuid_texts(validator_operations_request.accounts@))),
                ("start_date"@, utc_text_of(validator_operations_request.start_date@.0, validator_operations_request.start_date@.1)),
                ("end_date"@, utc_text_of(validator_operations_request.end_date@.0, validator_operations_request.end_date@.1)),
            ])),
    {
        let params = vec![
            QueryParam::new("wallets", crate::text::join_values(&validator_operations_request.wallets)),
            QueryParam::new("validators", crate::text::join_values(&validator_operations_request.validators)),
            QueryParam::new("accounts", crate::ids::join_uuids(&validator_operations_request.accounts)),
            QueryParam::new("start_date", validator_operations_request.start_date.text()),
            QueryParam::new("end_date", validator_operations_request.end_date.text()),
        ];
        let url = self.endpoint.url_with_query("operations", &params);
        proof {
            assert(param_views(params@) =~= seq![
                    ("wallets"@, comma_join(texts(validator_operations_request.wallets@))),
                    ("validators"@, comma_join(texts(validator_operations_request.validators@))),
                    ("accounts"@, comma_join(uuid_texts(validator_operations_request.accounts@))),
                    ("start_date"@, utc_text_of(validator_operations_request.start_date@.0, validator_operations_request.start_date@.1)),
                    ("end_date"@, utc_text_of(validator_operations_request.end_date@.0, validator_operations_request.end_date@.1)),
                ]);
        }
        self.endpoint.get_json(url)
    }

    /// Downloads `reports` as raw bytes.
    pub fn get_reports(&self, reports_request: &ReportsRequest) -> (r: Request)
        ensures
            r@ == get_bytes(self@, query_url(self@.base_url, "reports"@, seq![
                ("validators"@, comma_join(texts(reports_request.validators@))),
                ("delegators"@, comma_join(texts(reports_request.delegators@))),
                ("accounts"@, comma_join(uuid_texts(reports_request.accounts@))),
            ])),
    {
        let params = vec![
            QueryParam::new("validators", crate::text::join_values(&reports_request.validators)),
            QueryParam::new("delegators", crate::text::join_values(&reports_request.delegators)),
            QueryParam::new("accounts", crate::ids::join_uuids(&reports_request.accounts)),
        ];
        let url = self.endpoint.url_with_query("reports", &params);
        proof {
            assert(param_views(params@) =~= seq![
                    ("validators"@, comma_join(texts(reports_request.validators@))),
                    ("delegators"@, comma_join(texts(reports_request.delegators@))),
                    ("accounts"@, comma_join(uuid_texts(reports_request.accounts@))),
                ]);
        }
        self.endpoint.get_bytes(url)
    }
}

impl MultiversxOperationType {
    /// The value that the text `s` names, if any; each value may have several names.
    pub open spec fn parse_spec(s: Seq<char>) -> Option<MultiversxOperationType> {
        if s == "addNodes"@ {
            Some(MultiversxOperationType::AddNodes)
        } else if s == "changeOwner"@ {
            Some(MultiversxOperationType::ChangeOwner)
        } else if s == "changeServiceFee"@ {
            Some(MultiversxOperationType::ChangeServiceFee)
        } else if s == "getAllNodeStates"@ {
            Some(MultiversxOperationType::GetAllNodeStates)
        } else if s == "modifyTotalDelegationCap"@ {
            Some(MultiversxOperationType::ModifyTotalDelegationCap)
        } else if s == "removeNodes"@ {
            Some(MultiversxOperationType::RemoveNodes)
        } else if s == "reStakeUnstakedNodes"@ {
            Some(MultiversxOperationType::RestakeUnstakedNodes)
        } else if s == "setAutomaticActivation"@ {
            Some(MultiversxOperationType::SetAutomaticActivation)
        } else if s == "setCheckCapOnReDelegateRewards"@ {
            Some(MultiversxOperationType::SetCheckCapOnReDelegateRewards)
        } else if s == "setMetaData"@ {
            Some(MultiversxOperationType::SetMetaData)
        } else if s == "stakeNodes"@ {
            Some(MultiversxOperationType::StakeNodes)
        } else if s == "synchronizeOwner"@ {
            Some(MultiversxOperationType::SynchronizeOwner)
        } else if s == "unBondNodes"@ {
            Some(MultiversxOperationType::UnBondNodes)
        } else if s == "unJailNodes"@ {
            Some(MultiversxOperationType::UnJailNodes)
        } else if s == "delegate"@ {
            Some(MultiversxOperationType::Delegate)
        } else if s == "unStakeNodes"@ {
            Some(MultiversxOperationType::UnStakeNodes)
        } else if s == "whitelistForMerge"@ {
            Some(MultiversxOperationType::WhitelistForMerge)
        } else if s == "undelegate"@ {
            Some(MultiversxOperationType::UnDelegate)
        } else if s == "claimRewards"@ {
            Some(MultiversxOperationType::ClaimRewards)
        } else if s == "reDelegateRewards"@ {
            Some(MultiversxOperationType::RedelegateRewards)
        } else if s == "reward"@ {
            Some(MultiversxOperationType::Reward)
        } else if s == "withdraw"@ {
            Some(MultiversxOperationType::Withdraw)
        } else {
            None
        }
    }

    pub fn from_wire(s: &str) -> (r: Option<MultiversxOperationType>)
        ensures
            r == MultiversxOperationType::parse_spec(s@),
    {
        if same_text(s, "addNodes") {
            Some(MultiversxOperationType::AddNodes)
        } else if same_text(s, "changeOwner") {
            Some(MultiversxOperationType::ChangeOwner)
        } else if same_text(s, "changeServiceFee") {
            Some(MultiversxOperationType::ChangeServiceFee)
        } else if same_text(s, "getAllNodeStates") {
            Some(MultiversxOperationType::GetAllNodeStates)
        } else if same_text(s, "modifyTotalDelegationCap") {
            Some(MultiversxOperationType::ModifyTotalDelegationCap)
        } else if same_text(s, "removeNodes") {
            Some(MultiversxOperationType::RemoveNodes)
        } else if same_text(s, "reStakeUnstakedNodes") {
            Some(MultiversxOperationType::RestakeUnstakedNodes)
        } else if same_text(s, "setAutomaticActivation") {
            Some(MultiversxOperationType::SetAutomaticActivation)
        } else if same_text(s, "setCheckCapOnReDelegateRewards") {
            Some(MultiversxOperationType::SetCheckCapOnReDelegateRewards)
        } else if same_text(s, "setMetaData") {
            Some(MultiversxOperationType::SetMetaData)
        } else if same_text(s, "stakeNodes") {
            Some(MultiversxOperationType::StakeNodes)
        } else if same_text(s, "synchronizeOwner") {
            Some(MultiversxOperationType::SynchronizeOwner)
        } else if same_text(s, "unBondNodes") {
            Some(MultiversxOperationType::UnBondNodes)
        } else if same_text(s, "unJailNodes") {
            Some(MultiversxOperationType::UnJailNodes)
        } else if same_text(s, "delegate") {
            Some(MultiversxOperationType::Delegate)
        } else if same_text(s, "unStakeNodes") {
            Some(MultiversxOperationType::UnStakeNodes)
        } else if same_text(s, "whitelistForMerge") {
            Some(MultiversxOperationType::WhitelistForMerge)
        } else if same_text(s, "undelegate") {
            Some(MultiversxOperationType::UnDelegate)
        } else if same_text(s, "claimRewards") {
            Some(MultiversxOperationType::ClaimRewards)
        } else if same_text(s, "reDelegateRewards") {
            Some(MultiversxOperationType::RedelegateRewards)
        } else if same_text(s, "reward") {
            Some(MultiversxOperationType::Reward)
        } else if same_text(s, "withdraw") {
            Some(MultiversxOperationType::Withdraw)
        } else {
            None
        }
    }
}

} // verus!
