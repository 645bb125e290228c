//! The client of the EigenLayer routes, under `/eth/eigenlayer`, and the records they exchange.
use vstd::prelude::*;
use crate::Kiln;
use crate::request::{chain_endpoint, get_json, query_url, resource_url, send_json, Endpoint, EndpointView, Method, Request};
use crate::text::{param_views, QueryParam};
use crate::types::ChainID;

verus! {

#[derive(Debug)]
pub struct OperatorMetadata {
    pub name: String,
    pub website: String,
    pub description: String,
    pub logo: String,
    pub twitter: String,
    pub bluesky: String,
    pub updated_at: u64,
}

#[derive(Debug)]
pub struct OperatorShare {
    pub strategy: String,
    pub token: String,
    pub shares: String,
}

#[derive(Debug)]
pub struct OperatorAutonomousVerifiableService {
    pub address: String,
    pub metadata: OperatorMetadata,
}

#[derive(Debug)]
pub struct EigenlayerOperator {
    pub address: String,
    pub metadata: OperatorMetadata,
    pub shares_breakdown: Vec<OperatorShare>,
}

#[derive(Debug)]
pub struct OperatorResponse {
    pub operator: EigenlayerOperator,
    pub avs: Vec<OperatorAutonomousVerifiableService>,
}

#[derive(Debug)]
pub struct Summary {
    pub eigenpod: String,
    pub owner: String,
    pub delegated_to: String,
    pub eigenpod_queuable_restaked_balance: String,
    pub eigenpod_redelegatable_balance: String,
    pub eigenpod_available_balance: String,
    pub eigenpod_pending_balance: String,
    pub eigenpod_withdrawable_balance: String,
    pub beaconchain_restaked_balance: String,
    pub beaconchain_pending_balance: String,
    pub beaconchain_restakable_balance: String,
}

#[derive(Debug)]
pub struct AutonomousVerifiableServiceReward {
    pub token_address: String,
    pub claimable_amount: String,
}

#[derive(Debug)]
pub struct Undelegation {
    pub id: String,
    pub shares: String,
    pub staker: String,
    pub delegated_to: String,
    pub withdrawer: String,
    pub nonce: String,
    pub block_number: u64,
    pub timestamp: u64,
    pub tx_hash: String,
    pub claimable: bool,
    pub claimable_at_block: u64,
    pub claimed: bool,
    pub claimed_tx_hash: String,
    pub withdrawable_as_eth: bool,
}

#[derive(Debug)]
pub struct LiquidDeposit {
    pub id: String,
    pub staker: String,
    pub strategy: String,
    pub token: String,
    pub shares: String,
    pub block_number: u64,
    pub timestamp: u64,
    pub tx_hash: String,
}

#[derive(Debug)]
pub struct EigenlayerToken {
    pub strategy: String,
    pub token: String,
    pub shares: String,
}

#[derive(Debug)]
pub struct EigenlayerWithdrawal {
    pub id: String,
    pub withdrawer: String,
    pub staker: String,
    pub delegated_to: String,
    pub nonce: u64,
    pub tokens: Vec<EigenlayerToken>,
    pub block_number: u64,
    pub timestamp: u64,
    pub tx_hash: String,
    pub claimable: bool,
    pub claimable_at_block: u64,
    pub claimed: bool,
    pub claimed_tx_hash: Option<String>,
}

#[derive(Debug)]
pub struct EigenlayerTxRequest {
    pub earner_address: String,
    pub receiver_address: String,
    pub token_addresses: Vec<String>,
}

#[derive(Debug)]
pub struct EigenlayerTxResponse {
    pub unsigned_tx_hash: String,
    pub unsigned_tx_serialized: String,
    pub to: String,
    pub contract_call_data: String,
    pub amount_wei: String,
    pub nonce: u64,
    pub gas_limit: u64,
    pub max_priority_fee_per_gas_wei: String,
    pub max_fee_per_gas_wei: String,
    pub chain_id: ChainID,
}

#[derive(Debug)]
pub struct EigenlayerPostTx {
    pub wallet: String,
    pub validator_indexes: Vec<u64>,
}

/// The client of the operations under `/eth/eigenlayer`.
#[derive(Debug)]
pub struct KilnEigenlayerClient {
    endpoint: Endpoint,
}

impl View for KilnEigenlayerClient {
    type V = EndpointView;

    closed spec fn view(&self) -> EndpointView {
        self.endpoint@
    }
}

impl KilnEigenlayerClient {
    pub fn new(kiln: &Kiln) -> (r: KilnEigenlayerClient)
        ensures
            r@ == chain_endpoint(kiln@, "eth/eigenlayer"@),
    {
        KilnEigenlayerClient { endpoint: Endpoint::for_chain(kiln, "eth/eigenlayer") }
    }

    /// The same call as `autonomous_verifiable_service_rewards`.
    pub fn avs_rewards(&self, wallet: &str) -> (r: Request)
        ensures
            r@ == get_json(self@, query_url(self@.base_url, "avs-rewards"@, seq![("wallet"@, wallet@)])),
    {
        self.autonomous_verifiable_service_rewards(wallet)
    }

    /// Reads `eigenpod`, with the filters as query parameters in the order the API documents.
    pub fn eigenpod(&self, wallet: &str) -> (r: Request)
        ensures
            r@ == get_json(self@, query_url(self@.base_url, "eigenpod"@, seq![
                ("wallet"@, wallet@),
            ])),
    {
        let params = vec![
            QueryParam::new("wallet", String::from_str(wallet)),
        ];
        let url = self.endpoint.url_with_query("eigenpod", &params);
        proof {
            assert(param_views(params@) =~= seq![
                    ("wallet"@, wallet@),
                ]);
        }
        self.endpoint.get_json(url)
    }

    /// Reads `operator`, with the filters as query parameters in the order the API documents.
    pub fn operator(&self, operator_address: &str) -> (r: Request)
        ensures
            r@ == get_json(self@, query_url(self@.base_url, "operator"@, seq![
                ("operator"@, operator_address@),
            ])),
    {
        let params = vec![
            QueryParam::new("operator", String::from_str(operator_address)),
        ];
        let url = self.endpoint.url_with_query("operator", &params);
        proof {
            assert(param_views(params@) =~= seq![
                    ("operator"@, operator_address@),
                ]);
        }
        self.endpoint.get_json(url)
    }

    /// Reads `summary`, with the filters as query parameters in the order the API documents.
    pub fn summary(&self, wallet: &str) -> (r: Request)
        ensures
            r@ == get_json(self@, query_url(self@.base_url, "summary"@, seq![
                ("wallet"@, wallet@),
            ])),
    {
        let params = vec![
            QueryParam::new("wallet", String::from_str(wallet)),
        ];
        let url = self.endpoint.url_with_query("summary", &params);
        proof {
            assert(param_views(params@) =~= seq![
                    ("wallet"@, wallet@),
                ]);
        }
        self.endpoint.get_json(url)
    }

    /// Reads `avs-rewards`, with the filters as query parameters in the order the API documents.
    pub fn autonomous_verifiable_service_rewards(&self, wallet: &str) -> (r: Request)
        ensures
            r@ == get_json(self@, query_url(self@.base_url, "avs-rewards"@, seq![
                ("wallet"@, wallet@),
            ])),
    {
        let params = vec![
            QueryParam::new("wallet", String::from_str(wallet)),
        ];
        let url = self.endpoint.url_with_query("avs-rewards", &params);
        proof {
            assert(param_views(params@) =~= seq![
                    ("wallet"@, wallet@),
                ]);
        }
        self.endpoint.get_json(url)
    }

    /// Reads `native/points`, with the filters as query parameters in the order the API documents.
    pub fn native_points(&self, wallet: &str) -> (r: Request)
        ensures
            r@ == get_json(self@, query_url(self@.base_url, "native/points"@, seq![
                ("wallet"@, wallet@),
            ])),
    {
        let params = vec![
            QueryParam::new("wallet", String::from_str(wallet)),
        ];
        let url = self.endpoint.url_with_query("native/points", &params);
        proof {
            assert(param_views(params@) =~= seq![
                    ("wallet"@, wallet@),
                ]);
        }
        self.endpoint.get_json(url)
    }

    /// Reads `native/undelegations`, with the filters as query parameters in the order the API documents.
    pub fn undelegation(&self, wallet: &str) -> (r: Request)
        ensures
            r@ == get_json(self@, query_url(self@.base_url, "native/undelegations"@, seq![
                ("wallet"@, wallet@),
            ])),
    {
        let params = vec![
            QueryParam::new("wallet", String::from_str(wallet)),
        ];
        let url = self.endpoint.url_with_query("native/undelegations", &params);
        proof {
            assert(param_views(params@) =~= seq![
                    ("wallet"@, wallet@),
                ]);
        }
        self.endpoint.get_json(url)
    }

    /// Reads `liquid/points`, with the filters as query parameters in the order the API documents.
    pub fn liquid_points(&self, wallet: &str) -> (r: Request)
        ensures
            r@ == get_json(self@, query_url(self@.base_url, "liquid/points"@, seq![
                ("wallet"@, wallet@),
            ])),
    {
        let params = vec![
            QueryParam::new("wallet", String::from_str(wallet)),
        ];
        let url = self.endpoint.url_with_query("liquid/points", &params);
        proof {
            assert(param_views(params@) =~= seq![
                    ("wallet"@, wallet@),
                ]);
        }
        self.endpoint.get_json(url)
    }

    /// Reads `liquid/deposits`, with the filters as query parameters in the order the API documents.
    pub fn liquid_deposits(&self, wallet: &str) -> (r: Request)
        ensures
            r@ == get_json(self@, query_url(self@.base_url, "liquid/deposits"@, seq![
                ("wallet"@, wallet@),
            ])),
    {
        let params = vec![
            QueryParam::new("wallet", String::from_str(wallet)),
        ];
        let url = self.endpoint.url_with_query("liquid/deposits", &params);
        proof {
            assert(param_views(params@) =~= seq![
                    ("wallet"@, wallet@),
                ]);
        }
        self.endpoint.get_json(url)
    }

    /// Reads `liquid/withdrawals`, with the filters as query parameters in the order the API documents.
    pub fn withdrawals(&self, wallet: &str) -> (r: Request)
        ensures
            r@ == get_json(self@, query_url(self@.base_url, "liquid/withdrawals"@, seq![
                ("wallet"@, wallet@),
            ])),
    {
        let params = vec![
            QueryParam::new("wallet", String::from_str(wallet)),
        ];
        let url = self.endpoint.url_with_query("liquid/withdrawals", &params);
        proof {
            assert(param_views(params@) =~= seq![
                    ("wallet"@, wallet@),
                ]);
        }
        self.endpoint.get_json(url)
    }

    /// Sends the JSON `body` to `transaction/claim-rewards`.
    pub fn claim_rewards_tx(&self, body: String) -> (r: Request)
        ensures
            r@ == send_json(self@, Method::Post, resource_url(self@.base_url, "transaction/claim-rewards"@), body@),
    {
        let url = self.endpoint.url("transaction/claim-rewards");
        self.endpoint.send_json(Method::Post, url, body)
    }

    /// Sends the JSON `body` to `transaction/verify-checkpoint-proofs`.
    pub fn generate_checkpoint_proofs_tx(&self, body: String) -> (r: Request)
        ensures
            r@ == send_json(self@, Method::Post, resource_url(self@.base_url, "transaction/verify-checkpoint-proofs"@), body@),
    {
        let url = self.endpoint.url("transaction/verify-checkpoint-proofs");
        self.endpoint.send_json(Method::Post, url, body)
    }

    /// Sends the JSON `body` to `transaction/verify-withdrawal-credentials`.
    pub fn verify_withdraw_credentials_tx(&self, body: String) -> (r: Request)
        ensures
            r@ == send_json(self@, Method::Post, resource_url(self@.base_url, "transaction/verify-withdrawal-credentials"@), body@),
    {
        let url = self.endpoint.url("transaction/verify-withdrawal-credentials");
        self.endpoint.send_json(Method::Post, url, body)
    }
}

} // verus!
