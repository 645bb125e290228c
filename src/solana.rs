//! The client of the Solana routes, under `/sol`, and the records they exchange.
use vstd::prelude::*;
use crate::Kiln;
use crate::ids::{uuid_texts, Uuid};
use crate::request::{chain_endpoint, get_bytes, get_json, query_url, resource_url, send_json, Endpoint, EndpointView, Method, Request};
use crate::text::{bool_text, comma_join, decimal, param_views, texts, QueryParam};
use crate::timestamp::{utc_text_of, UtcDateTime};
use crate::types::ResponseFormat;

verus! {

#[derive(Debug)]
pub struct SolanaGetStakesRequest {
    pub stake_accounts: Vec<Uuid>,
    pub validators: Vec<String>,
    pub wallets: Vec<String>,
    pub accounts: Vec<Uuid>,
}

#[derive(Debug)]
pub struct SolanaStakeRequestStake {
    pub stake_account: String,
    pub balance: String,
}

#[derive(Debug)]
pub struct SolanaPostStakesRequest {
    pub stakes: Vec<SolanaStakeRequestStake>,
    pub account_id: Uuid,
}

#[derive(Debug)]
pub enum SolanaRewardRequest {
    Daily {
        stakes_accounts: Vec<String>,
        validators: Vec<String>,
        wallets: Vec<String>,
        accounts: Vec<Uuid>,
        format: ResponseFormat,
        start_date: UtcDateTime,
        end_date: UtcDateTime,
        include_usd: bool,
    },
    Epoch {
        stakes_addresses: Vec<String>,
        wallets: Vec<String>,
        pool_ids: Vec<String>,
        accounts: Vec<Uuid>,
        format: ResponseFormat,
        start_date: UtcDateTime,
        end_date: UtcDateTime,
        start_epoch: u64,
        end_epoch: u64,
    },
}

#[derive(Debug)]
pub struct SolanaOperationsRequest {
    pub stake_accounts: Vec<Uuid>,
    pub wallets: Vec<String>,
    pub accounts: Vec<Uuid>,
    pub start_date: UtcDateTime,
    pub end_date: UtcDateTime,
}

#[derive(Debug)]
pub enum SolanaOperation {
    CreateAccountWithSeed {
        kind: String,
        time: UtcDateTime,
        tx_hash: String,
        tx_fee: String,
        tx_memo: Option<String>,
        block: u64,
        stake_account: String,
        amount: String,
        stake_authority: String,
    },
    CreateAccount {
        kind: String,
        time: UtcDateTime,
        tx_hash: String,
        tx_fee: String,
        tx_memo: Option<String>,
        block: u64,
        stake_account: String,
        amount: String,
        stake_authority: String,
    },
    Delegate {
        kind: String,
        time: UtcDateTime,
        tx_hash: String,
        tx_fee: String,
        tx_memo: Option<String>,
        block: u64,
        stake_account: String,
        vote_account: String,
        stake_authority: String,
    },
    Deactivate {
        kind: String,
        time: UtcDateTime,
        tx_hash: String,
        tx_fee: String,
        tx_memo: Option<String>,
        block: u64,
        stake_account: String,
        stake_authority: String,
    },
    Redelegate {
        kind: String,
        time: UtcDateTime,
        tx_hash: String,
        tx_fee: String,
        tx_memo: Option<String>,
        block: u64,
        stake_account: String,
        new_stake_account: String,
        vote_account: String,
        stake_authority: String,
    },
    Split {
        kind: String,
        time: UtcDateTime,
        tx_hash: String,
        tx_fee: String,
        tx_memo: Option<String>,
        block: u64,
        stake_account: Option<String>,
        new_stake_account: String,
        amount: String,
        stake_authority: String,
    },
    Withdraw {
        kind: String,
        time: UtcDateTime,
        tx_hash: String,
        tx_fee: String,
        tx_memo: Option<String>,
        block: u64,
        stake_account: String,
        destination_account: String,
        amount: String,
        stake_authority: String,
    },
    Merge {
        kind: String,
        time: UtcDateTime,
        tx_hash: String,
        tx_fee: String,
        tx_memo: Option<String>,
        block: u64,
        stake_account: String,
        source_stake_account: String,
        stake_authority: String,
    },
}

#[derive(Debug)]
pub struct SolanaReportsRequest {
    pub stake_accounts: Vec<Uuid>,
    pub accounts: Vec<Uuid>,
    pub wallets: Vec<String>,
}

#[derive(Debug)]
pub struct NonceAccount {
    pub nonce_account: String,
    pub nonce_account_authority: String,
}

#[derive(Debug)]
pub struct SolanaUnsignedTxHeader {
    pub num_required_signatures: u64,
    pub num_readonly_signed_accounts: u64,
    pub num_readonly_unsigned_accounts: u64,
}

#[derive(Debug)]
pub struct SolanaUnsignedTxInstruction {
    pub program_id_index: u64,
    pub accounts: Vec<u64>,
    pub data: String,
}

#[derive(Debug)]
pub struct SolanaStakeTxRequest {
    pub account_id: Uuid,
    pub wallet: String,
    pub amount_lamports: String,
    pub vote_account_address: String,
    pub memo: String,
}

#[derive(Debug)]
pub struct SolanaDeactivateStakeTxRequest {
    pub stake_account: String,
    pub wallet: String,
}

#[derive(Debug)]
pub struct SolanaWithdrawStakeTxRequest {
    pub stake_account: String,
    pub wallet: String,
    pub amount_lamports: String,
}

#[derive(Debug)]
pub struct SolanaMergeStakeTxRequest {
    pub stake_account_source: String,
    pub stake_account_destination: String,
    pub wallet: String,
}

#[derive(Debug)]
pub struct SolanaSplitStakeTxRequest {
    pub account_id: Uuid,
    pub stake_account: String,
    pub wallet: String,
    pub amount_lamports: String,
}

#[derive(Debug)]
pub struct SolanaPrepareTxRequest {
    pub unsigned_tx_serialized: String,
    pub signatures: Vec<String>,
}

#[derive(Debug)]
pub struct SolanaTokenAmount {
    pub amount: String,
    pub decimals: String,
    pub ui_amount: Option<u64>,
    pub ui_amount_string: Option<String>,
}

#[derive(Debug)]
pub struct SolanaTokenBalance {
    pub account_index: u64,
    pub mint: String,
    pub owner: Option<String>,
}

#[derive(Debug)]
pub struct LoadedAddress {
    pub writable: Vec<String>,
    pub readonly: Vec<String>,
}

#[derive(Debug)]
pub struct SolanaTxReceiptMeta {
    pub compute_units_consumed: u64,
    pub err: Option<String>,
    pub fee: u64,
    pub pre_balances: Vec<u64>,
    pub post_balances: Vec<u64>,
    pub log_messages: Option<Vec<String>>,
    pub pre_token_balances: Option<Vec<SolanaTokenBalance>>,
    pub post_token_balances: Option<Vec<SolanaTokenBalance>>,
    pub loaded_addresses: Vec<LoadedAddress>,
    pub rewards: Vec<SolanaTxReceiptReward>,
    pub status: SolanaTxReceiptStatus,
}

#[derive(Debug)]
pub struct SolanaTxReceiptReward {
    pub pubkey: String,
    pub lamports: u64,
    pub post_balance: Option<u64>,
    pub reward_type: Option<u64>,
    pub commission: Option<u64>,
}

#[derive(Debug)]
pub struct SolanaTxReceiptStatus {
    pub ok: Option<String>,
}

#[derive(Debug)]
pub struct SolanaTxDecodeInstructionKey {
    pub pubkey: String,
    pub is_signer: bool,
    pub is_writable: bool,
}

#[derive(Debug)]
pub struct SolanaTxDecodeInstruction {
    pub keys: Vec<SolanaTxDecodeInstructionKey>,
    pub program_id: String,
    pub data: Vec<u64>,
}

#[derive(Debug)]
pub struct SolanaTxDecodeResponse {
    pub recent_blockhash: String,
    pub fee_payer: String,
    pub nonce_info: Option<String>,
    pub instructions: Vec<SolanaTxDecodeInstruction>,
    pub signers: Vec<String>,
}

/// The client of the operations under `/sol`.
#[derive(Debug)]
pub struct KilnSolanaClient {
    endpoint: Endpoint,
}

impl View for KilnSolanaClient {
    type V = EndpointView;

    closed spec fn view(&self) -> EndpointView {
        self.endpoint@
    }
}

impl KilnSolanaClient {
    pub fn new(kiln: &Kiln) -> (r: KilnSolanaClient)
        ensures
            r@ == chain_endpoint(kiln@, "sol"@),
    {
        KilnSolanaClient { endpoint: Endpoint::for_chain(kiln, "sol") }
    }

    /// The reward history, in the daily or the per-epoch form.
    pub fn get_rewards(&self, reward_request: SolanaRewardRequest) -> (r: Request)
        ensures
            r@ == get_json(self@, query_url(self@.base_url, "rewards"@, solana_reward_query(reward_request))),
    {
        let params = match &reward_request {
            SolanaRewardRequest::Daily {
                stakes_accounts,
                validators,
                wallets,
                accounts,
                format,
                start_date,
                end_date,
                include_usd,
            } => vec![
                QueryParam::new("stake_accounts", crate::text::join_values(stakes_accounts)),
                QueryParam::new("validators", crate::text::join_values(validators)),
                QueryParam::new("wallets", crate::text::join_values(wallets)),
                QueryParam::new("accounts", crate::ids::join_uuids(accounts)),
                QueryParam::new("format", String::from_str(format.as_str())),
                QueryParam::new("start_date", start_date.text()),
                QueryParam::new("end_date", end_date.text()),
                QueryParam::new("include_usd", crate::text::bool_to_text(*include_usd)),
            ],
            SolanaRewardRequest::Epoch {
                stakes_addresses,
                wallets,
                pool_ids,
                accounts,
                format,
                start_date,
                end_date,
                start_epoch,
                end_epoch,
            } => vec![
                QueryParam::new("stakes_addresses", crate::text::join_values(stakes_addresses)),
                QueryParam::new("wallets", crate::text::join_values(wallets)),
                QueryParam::new("pool_ids", crate::text::join_values(pool_ids)),
                QueryParam::new("accounts", crate::ids::join_uuids(accounts)),
                QueryParam::new("format", String::from_str(format.as_str())),
                QueryParam::new("start_date", start_date.text()),
                QueryParam::new("end_date", end_date.text()),
                QueryParam::new("start_epoch", crate::text::decimal_text(*start_epoch)),
                QueryParam::new("end_epoch", crate::text::decimal_text(*end_epoch)),
            ],
        };
        proof {
            assert(param_views(params@) =~= solana_reward_query(reward_request));
        }
        let url = self.endpoint.url_with_query("rewards", &params);
        self.endpoint.get_json(url)
    }

    /// Reads `stakes`, with the filters as query parameters in the order the API documents.
    pub fn get_stakes(&self, stakes_request: &SolanaGetStakesRequest) -> (r: Request)
        ensures
            r@ == get_json(self@, query_url(self@.base_url, "stakes"@, seq![
                ("validators"@, comma_join(texts(stakes_request.validators@))),
                ("stake_accounts"@, comma_join(uuid_texts(stakes_request.stake_accounts@))),
                ("accounts"@, comma_join(uuid_texts(stakes_request.accounts@))),
                ("wallets"@, comma_join(texts(stakes_request.wallets@))),
            ])),
    {
        let params = vec![
            QueryParam::new("validators", crate::text::join_values(&stakes_request.validators)),
            QueryParam::new("stake_accounts", crate::ids::join_uuids(&stakes_request.stake_accounts)),
            QueryParam::new("accounts", crate::ids::join_uuids(&stakes_request.accounts)),
            QueryParam::new("wallets", crate::text::join_values(&stakes_request.wallets)),
        ];
        let url = self.endpoint.url_with_query("stakes", &params);
        proof {
            assert(param_views(params@) =~= seq![
                    ("validators"@, comma_join(texts(stakes_request.validators@))),
                    ("stake_accounts"@, comma_join(uuid_texts(stakes_request.stake_accounts@))),
                    ("accounts"@, comma_join(uuid_texts(stakes_request.accounts@))),
                    ("wallets"@, comma_join(texts(stakes_request.wallets@))),
                ]);
        }
        self.endpoint.get_json(url)
    }

    /// Sends the JSON `body` to `stakes`.
    pub fn post_stakes(&self, body: String) -> (r: Request)
        ensures
            r@ == send_json(self@, Method::Post, resource_url(self@.base_url, "stakes"@), body@),
    {
        let url = self.endpoint.url("stakes");
        self.endpoint.send_json(Method::Post, url, body)
    }

    /// Reads `operations`, with the filters as query parameters in the order the API documents.
    pub fn get_operations(
        &self,
        validator_operations_request: &SolanaOperationsRequest,
    ) -> (r: Request)
        ensures
            r@ == get_json(self@, query_url(self@.base_url, "operations"@, seq![
                ("stake_accounts"@, comma_join(uuid_texts(validator_operations_request.stake_accounts@))),
                ("wallets"@, comma_join(texts(validator_operations_request.wallets@))),
                ("accounts"@, comma_join(uuid_texts(validator_operations_request.accounts@))),
                ("start_date"@, utc_text_of(validator_operations_request.start_date@.0, validator_operations_request.start_date@.1)),
                ("end_date"@, utc_text_of(validator_operations_request.end_date@.0, validator_operations_request.end_date@.1)),
            ])),
    {
        let params = vec![
            QueryParam::new("stake_accounts", crate::ids::join_uuids(&validator_operations_request.stake_accounts)),
            QueryParam::new("wallets", crate::text::join_values(&validator_operations_request.wallets)),
            QueryParam::new("accounts", crate::ids::join_uuids(&validator_operations_request.accounts)),
            QueryParam::new("start_date", validator_operations_request.start_date.text()),
            QueryParam::new("end_date", validator_operations_request.end_date.text()),
        ];
        let url = self.endpoint.url_with_query("operations", &params);
        proof {
            assert(param_views(params@) =~= seq![
                    ("stake_accounts"@, comma_join(uuid_texts(validator_operations_request.stake_accounts@))),
                    ("wallets"@, comma_join(texts(validator_operations_request.wallets@))),
                    ("accounts"@, comma_join(uuid_texts(validator_operations_request.accounts@))),
                    ("start_date"@, utc_text_of(validator_operations_request.start_date@.0, validator_operations_request.start_date@.1)),
                    ("end_date"@, utc_text_of(validator_operations_request.end_date@.0, validator_operations_request.end_date@.1)),
                ]);
        }
        self.endpoint.get_json(url)
    }

    /// Downloads `network-stats` as raw bytes.
    pub fn get_network_stats(&self) -> (r: Request)
        ensures
            r@ == get_json(self@, resource_url(self@.base_url, "network-stats"@)),
    {
        let url = self.endpoint.url("network-stats");
        self.endpoint.get_json(url)
    }

    /// Downloads `reports` as raw bytes.
    pub fn get_reports(&self, reports_request: &SolanaReportsRequest) -> (r: Request)
        ensures
            r@ == get_bytes(self@, query_url(self@.base_url, "reports"@, seq![
                ("stake_accounts"@, comma_join(uuid_texts(reports_request.stake_accounts@))),
                ("accounts"@, comma_join(uuid_texts(reports_request.accounts@))),
                ("wallets"@, comma_join(texts(reports_request.wallets@))),
            ])),
    {
        let params = vec![
            QueryParam::new("stake_accounts", crate::ids::join_uuids(&reports_request.stake_accounts)),
            QueryParam::new("accounts", crate::ids::join_uuids(&reports_request.accounts)),
            QueryParam::new("wallets", crate::text::join_values(&reports_request.wallets)),
        ];
        let url = self.endpoint.url_with_query("reports", &params);
        proof {
            assert(param_views(params@) =~= seq![
                    ("stake_accounts"@, comma_join(uuid_texts(reports_request.stake_accounts@))),
                    ("accounts"@, comma_join(uuid_texts(reports_request.accounts@))),
                    ("wallets"@, comma_join(texts(reports_request.wallets@))),
                ]);
        }
        self.endpoint.get_bytes(url)
    }

    /// Sends the JSON `body` to `nonce-account`.
    pub fn get_nonce_account(&self) -> (r: Request)
        ensures
            r@ == get_json(self@, resource_url(self@.base_url, "nonce-account"@)),
    {
        let url = self.endpoint.url("nonce-account");
        self.endpoint.get_json(url)
    }

    /// Sends the JSON `body` to `transaction/stake`.
    pub fn post_stake_tx(&self, body: String) -> (r: Request)
        ensures
            r@ == send_json(self@, Method::Post, resource_url(self@.base_url, "transaction/stake"@), body@),
    {
        let url = self.endpoint.url("transaction/stake");
        self.endpoint.send_json(Method::Post, url, body)
    }

    /// Sends the JSON `body` to `transaction/deactivate-stake`.
    pub fn post_deactivate_stake_tx(&self, body: String) -> (r: Request)
        ensures
            r@ == send_json(self@, Method::Post, resource_url(self@.base_url, "transaction/deactivate-stake"@), body@),
    {
        let url = self.endpoint.url("transaction/deactivate-stake");
        self.endpoint.send_json(Method::Post, url, body)
    }

    /// Sends the JSON `body` to `withdraw-stake`.
    pub fn post_withdraw_stake_tx(&self, body: String) -> (r: Request)
        ensures
            r@ == send_json(self@, Method::Post, resource_url(self@.base_url, "withdraw-stake"@), body@),
    {
        let url = self.endpoint.url("withdraw-stake");
        self.endpoint.send_json(Method::Post, url, body)
    }

    /// Sends the JSON `body` to `merge-stake`.
    pub fn post_merge_stake_tx(&self, body: String) -> (r: Request)
        ensures
            r@ == send_json(self@, Method::Post, resource_url(self@.base_url, "merge-stake"@), body@),
    {
        let url = self.endpoint.url("merge-stake");
        self.endpoint.send_json(Method::Post, url, body)
    }

    /// Sends the JSON `body` to `split-stake`.
    pub fn post_split_stake_tx(&self, body: String) -> (r: Request)
        ensures
            r@ == send_json(self@, Method::Post, resource_url(self@.base_url, "split-stake"@), body@),
    {
        let url = self.endpoint.url("split-stake");
        self.endpoint.send_json(Method::Post, url, body)
    }

    /// Sends the JSON `body` to `transaction/prepare`.
    pub fn post_prepare_tx(&self, body: String) -> (r: Request)
        ensures
            r@ == send_json(self@, Method::Post, resource_url(self@.base_url, "transaction/prepare"@), body@),
    {
        let url = self.endpoint.url("transaction/prepare");
        self.endpoint.send_json(Method::Post, url, body)
    }

    /// Sends the JSON `body` to `transaction/broadcast`.
    pub fn post_broadcast_tx(&self, body: String) -> (r: Request)
        ensures
            r@ == send_json(self@, Method::Post, resource_url(self@.base_url, "transaction/broadcast"@), body@),
    {
        let url = self.endpoint.url("transaction/broadcast");
        self.endpoint.send_json(Method::Post, url, body)
    }

    /// Reads `transaction/status`, with the filters as query parameters in the order the API documents.
    pub fn get_tx_status(&self, tx_hash: &str) -> (r: Request)
        ensures
            r@ == get_json(self@, query_url(self@.base_url, "transaction/status"@, seq![
                ("tx_hash"@, tx_hash@),
            ])),
    {
        let params = vec![
            QueryParam::new("tx_hash", String::from_str(tx_hash)),
        ];
        let url = self.endpoint.url_with_query("transaction/status", &params);
        proof {
            assert(param_views(params@) =~= seq![
                    ("tx_hash"@, tx_hash@),
                ]);
        }
        self.endpoint.get_json(url)
    }

    /// Reads `transaction/decode`, with the filters as query parameters in the order the API documents.
    pub fn get_tx_decoding(&self, tx_serialized: &str) -> (r: Request)
        ensures
            r@ == get_json(self@, query_url(self@.base_url, "transaction/decode"@, seq![
                ("tx_serialized"@, tx_serialized@),
            ])),
    {
        let params = vec![
            QueryParam::new("tx_serialized", String::from_str(tx_serialized)),
        ];
        let url = self.endpoint.url_with_query("transaction/decode", &params);
        proof {
            assert(param_views(params@) =~= seq![
                    ("tx_serialized"@, tx_serialized@),
                ]);
        }
        self.endpoint.get_json(url)
    }
}

/// The query of a Solana reward request: the daily form by stake account and
/// validator, or the per-epoch form by stake address and pool.
pub open spec fn solana_reward_query(req: SolanaRewardRequest) -> Seq<(Seq<char>, Seq<char>)> {
    match req {
        SolanaRewardRequest::Daily {
            stakes_accounts,
            validators,
            wallets,
            accounts,
            format,
            start_date,
            end_date,
            include_usd,
        } => seq![
            ("stake_accounts"@, comma_join(texts(stakes_accounts@))),
            ("validators"@, comma_join(texts(validators@))),
            ("wallets"@, comma_join(texts(wallets@))),
            ("accounts"@, comma_join(uuid_texts(accounts@))),
            ("format"@, format.wire_name()),
            ("start_date"@, utc_text_of(start_date@.0, start_date@.1)),
            ("end_date"@, utc_text_of(end_date@.0, end_date@.1)),
            ("include_usd"@, bool_text(include_usd)),
        ],
        SolanaRewardRequest::Epoch {
            stakes_addresses,
            wallets,
            pool_ids,
            accounts,
            format,
            start_date,
            end_date,
            start_epoch,
            end_epoch,
        } => seq![
            ("stakes_addresses"@, comma_join(texts(stakes_addresses@))),
            ("wallets"@, comma_join(texts(wallets@))),
            ("pool_ids"@, comma_join(texts(pool_ids@))),
            ("accounts"@, comma_join(uuid_texts(accounts@))),
            ("format"@, format.wire_name()),
            ("start_date"@, utc_text_of(start_date@.0, start_date@.1)),
            ("end_date"@, utc_text_of(end_date@.0, end_date@.1)),
            ("start_epoch"@, decimal(start_epoch as nat)),
            ("end_epoch"@, decimal(end_epoch as nat)),
        ],
    }
}

} // verus!
