//! Records and enums shared by several chains.
use vstd::prelude::*;
use crate::ids::{join_uuids, uuid_texts, Uuid};
use crate::text::{bool_text, bool_to_text, comma_join, decimal, decimal_text, join_values, param_views, same_text, texts, QueryParam};
use crate::timestamp::{utc_text_of, UtcDateTime};

verus! {

#[derive(Debug)]
pub struct ActivatingStakes {
    pub amount: u64,
    pub amount_usd: u64,
    pub total: u64,
}

#[derive(Debug)]
pub struct Any {
    pub type_url: String,
    pub value: Vec<u8>,
}

#[derive(Debug)]
pub struct BroadcastTxRequest {
    pub tx_serialized: String,
}

#[derive(Debug)]
pub struct BroadcastTxResponse {
    pub tx_hash: String,
}

#[derive(Debug)]
pub struct BitArray {
    pub extra_bits_stored: u64,
    pub elems: Vec<u8>,
}

#[derive(Clone, Copy, Debug, PartialEq, Eq, Structural)]
pub enum ChainID {
    ArbitrumOne,
    AvalanceCChain,
    BNBSmartChainMainnet,
    CoinBase,
    EthereumMainnet,
    PolygonMainnet,
    Sepolia,
    Holesky,
    OptimismMainnet,
}

#[derive(Clone, Copy, Debug, PartialEq, Eq, Structural)]
pub enum Chain {
    Arb,
    Eth,
    Bsc,
    Matic,
    Base,
    Op,
    CosmosHub4,
}

#[derive(Clone, Copy, Debug, PartialEq, Eq, Structural)]
pub enum ChainStakeState {
    Active,
}

#[derive(Debug)]
pub struct CreateStakeRequest {
    pub stake_address: String,
}

#[derive(Debug)]
pub struct EventAttribute {
    pub key: String,
    pub value: String,
}

#[derive(Debug)]
pub struct GetStakesRequest {
    pub validators: Vec<String>,
    pub delegators: Vec<String>,
    pub accounts: Vec<Uuid>,
}

#[derive(Debug)]
pub struct GetBalanceRequest {
    pub address: String,
    pub denom: String,
}

#[derive(Debug)]
pub enum ModeInfo {
    Single {
        mode: SignMode,
    },
    Multi {
        bitarray: Option<BitArray>,
        mode_infos: Vec<ModeInfo>,
    },
}

#[derive(Clone, Copy, Debug, PartialEq, Eq, Structural)]
pub enum Operation {
    Deposit,
    Withdrawal,
}

#[derive(Debug)]
pub struct Operations {
    pub owner: String,
    pub kind: Operation,
    pub assets: String,
    pub shares: String,
    pub sender: String,
    pub timestamp: String,
    pub tx_hash: String,
    pub vault: String,
    pub chain: String,
}

#[derive(Clone, Copy, Debug, PartialEq, Eq, Structural)]
pub enum OperationType {
    StakeRegisteration,
    StakeDeregisteration,
    Delegation,
    Reward,
    Withdrawal,
}

#[derive(Debug)]
pub enum OperationsResponse {
    StakeRegisteration {
        kind: String,
        time: UtcDateTime,
        stake_address: String,
        epoch: u64,
        block: u64,
        tx_hash: String,
    },
    StakeDeregisteration {
        kind: String,
        time: UtcDateTime,
        stake_address: String,
        epoch: u64,
        block: u64,
        tx_hash: String,
    },
    Delegation {
        kind: String,
        time: UtcDateTime,
        stake_address: String,
        epoch: u64,
        block: u64,
        tx_hash: String,
        pool_id: String,
    },
    Reward {
        kind: String,
        time: UtcDateTime,
        stake_address: String,
        epoch: u64,
        block: u64,
        pool_id: String,
        amount: String,
    },
    Withdrawal {
        kind: String,
        time: UtcDateTime,
        stake_address: String,
        epoch: u64,
        block: u64,
        pool_id: String,
        amount: String,
    },
}

#[derive(Debug)]
pub struct PrepareTxRequest {
    pub pubkey: String,
    pub tx_body: String,
    pub tx_auth_info: String,
    pub signature: String,
}

#[derive(Debug)]
pub struct PrepareTxResponse {
    pub signed_tx_serialized: String,
}

#[derive(Debug)]
pub struct PostStakesRequest {
    pub stakes: Vec<StakeRequestStake>,
    pub account_id: Uuid,
}

#[derive(Clone, Copy, Debug, PartialEq, Eq, Structural)]
pub enum ResponseFormat {
    Daily,
    Epoch,
}

#[derive(Debug)]
pub enum RewardRequest {
    Daily {
        stakes_addresses: Vec<String>,
        wallets: Vec<String>,
        pool_ids: Vec<String>,
        accounts: Vec<Uuid>,
        format: ResponseFormat,
        start_date: UtcDateTime,
        end_date: UtcDateTime,
        include_usd: bool,
    },
    Epoch {
        stakes_addresses: Vec<String>,
        wallets: Vec<String>,
        pool_ids: Vec<String>,
        accounts: Vec<Uuid>,
        format: ResponseFormat,
        start_date: UtcDateTime,
        end_date: UtcDateTime,
        start_epoch: u64,
        end_epoch: u64,
    },
}

#[derive(Debug)]
pub struct ReportsRequest {
    pub delegators: Vec<String>,
    pub validators: Vec<String>,
    pub accounts: Vec<Uuid>,
}

#[derive(Debug)]
pub struct RestakeRewardsTxRequest {
    pub pubkey: String,
    pub validator: String,
    pub grantee_address: String,
}

#[derive(Debug)]
pub struct StakeMessageValue {
    pub validator_address: String,
    pub delegator_address: String,
    pub amount: TxStakeCoin,
}

#[derive(Debug)]
pub struct StakeMessageRestake {
    pub address: Vec<String>,
}

#[derive(Debug)]
pub struct SignerInfoPublicKey {
    pub type_url: String,
    pub value: Vec<u8>,
}

#[derive(Debug)]
pub struct StatusResponseReceipt {
    pub height: u64,
    pub tx_index: u64,
    pub hash: String,
    pub code: u64,
    pub events: Vec<StatusResponseEvent>,
    pub raw_log: String,
    pub tx: Vec<u8>,
    pub gas_used: u64,
    pub gas_wanted: u64,
}

#[derive(Debug)]
pub struct StatusResponseEvent {
    pub kind: String,
    pub attributes: Vec<EventAttribute>,
}

#[derive(Clone, Copy, Debug, PartialEq, Eq, Structural)]
pub enum StakeState {
    Active,
    Activating,
    Inactive,
    Deactivating,
    Withdrawn,
}

#[derive(Clone, Copy, Debug, PartialEq, Eq, Structural)]
pub enum StakePermissionKind {
    Delegate,
    Undelegate,
    Redelegate,
    WithdrawDelegatorReward,
}

#[derive(Debug)]
pub struct StakesResponsePermission {
    pub source: String,
    pub creation_height: u64,
    pub permission: StakePermissionKind,
    pub expires_at: Option<UtcDateTime>,
    pub allow_list: Option<Vec<String>>,
    pub deny_list: Option<Vec<String>>,
}

#[derive(Debug)]
pub struct StakesResponseUnbonding {
    pub creation_height: u64,
    pub completion_time: UtcDateTime,
    pub balance: String,
    pub initial_balance: String,
}

#[derive(Debug)]
pub struct StakeRequestStake {
    pub stake_id: String,
}

#[derive(Clone, Copy, Debug, PartialEq, Eq, Structural)]
pub enum StakeStatus {
    Active,
    Pending,
    Disabled,
}

#[derive(Debug)]
pub enum StakingOperation {
    Delegate {
        kind: String,
        time: UtcDateTime,
        block: u64,
        tx_hash: String,
        tx_gas_used: String,
        message_index: u64,
        validator_address: String,
        delegator_address: String,
        amount: String,
        withdraw_rewards: String,
    },
    Undelegate {
        kind: String,
        time: UtcDateTime,
        block: u64,
        tx_hash: String,
        tx_gas_used: String,
        message_index: u64,
        validator_address: String,
        delegator_address: String,
        amount: String,
        withdraw_rewards: String,
    },
    BeginRedelegate {
        kind: String,
        time: UtcDateTime,
        block: u64,
        tx_hash: String,
        tx_gas_used: String,
        message_index: u64,
        validator_address: String,
        validator_address_source: String,
        delegator_address: String,
        amount: String,
        withdraw_rewards: String,
        withdraw_rewards_source: String,
    },
    WithdrawDelegatorReward {
        kind: String,
        time: UtcDateTime,
        block: u64,
        tx_hash: String,
        tx_gas_used: String,
        message_index: u64,
        validator_address: String,
        delegator_address: String,
        withdraw_rewards: String,
    },
    Grant {
        kind: String,
        time: UtcDateTime,
        block: u64,
        tx_hash: String,
        tx_gas_used: String,
        message_index: u64,
        grantee: String,
        granter: String,
        permission: StakePermissionKind,
        allow_list: Option<Vec<String>>,
        denly_list: Option<Vec<String>>,
    },
    Exec {
        kind: String,
        validator_address: String,
        validator_address_source: String,
        delegator_address: String,
        amount: String,
        withdraw_rewards: String,
        withdraw_rewards_source: String,
        executed_operations: Option<Vec<Operation>>,
    },
}

#[derive(Clone, Copy, Debug, PartialEq, Eq, Structural)]
pub enum SignMode {
    Unspecified,
    Direct,
    Textual,
    DirectAux,
    LegacyAminoJson,
    Eip191,
    Unrecognized,
}

#[derive(Debug)]
pub struct SignerInfo {
    pub public_key: SignerInfoPublicKey,
    pub mode_info: ModeInfo,
    pub sequence: u128,
}

#[derive(Debug)]
pub struct Stakes {
    pub owner: String,
    pub current_balance: String,
    pub total_rewards: String,
    pub current_rewards: String,
    pub total_deposited_amount: String,
    pub total_withdrawn_amount: String,
    pub vault: String,
    pub chain: String,
    pub updated_at_block: u64,
}

#[derive(Debug)]
pub struct StakeOperationsRequest {
    pub stake_addresses: Vec<String>,
    pub wallets: Vec<String>,
    pub pool_ids: Vec<String>,
    pub accounts: Vec<Uuid>,
    pub start_date: UtcDateTime,
    pub end_date: UtcDateTime,
}

#[derive(Debug)]
pub enum TxStakeMessage {
    Value {
        type_url: String,
        value: StakeMessageValue,
    },
    Restake {
        type_url: String,
        allow_list: StakeMessageRestake,
        authorization_type: u64,
    },
}

#[derive(Debug)]
pub struct TxDecodeAuthinfo {
    pub signer_infos: Vec<SignerInfo>,
    pub tip: Option<Tip>,
    pub fee: Option<TxStakeFee>,
}

#[derive(Debug)]
pub struct TxDecodeBody {
    pub messages: Vec<Any>,
    pub memo: String,
    pub timeout_height: TxDecodeGasLimit,
    pub extension_options: Vec<Any>,
    pub non_critical_extension_options: Vec<Any>,
}

#[derive(Debug)]
pub struct TxDecodingResponse {
    pub auth_info: TxDecodeAuthinfo,
    pub fee: TxStakeFee,
    pub body: TxDecodeBody,
    pub signatures: Vec<u8>,
}

#[derive(Debug)]
pub struct TxDecodeGasLimit {
    pub low: u64,
    pub high: u64,
    pub unsigned: bool,
}

#[derive(Debug)]
pub struct Tip {
    pub amount: Vec<TxStakeCoin>,
    pub tipper: String,
}

#[derive(Debug)]
pub struct TxStakeCoin {
    pub denom: String,
    pub amount: String,
}

#[derive(Debug)]
pub struct TxStakeFee {
    pub amount: Vec<TxStakeCoin>,
    pub gas: String,
    pub granter: Option<String>,
    pub payer: Option<String>,
}

#[derive(Debug)]
pub struct TxResponse {
    pub unsigned_tx_serialized: String,
    pub unsigned_tx_hash: String,
    pub tx_body: String,
    pub tx_auth_info: String,
    pub pubkey: String,
    pub fee: TxStakeFee,
    pub messages: Vec<TxStakeMessage>,
    pub message: TxStakeMessage,
    pub chain_id: Chain,
    pub account_number: u64,
}

#[derive(Debug)]
pub struct TxStatusResponse {
    pub status: String,
    pub receipt: StatusResponseReceipt,
}

#[derive(Debug)]
pub struct ValidatorOperationsRequest {
    pub validators: Vec<String>,
    pub delegators: Vec<String>,
    pub authz: bool,
    pub accounts: Vec<Uuid>,
    pub start_date: UtcDateTime,
    pub end_date: UtcDateTime,
}

#[derive(Debug)]
pub struct WithdrawRewardsTxRequest {
    pub pubkey: String,
    pub validator: String,
}

impl Chain {
    /// The value that the text `s` names, if any; each value may have several names.
    pub open spec fn parse_spec(s: Seq<char>) -> Option<Chain> {
        if s == "arb"@ {
            Some(Chain::Arb)
        } else if s == "eth"@ {
            Some(Chain::Eth)
        } else if s == "bsc"@ {
            Some(Chain::Bsc)
        } else if s == "matic"@ {
            Some(Chain::Matic)
        } else if s == "base"@ {
            Some(Chain::Base)
        } else if s == "op"@ {
            Some(Chain::Op)
        } else if s == "cosmoshub-4"@ {
            Some(Chain::CosmosHub4)
        } else {
            None
        }
    }

    pub fn from_wire(s: &str) -> (r: Option<Chain>)
        ensures
            r == Chain::parse_spec(s@),
    {
        if same_text(s, "arb") {
            Some(Chain::Arb)
        } else if same_text(s, "eth") {
            Some(Chain::Eth)
        } else if same_text(s, "bsc") {
            Some(Chain::Bsc)
        } else if same_text(s, "matic") {
            Some(Chain::Matic)
        } else if same_text(s, "base") {
            Some(Chain::Base)
        } else if same_text(s, "op") {
            Some(Chain::Op)
        } else if same_text(s, "cosmoshub-4") {
            Some(Chain::CosmosHub4)
        } else {
            None
        }
    }
}

impl ChainStakeState {
    /// The name of this value in a query.
    pub open spec fn wire_name(self) -> Seq<char> {
        match self {
            ChainStakeState::Active => "Active"@,
        }
    }

    pub fn as_str(&self) -> (r: &'static str)
        ensures
            r@ == self.wire_name(),
    {
        match self {
            ChainStakeState::Active => "Active",
        }
    }
}

impl Operation {
    /// The name of this value in a query.
    pub open spec fn wire_name(self) -> Seq<char> {
        match self {
            Operation::Deposit => "Deposit"@,
            Operation::Withdrawal => "Withdrawal"@,
        }
    }

    pub fn as_str(&self) -> (r: &'static str)
        ensures
            r@ == self.wire_name(),
    {
        match self {
            Operation::Deposit => "Deposit",
            Operation::Withdrawal => "Withdrawal",
        }
    }
}

impl OperationType {
    /// The name of this value in a query.
    pub open spec fn wire_name(self) -> Seq<char> {
        match self {
            OperationType::StakeRegisteration => "StakeRegisteration"@,
            OperationType::StakeDeregisteration => "StakeDeregisteration"@,
            OperationType::Delegation => "Delegation"@,
            OperationType::Reward => "Reward"@,
            OperationType::Withdrawal => "Withdrawal"@,
        }
    }

    pub fn as_str(&self) -> (r: &'static str)
        ensures
            r@ == self.wire_name(),
    {
        match self {
            OperationType::StakeRegisteration => "StakeRegisteration",
            OperationType::StakeDeregisteration => "StakeDeregisteration",
            OperationType::Delegation => "Delegation",
            OperationType::Reward => "Reward",
            OperationType::Withdrawal => "Withdrawal",
        }
    }
}

impl ResponseFormat {
    /// The name of this value in a query.
    pub open spec fn wire_name(self) -> Seq<char> {
        match self {
            ResponseFormat::Daily => "Daily"@,
            ResponseFormat::Epoch => "Epoch"@,
        }
    }

    pub fn as_str(&self) -> (r: &'static str)
        ensures
            r@ == self.wire_name(),
    {
        match self {
            ResponseFormat::Daily => "Daily",
            ResponseFormat::Epoch => "Epoch",
        }
    }
}

impl StakeState {
    /// The name of this value in a query.
    pub open spec fn wire_name(self) -> Seq<char> {
        match self {
            StakeState::Active => "Active"@,
            StakeState::Activating => "Activating"@,
            StakeState::Inactive => "Inactive"@,
            StakeState::Deactivating => "Deactivating"@,
            StakeState::Withdrawn => "Withdrawn"@,
        }
    }

    pub fn as_str(&self) -> (r: &'static str)
        ensures
            r@ == self.wire_name(),
    {
        match self {
            StakeState::Active => "Active",
            StakeState::Activating => "Activating",
            StakeState::Inactive => "Inactive",
            StakeState::Deactivating => "Deactivating",
            StakeState::Withdrawn => "Withdrawn",
        }
    }

    /// The value that the text `s` names, if any; each value may have several names.
    pub open spec fn parse_spec(s: Seq<char>) -> Option<StakeState> {
        if s == "Active"@ {
            Some(StakeState::Active)
        } else if s == "Activating"@ {
            Some(StakeState::Activating)
        } else if s == "Inactive"@ {
            Some(StakeState::Inactive)
        } else if s == "Deactivating"@ {
            Some(StakeState::Deactivating)
        } else if s == "Withdrawn"@ {
            Some(StakeState::Withdrawn)
        } else {
            None
        }
    }

    pub fn from_wire(s: &str) -> (r: Option<StakeState>)
        ensures
            r == StakeState::parse_spec(s@),
    {
        if same_text(s, "Active") {
            Some(StakeState::Active)
        } else if same_text(s, "Activating") {
            Some(StakeState::Activating)
        } else if same_text(s, "Inactive") {
            Some(StakeState::Inactive)
        } else if same_text(s, "Deactivating") {
            Some(StakeState::Deactivating)
        } else if same_text(s, "Withdrawn") {
            Some(StakeState::Withdrawn)
        } else {
            None
        }
    }
}

impl StakePermissionKind {
    /// The value that the text `s` names, if any; each value may have several names.
    pub open spec fn parse_spec(s: Seq<char>) -> Option<StakePermissionKind> {
        if s == "Staking.MsgDelegate"@ {
            Some(StakePermissionKind::Delegate)
        } else if s == "Staking.MsgUndelegate"@ {
            Some(StakePermissionKind::Undelegate)
        } else if s == "Staking.Redelegate"@ {
            Some(StakePermissionKind::Redelegate)
        } else if s == "Distribution.MsgWithdrawDelegatorReward"@ {
            Some(StakePermissionKind::WithdrawDelegatorReward)
        } else {
            None
        }
    }

    pub fn from_wire(s: &str) -> (r: Option<StakePermissionKind>)
        ensures
            r == StakePermissionKind::parse_spec(s@),
    {
        if same_text(s, "Staking.MsgDelegate") {
            Some(StakePermissionKind::Delegate)
        } else if same_text(s, "Staking.MsgUndelegate") {
            Some(StakePermissionKind::Undelegate)
        } else if same_text(s, "Staking.Redelegate") {
            Some(StakePermissionKind::Redelegate)
        } else if same_text(s, "Distribution.MsgWithdrawDelegatorReward") {
            Some(StakePermissionKind::WithdrawDelegatorReward)
        } else {
            None
        }
    }
}

impl StakeStatus {
    /// The value that the text `s` names, if any; each value may have several names.
    pub open spec fn parse_spec(s: Seq<char>) -> Option<StakeStatus> {
        if s == "active"@ {
            Some(StakeStatus::Active)
        } else if s == "pending"@ {
            Some(StakeStatus::Pending)
        } else if s == "disabled"@ {
            Some(StakeStatus::Disabled)
        } else {
            None
        }
    }

    pub fn from_wire(s: &str) -> (r: Option<StakeStatus>)
        ensures
            r == StakeStatus::parse_spec(s@),
    {
        if same_text(s, "active") {
            Some(StakeStatus::Active)
        } else if same_text(s, "pending") {
            Some(StakeStatus::Pending)
        } else if same_text(s, "disabled") {
            Some(StakeStatus::Disabled)
        } else {
            None
        }
    }
}


/// The query of a reward request: the daily form with `include_usd`, or the
/// per-epoch form with an epoch range.
pub open spec fn reward_query(req: RewardRequest) -> Seq<(Seq<char>, Seq<char>)> {
    match req {
        RewardRequest::Daily {
            stakes_addresses,
            wallets,
            pool_ids,
            accounts,
            format,
            start_date,
            end_date,
            include_usd,
        } => seq![
            ("stake_addresses"@, comma_join(texts(stakes_addresses@))),
            ("pool_ids"@, comma_join(texts(pool_ids@))),
            ("wallets"@, comma_join(texts(wallets@))),
            ("accounts"@, comma_join(uuid_texts(accounts@))),
            ("format"@, format.wire_name()),
            ("start_date"@, utc_text_of(start_date@.0, start_date@.1)),
            ("end_date"@, utc_text_of(end_date@.0, end_date@.1)),
            ("include_usd"@, bool_text(include_usd)),
        ],
        RewardRequest::Epoch {
            stakes_addresses,
            wallets,
            pool_ids,
            accounts,
            format,
            start_date,
            end_date,
            start_epoch,
            end_epoch,
        } => seq![
            ("stake_addresses"@, comma_join(texts(stakes_addresses@))),
            ("pool_ids"@, comma_join(texts(pool_ids@))),
            ("wallets"@, comma_join(texts(wallets@))),
            ("accounts"@, comma_join(uuid_texts(accounts@))),
            ("format"@, format.wire_name()),
            ("start_date"@, utc_text_of(start_date@.0, start_date@.1)),
            ("end_date"@, utc_text_of(end_date@.0, end_date@.1)),
            ("start_epoch"@, decimal(start_epoch as nat)),
            ("end_epoch"@, decimal(end_epoch as nat)),
        ],
    }
}

/// The query parameters of a reward request, in the order the API documents.
pub fn reward_params(req: &RewardRequest) -> (r: Vec<QueryParam>)
    ensures
        param_views(r@) == reward_query(*req),
{
    match req {
        RewardRequest::Daily {
            stakes_addresses,
            wallets,
            pool_ids,
            accounts,
            format,
            start_date,
            end_date,
            include_usd,
        } => {
            let r = vec![
                QueryParam::new("stake_addresses", join_values(stakes_addresses)),
                QueryParam::new("pool_ids", join_values(pool_ids)),
                QueryParam::new("wallets", join_values(wallets)),
                QueryParam::new("accounts", join_uuids(accounts)),
                QueryParam::new("format", String::from_str(format.as_str())),
                QueryParam::new("start_date", start_date.text()),
                QueryParam::new("end_date", end_date.text()),
                QueryParam::new("include_usd", bool_to_text(*include_usd)),
            ];
            proof {
                assert(param_views(r@) =~= reward_query(*req));
            }
            r
        },
        RewardRequest::Epoch {
            stakes_addresses,
            wallets,
            pool_ids,
            accounts,
            format,
            start_date,
            end_date,
            start_epoch,
            end_epoch,
        } => {
            let r = vec![
                QueryParam::new("stake_addresses", join_values(stakes_addresses)),
                QueryParam::new("pool_ids", join_values(pool_ids)),
                QueryParam::new("wallets", join_values(wallets)),
                QueryParam::new("accounts", join_uuids(accounts)),
                QueryParam::new("format", String::from_str(format.as_str())),
                QueryParam::new("start_date", start_date.text()),
                QueryParam::new("end_date", end_date.text()),
                QueryParam::new("start_epoch", decimal_text(*start_epoch)),
                QueryParam::new("end_epoch", decimal_text(*end_epoch)),
            ];
            proof {
                assert(param_views(r@) =~= reward_query(*req));
            }
            r
        },
    }
}

/// The kind of a staking operation, as the `type` field of an operation names
/// it. The API has spelled most kinds both with a capitalised and with a
/// lowercase module name; both spellings name the same kind.
#[derive(Clone, Copy, Debug, PartialEq, Eq, Structural)]
pub enum StakingOperationType {
    Delegate,
    Undelegate,
    BeginRedelegate,
    WithdrawDelegatorReward,
    Grant,
    Exec,
}

impl StakingOperationType {
    /// The kind that the wire text `s` names, if any.
    pub open spec fn parse_spec(s: Seq<char>) -> Option<StakingOperationType> {
        if s == "Staking.MsgDelegate"@ || s == "staking.MsgDelegate"@ {
            Some(StakingOperationType::Delegate)
        } else if s == "Staking.MsgUndelegate"@ || s == "staking.MsgUndelegate"@ {
            Some(StakingOperationType::Undelegate)
        } else if s == "Staking.MsgBeginRedelegate"@ || s == "staking.MsgBeginRedelegate"@ {
            Some(StakingOperationType::BeginRedelegate)
        } else if s == "Distribution.MsgWithdrawDelegatorReward"@ || s
            == "distribution.MsgWithdrawDelegatorReward"@ {
            Some(StakingOperationType::WithdrawDelegatorReward)
        } else if s == "Grant"@ {
            Some(StakingOperationType::Grant)
        } else if s == "Exec"@ {
            Some(StakingOperationType::Exec)
        } else {
            None
        }
    }

    /// The kind that the wire text `s` names, looked up in the fixed table of
    /// spellings.
    pub fn from_wire(s: &str) -> (r: Option<StakingOperationType>)
        ensures
            r == StakingOperationType::parse_spec(s@),
    {
        if same_text(s, "Staking.MsgDelegate") || same_text(s, "staking.MsgDelegate") {
            Some(StakingOperationType::Delegate)
        } else if same_text(s, "Staking.MsgUndelegate") || same_text(s, "staking.MsgUndelegate") {
            Some(StakingOperationType::Undelegate)
        } else if same_text(s, "Staking.MsgBeginRedelegate") || same_text(
            s,
            "staking.MsgBeginRedelegate",
        ) {
            Some(StakingOperationType::BeginRedelegate)
        } else if same_text(s, "Distribution.MsgWithdrawDelegatorReward") || same_text(
            s,
            "distribution.MsgWithdrawDelegatorReward",
        ) {
            Some(StakingOperationType::WithdrawDelegatorReward)
        } else if same_text(s, "Grant") {
            Some(StakingOperationType::Grant)
        } else if same_text(s, "Exec") {
            Some(StakingOperationType::Exec)
        } else {
            None
        }
    }

    /// The name that a decoded operation carries in its `type` field.
    pub open spec fn canonical_spec(self) -> Seq<char> {
        match self {
            StakingOperationType::Delegate => "staking.MsgDelegate"@,
            StakingOperationType::Undelegate => "staking.MsgUndelegate"@,
            StakingOperationType::BeginRedelegate => "staking.MsgBeginRedelegate"@,
            StakingOperationType::WithdrawDelegatorReward => "distr.MsgWithdrawDelegatorReward"@,
            StakingOperationType::Grant => "auth.grant"@,
            StakingOperationType::Exec => "auth.exec"@,
        }
    }

    pub fn canonical_name(&self) -> (r: &'static str)
        ensures
            r@ == self.canonical_spec(),
    {
        match self {
            StakingOperationType::Delegate => "staking.MsgDelegate",
            StakingOperationType::Undelegate => "staking.MsgUndelegate",
            StakingOperationType::BeginRedelegate => "staking.MsgBeginRedelegate",
            StakingOperationType::WithdrawDelegatorReward => "distr.MsgWithdrawDelegatorReward",
            StakingOperationType::Grant => "auth.grant",
            StakingOperationType::Exec => "auth.exec",
        }
    }

    /// The `type` text of a decoded operation of the kind that `s` names.
    pub fn normalize(s: &str) -> (r: Option<&'static str>)
        ensures
            r matches Some(t) ==> StakingOperationType::parse_spec(s@) matches Some(k) && t@
                == k.canonical_spec(),
            r is None <==> StakingOperationType::parse_spec(s@) is None,
    {
        match StakingOperationType::from_wire(s) {
            Some(k) => Some(k.canonical_name()),
            None => None,
        }
    }
}

/// Each operation kind that the API has spelled in two casings is named alike
/// by both spellings.
pub proof fn lemma_operation_casings_agree()
    ensures
        StakingOperationType::parse_spec("Staking.MsgDelegate"@) == Some(StakingOperationType::Delegate),
        StakingOperationType::parse_spec("staking.MsgDelegate"@) == Some(StakingOperationType::Delegate),
        StakingOperationType::parse_spec("Staking.MsgUndelegate"@) == Some(StakingOperationType::Undelegate),
        StakingOperationType::parse_spec("staking.MsgUndelegate"@) == Some(StakingOperationType::Undelegate),
        StakingOperationType::parse_spec("Staking.MsgBeginRedelegate"@) == Some(StakingOperationType::BeginRedelegate),
        StakingOperationType::parse_spec("staking.MsgBeginRedelegate"@) == Some(StakingOperationType::BeginRedelegate),
        StakingOperationType::parse_spec("Distribution.MsgWithdrawDelegatorReward"@) == Some(
            StakingOperationType::WithdrawDelegatorReward,
        ),
        StakingOperationType::parse_spec("distribution.MsgWithdrawDelegatorReward"@) == Some(
            StakingOperationType::WithdrawDelegatorReward,
        ),
{
    reveal_strlit("Staking.MsgDelegate");
    reveal_strlit("staking.MsgDelegate");
    reveal_strlit("Staking.MsgUndelegate");
    reveal_strlit("staking.MsgUndelegate");
    reveal_strlit("Staking.MsgBeginRedelegate");
    reveal_strlit("staking.MsgBeginRedelegate");
    reveal_strlit("Distribution.MsgWithdrawDelegatorReward");
    reveal_strlit("distribution.MsgWithdrawDelegatorReward");
    assert("Staking.MsgDelegate"@.len() == 19);
    assert("staking.MsgDelegate"@.len() == 19);
    assert("Staking.MsgUndelegate"@.len() == 21);
    assert("staking.MsgUndelegate"@.len() == 21);
    assert("Staking.MsgBeginRedelegate"@.len() == 26);
    assert("staking.MsgBeginRedelegate"@.len() == 26);
    assert("Distribution.MsgWithdrawDelegatorReward"@.len() == 39);
    assert("distribution.MsgWithdrawDelegatorReward"@.len() == 39);
}

impl StakingOperation {
    /// The kind of this operation.
    pub open spec fn kind_spec(&self) -> StakingOperationType {
        match self {
            StakingOperation::Delegate { .. } => StakingOperationType::Delegate,
            StakingOperation::Undelegate { .. } => StakingOperationType::Undelegate,
            StakingOperation::BeginRedelegate { .. } => StakingOperationType::BeginRedelegate,
            StakingOperation::WithdrawDelegatorReward { .. } => StakingOperationType::WithdrawDelegatorReward,
            StakingOperation::Grant { .. } => StakingOperationType::Grant,
            StakingOperation::Exec { .. } => StakingOperationType::Exec,
        }
    }

    pub fn operation_type(&self) -> (r: StakingOperationType)
        ensures
            r == self.kind_spec(),
    {
        match self {
            StakingOperation::Delegate { .. } => StakingOperationType::Delegate,
            StakingOperation::Undelegate { .. } => StakingOperationType::Undelegate,
            StakingOperation::BeginRedelegate { .. } => StakingOperationType::BeginRedelegate,
            StakingOperation::WithdrawDelegatorReward { .. } => StakingOperationType::WithdrawDelegatorReward,
            StakingOperation::Grant { .. } => StakingOperationType::Grant,
            StakingOperation::Exec { .. } => StakingOperationType::Exec,
        }
    }
}

} // verus!
