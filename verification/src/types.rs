//! The contract's values: its stored state, the context of a call, what a call
//! answers (a response or an error), each with the mathematical view that the
//! contracts speak of.
use vstd::prelude::*;

verus! {

/// The text of an optional string.
pub open spec fn opt_text(o: Option<String>) -> Option<Seq<char>> {
    match o {
        Some(s) => Some(s@),
        None => None,
    }
}

/// An amount of one native denomination.
#[derive(Debug, Clone, PartialEq, Eq)]
pub struct Coin {
    pub denom: String,
    pub amount: u128,
}

impl View for Coin {
    type V = (Seq<char>, u128);

    open spec fn view(&self) -> (Seq<char>, u128) {
        (self.denom@, self.amount)
    }
}

/// The view of a list of coins.
pub open spec fn coins_view(v: Seq<Coin>) -> Seq<(Seq<char>, u128)> {
    v.map_values(|c: Coin| c@)
}

/// Who calls and what they send along.
#[derive(Debug, Clone, PartialEq, Eq)]
pub struct MessageInfo {
    pub sender: String,
    pub funds: Vec<Coin>,
}

/// What the contract knows of its own environment.
#[derive(Debug, Clone, PartialEq, Eq)]
pub struct Env {
    pub contract_address: String,
}

/// The launchpad's configuration.
#[derive(Debug, Clone, PartialEq, Eq)]
pub struct Config {
    pub admin: String,
    pub num_tokens: u32,
    pub an721_code_id: u64,
    pub per_address_limit: u32,
}

#[verifier::ext_equal]
pub struct ConfigView {
    pub admin: Seq<char>,
    pub num_tokens: u32,
    pub an721_code_id: u64,
    pub per_address_limit: u32,
}

impl View for Config {
    type V = ConfigView;

    open spec fn view(&self) -> ConfigView {
        ConfigView {
            admin: self.admin@,
            num_tokens: self.num_tokens,
            an721_code_id: self.an721_code_id,
            per_address_limit: self.per_address_limit,
        }
    }
}

/// The name and version recorded for migrations.
#[derive(Debug, Clone, PartialEq, Eq)]
pub struct ContractVersion {
    pub contract: String,
    pub version: String,
}

impl View for ContractVersion {
    type V = (Seq<char>, Seq<char>);

    open spec fn view(&self) -> (Seq<char>, Seq<char>) {
        (self.contract@, self.version@)
    }
}

/// How many tokens have been minted on behalf of one sender.
#[derive(Debug, Clone, PartialEq, Eq)]
pub struct MinterCount {
    pub address: String,
    pub count: u32,
}

impl View for MinterCount {
    type V = (Seq<char>, u32);

    open spec fn view(&self) -> (Seq<char>, u32) {
        (self.address@, self.count)
    }
}

/// Everything the contract keeps in storage.
///
/// `mintable_token_ids` holds the ids that can still be minted, in ascending
/// order; `minter_counts` holds the number of mints made by each sender.
#[derive(Debug, Clone, PartialEq, Eq)]
pub struct ContractState {
    pub contract_version: Option<ContractVersion>,
    pub config: Option<Config>,
    pub an721_address: Option<String>,
    pub mintable_num_tokens: Option<u32>,
    pub mintable_token_ids: Vec<u32>,
    pub minter_counts: Vec<MinterCount>,
}

#[verifier::ext_equal]
pub struct StateView {
    pub version: Option<(Seq<char>, Seq<char>)>,
    pub config: Option<ConfigView>,
    pub an721_address: Option<Seq<char>>,
    pub mintable_num_tokens: Option<u32>,
    pub mintable_ids: Seq<u32>,
    pub mint_counts: Seq<(Seq<char>, u32)>,
}

impl View for ContractState {
    type V = StateView;

    open spec fn view(&self) -> StateView {
        StateView {
            version: match self.contract_version {
                Some(v) => Some(v@),
                None => None,
            },
            config: match self.config {
                Some(c) => Some(c@),
                None => None,
            },
            an721_address: opt_text(self.an721_address),
            mintable_num_tokens: self.mintable_num_tokens,
            mintable_ids: self.mintable_token_ids@,
            mint_counts: self.minter_counts@.map_values(|m: MinterCount| m@),
        }
    }
}

/// One key and value that a response reports.
#[derive(Debug, Clone, PartialEq, Eq)]
pub struct Attribute {
    pub key: String,
    pub value: String,
}

impl View for Attribute {
    type V = (Seq<char>, Seq<char>);

    open spec fn view(&self) -> (Seq<char>, Seq<char>) {
        (self.key@, self.value@)
    }
}

/// A message that the contract asks the chain to carry out.
#[derive(Debug, Clone, PartialEq, Eq)]
pub enum CosmosMsg {
    BankSend { to_address: String, amount: Vec<Coin> },
    WasmExecute { contract_addr: String, msg: Vec<u8>, funds: Vec<Coin> },
    WasmInstantiate {
        admin: Option<String>,
        code_id: u64,
        msg: Vec<u8>,
        funds: Vec<Coin>,
        label: String,
    },
}

#[verifier::ext_equal]
pub enum MsgView {
    BankSend { to_address: Seq<char>, amount: Seq<(Seq<char>, u128)> },
    WasmExecute { contract_addr: Seq<char>, msg: Seq<u8>, funds: Seq<(Seq<char>, u128)> },
    WasmInstantiate {
        admin: Option<Seq<char>>,
        code_id: u64,
        msg: Seq<u8>,
        funds: Seq<(Seq<char>, u128)>,
        label: Seq<char>,
    },
}

impl View for CosmosMsg {
    type V = MsgView;

    open spec fn view(&self) -> MsgView {
        match self {
            CosmosMsg::BankSend { to_address, amount } => MsgView::BankSend {
                to_address: to_address@,
                amount: coins_view(amount@),
            },
            CosmosMsg::WasmExecute { contract_addr, msg, funds } => MsgView::WasmExecute {
                contract_addr: contract_addr@,
                msg: msg@,
                funds: coins_view(funds@),
            },
            CosmosMsg::WasmInstantiate { admin, code_id, msg, funds, label } =>
                MsgView::WasmInstantiate {
                admin: opt_text(*admin),
                code_id: *code_id,
                msg: msg@,
                funds: coins_view(funds@),
                label: label@,
            },
        }
    }
}

/// When the contract wants to hear back about a message.
#[derive(Debug, Clone, Copy, PartialEq, Eq)]
pub enum ReplyOn {
    Always,
    Error,
    Success,
    Never,
}

/// A message with the terms of its reply.
#[derive(Debug, Clone, PartialEq, Eq)]
pub struct SubMsg {
    pub id: u64,
    pub msg: CosmosMsg,
    pub gas_limit: Option<u64>,
    pub reply_on: ReplyOn,
}

#[verifier::ext_equal]
pub struct SubMsgView {
    pub id: u64,
    pub msg: MsgView,
    pub gas_limit: Option<u64>,
    pub reply_on: ReplyOn,
}

impl View for SubMsg {
    type V = SubMsgView;

    open spec fn view(&self) -> SubMsgView {
        SubMsgView { id: self.id, msg: self.msg@, gas_limit: self.gas_limit, reply_on: self.reply_on }
    }
}

/// What a successful call answers: messages to carry out and attributes to
/// report, in the order in which they were added.
#[derive(Debug, Clone, PartialEq, Eq)]
pub struct Response {
    pub messages: Vec<SubMsg>,
    pub attributes: Vec<Attribute>,
}

#[verifier::ext_equal]
pub struct ResponseView {
    pub messages: Seq<SubMsgView>,
    pub attributes: Seq<(Seq<char>, Seq<char>)>,
}

impl View for Response {
    type V = ResponseView;

    open spec fn view(&self) -> ResponseView {
        ResponseView {
            messages: self.messages@.map_values(|m: SubMsg| m@),
            attributes: self.attributes@.map_values(|a: Attribute| a@),
        }
    }
}

/// The stored items that a call may find missing.
#[derive(Debug, Clone, Copy, PartialEq, Eq)]
pub enum StoredItem {
    Config,
    An721Address,
    MintableNumTokens,
}

/// A failure of the platform's standard library: a stored item that is not
/// there, or an error that the host or an encoder reported.
#[derive(Debug, Clone, PartialEq, Eq)]
pub enum StdFailure {
    NotFound(StoredItem),
    Generic(String),
}

#[verifier::ext_equal]
pub enum StdFailureView {
    NotFound(StoredItem),
    Generic(Seq<char>),
}

impl View for StdFailure {
    type V = StdFailureView;

    open spec fn view(&self) -> StdFailureView {
        match self {
            StdFailure::NotFound(i) => StdFailureView::NotFound(*i),
            StdFailure::Generic(m) => StdFailureView::Generic(m@),
        }
    }
}

/// Why a call was refused.
#[derive(Debug, Clone, PartialEq, Eq)]
pub enum ContractError {
    Std(StdFailure),
    Unauthorized(String),
    InvalidNumTokens { min: u32, max: u32 },
    InvalidPerAddressLimit { max: u32, min: u32, got: u32 },
    MaxPerAddressLimitExceeded,
    InvalidTokenId,
    TokenIdAlreadySold { token_id: u32 },
    SoldOut,
    ZeroBalance,
    InvalidReplyID,
    InstantiateAn721Error,
}

#[verifier::ext_equal]
pub enum ErrorView {
    Std(StdFailureView),
    Unauthorized(Seq<char>),
    InvalidNumTokens { min: u32, max: u32 },
    InvalidPerAddressLimit { max: u32, min: u32, got: u32 },
    MaxPerAddressLimitExceeded,
    InvalidTokenId,
    TokenIdAlreadySold { token_id: u32 },
    SoldOut,
    ZeroBalance,
    InvalidReplyID,
    InstantiateAn721Error,
}

impl View for ContractError {
    type V = ErrorView;

    open spec fn view(&self) -> ErrorView {
        match self {
            ContractError::Std(f) => ErrorView::Std(f@),
            ContractError::Unauthorized(m) => ErrorView::Unauthorized(m@),
            ContractError::InvalidNumTokens { min, max } => ErrorView::InvalidNumTokens {
                min: *min,
                max: *max,
            },
            ContractError::InvalidPerAddressLimit { max, min, got } =>
                ErrorView::InvalidPerAddressLimit { max: *max, min: *min, got: *got },
            ContractError::MaxPerAddressLimitExceeded => ErrorView::MaxPerAddressLimitExceeded,
            ContractError::InvalidTokenId => ErrorView::InvalidTokenId,
            ContractError::TokenIdAlreadySold { token_id } => ErrorView::TokenIdAlreadySold {
                token_id: *token_id,
            },
            ContractError::SoldOut => ErrorView::SoldOut,
            ContractError::ZeroBalance => ErrorView::ZeroBalance,
            ContractError::InvalidReplyID => ErrorView::InvalidReplyID,
            ContractError::InstantiateAn721Error => ErrorView::InstantiateAn721Error,
        }
    }
}

/// The view of the outcome of a call that returns a response.
pub open spec fn outcome_view(r: Result<Response, ContractError>) -> Result<ResponseView, ErrorView> {
    match r {
        Ok(resp) => Ok(resp@),
        Err(e) => Err(e@),
    }
}

} // verus!
