//! The messages that the contract accepts and the answers to its queries.
use vstd::prelude::*;

use crate::types::Coin;

verus! {

/// Royalties of an NFT collection: who is paid, and the share, a decimal
/// fraction written as its atomics (units of 10^-18).
#[derive(Debug, Clone, PartialEq, Eq)]
pub struct RoyaltyInfoResponse {
    pub payment_address: String,
    pub share: u128,
}

/// The collection description handed to the NFT contract.
#[derive(Debug, Clone, PartialEq, Eq)]
pub struct CollectionInfo {
    pub creator: String,
    pub description: String,
    pub image: String,
    pub external_link: Option<String>,
    pub royalty_info: Option<RoyaltyInfoResponse>,
}

/// What the NFT contract is instantiated with (its minter is set by the
/// launchpad itself).
#[derive(Debug, Clone, PartialEq, Eq)]
pub struct An721InstantiateMsg {
    pub name: String,
    pub symbol: String,
    pub minter: String,
    pub collection_info: CollectionInfo,
}

#[derive(Debug, Clone, PartialEq, Eq)]
pub struct InstantiateMsg {
    pub num_tokens: u32,
    pub an721_code_id: u64,
    pub an721_instantiate_msg: An721InstantiateMsg,
    pub per_address_limit: u32,
}

#[derive(Debug, Clone, PartialEq, Eq)]
pub enum ExecuteMsg {
    Mint { model_id: String, size: String },
    MintTo { recipient: String, model_id: String, size: String },
    MintFor { token_id: u32, recipient: String, model_id: String, size: String },
    CreateModel { model_id: String, model_uri: String },
    UpdatePerModelShoeLimit { per_address_limit: u32 },
    UpdateAdmin { new_admin: String },
    UpdateCollectionInfo {
        description: Option<String>,
        external_link: Option<String>,
        image: Option<String>,
        royalty_info: Option<RoyaltyInfoResponse>,
    },
    Withdraw {},
}

#[derive(Debug, Clone, PartialEq, Eq)]
pub enum QueryMsg {
    Config {},
    MintableNumTokens {},
    MintCount { address: String },
}

#[derive(Debug, Clone, PartialEq, Eq)]
pub struct ConfigResponse {
    pub admin: String,
    pub num_tokens: u32,
    pub per_address_limit: u32,
    pub an721_address: String,
    pub an721_code_id: u64,
}

#[derive(Debug, Clone, PartialEq, Eq)]
pub struct MintableNumTokensResponse {
    pub count: u32,
}

#[derive(Debug, Clone, PartialEq, Eq)]
pub struct MintCountResponse {
    pub address: String,
    pub count: u32,
}

/// The answer to a query, before it is encoded.
#[derive(Debug, Clone, PartialEq, Eq)]
pub enum QueryResponse {
    Config(ConfigResponse),
    MintableNumTokens(MintableNumTokensResponse),
    MintCount(MintCountResponse),
}

/// How a submessage ended: with the data it returned, if any, or with an error.
#[derive(Debug, Clone, PartialEq, Eq)]
pub enum SubMsgResult {
    Succeeded { data: Option<Vec<u8>> },
    Failed(String),
}

/// The chain's reply to a submessage of the contract.
#[derive(Debug, Clone, PartialEq, Eq)]
pub struct Reply {
    pub id: u64,
    pub result: SubMsgResult,
}

/// A question that a call puts to its host before the contract can decide.
#[derive(Debug, Clone, PartialEq, Eq)]
pub enum HostQuery {
    Nothing,
    ValidateAddress(String),
    Balance { address: String, denom: String },
}

/// The host's answer to a `HostQuery`, errors given as their text.
#[derive(Debug, PartialEq, Eq)]
pub enum HostAnswer {
    Nothing,
    Address(Result<String, String>),
    Balance(Result<Coin, String>),
}

impl View for QueryResponse {
    type V = crate::model::QueryResponseView;

    open spec fn view(&self) -> crate::model::QueryResponseView {
        match self {
            QueryResponse::Config(c) => crate::model::QueryResponseView::Config {
                admin: c.admin@,
                num_tokens: c.num_tokens,
                per_address_limit: c.per_address_limit,
                an721_address: c.an721_address@,
                an721_code_id: c.an721_code_id,
            },
            QueryResponse::MintableNumTokens(m) => crate::model::QueryResponseView::MintableNumTokens {
                count: m.count,
            },
            QueryResponse::MintCount(m) => crate::model::QueryResponseView::MintCount {
                address: m.address@,
                count: m.count,
            },
        }
    }
}

} // verus!
