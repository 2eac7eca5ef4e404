//! The launchpad's messages to the NFT contract, encoded by the NFT crate's own
//! message types, and the decoding of the chain's reply to the NFT contract's
//! instantiation.
use vstd::prelude::*;

use anone_cw721::msg as an721;
use cosmwasm_std::{Decimal, Empty, Uint128};

use crate::msg::{CollectionInfo, Reply, RoyaltyInfoResponse, SubMsgResult};

verus! {

/// A royalty in plain values: the payment address and the share's atomics.
pub open spec fn royalty_view(r: Option<RoyaltyInfoResponse>) -> Option<(Seq<char>, u128)> {
    match r {
        Some(r) => Some((r.payment_address@, r.share)),
        None => None,
    }
}

/// The messages that the launchpad sends to the NFT contract, in plain values.
pub enum An721MsgView {
    Instantiate {
        name: Seq<char>,
        symbol: Seq<char>,
        minter: Seq<char>,
        creator: Seq<char>,
        description: Seq<char>,
        image: Seq<char>,
        external_link: Option<Seq<char>>,
        royalty_info: Option<(Seq<char>, u128)>,
    },
    Mint { token_id: Seq<char>, owner: Seq<char>, model_id: Seq<char>, size: Seq<char> },
    CreateShoeModel { model_id: Seq<char>, owner: Seq<char>, model_uri: Seq<char> },
    ModifyCollectionInfo {
        description: Option<Seq<char>>,
        image: Option<Seq<char>>,
        external_link: Option<Seq<char>>,
        royalty_info: Option<(Seq<char>, u128)>,
    },
}

/// The JSON bytes that `cosmwasm_std::to_binary` makes of an NFT contract
/// message, or the text of its error.
pub uninterp spec fn an721_json(msg: An721MsgView) -> Result<Seq<u8>, Seq<char>>;

/// The view of an encoder's outcome.
pub open spec fn bytes_view(r: Result<Vec<u8>, String>) -> Result<Seq<u8>, Seq<char>> {
    match r {
        Ok(b) => Ok(b@),
        Err(e) => Err(e@),
    }
}

/// Builds `anone_cw721::msg::InstantiateMsg` from these fields (a royalty
/// share becomes `Decimal::new` of its atomics) and encodes it with
/// `cosmwasm_std::to_binary`. Trusted: the bytes, or the error's text, are
/// what `an721_json` names for these fields; nothing else is claimed.
#[verifier::external_body]
pub(crate) fn encode_an721_instantiate(
    name: String,
    symbol: String,
    minter: String,
    info: CollectionInfo,
) -> (r: Result<Vec<u8>, String>)
    ensures
        bytes_view(r) == an721_json(
            An721MsgView::Instantiate {
                name: name@,
                symbol: symbol@,
                minter: minter@,
                creator: info.creator@,
                description: info.description@,
                image: info.image@,
                external_link: crate::types::opt_text(info.external_link),
                royalty_info: royalty_view(info.royalty_info),
            },
        ),
{
    let royalty_info = match info.royalty_info {
        Some(r) => Some(an721::RoyaltyInfoResponse { payment_address: r.payment_address, share: Decimal::new(Uint128::new(r.share)) }),
        None => None,
    };
    let collection_info = anone_cw721::state::CollectionInfo { creator: info.creator, description: info.description, image: info.image, external_link: info.external_link, royalty_info };
    let msg = an721::InstantiateMsg { name, symbol, minter, collection_info };
    cosmwasm_std::to_binary(&msg).map(|b| b.0).map_err(|e| e.to_string())
}

/// Builds `anone_cw721::msg::ExecuteMsg::Mint` (with an empty extension) and
/// encodes it with `cosmwasm_std::to_binary`. Trusted: the bytes, or the
/// error's text, are what `an721_json` names for these fields.
#[verifier::external_body]
pub(crate) fn encode_an721_mint(token_id: String, owner: String, model_id: String, size: String) -> (r:
    Result<Vec<u8>, String>)
    ensures
        bytes_view(r) == an721_json(
            An721MsgView::Mint {
                token_id: token_id@,
                owner: owner@,
                model_id: model_id@,
                size: size@,
            },
        ),
{
    let mint = an721::MintMsg::<Empty> { token_id, owner, model_id, size, extension: Empty {} };
    let msg = an721::ExecuteMsg::Mint(mint);
    cosmwasm_std::to_binary(&msg).map(|b| b.0).map_err(|e| e.to_string())
}

/// Builds `anone_cw721::msg::ExecuteMsg::CreateShoeModel` (with an empty
/// extension) and encodes it with `cosmwasm_std::to_binary`. Trusted: the
/// bytes, or the error's text, are what `an721_json` names for these fields.
#[verifier::external_body]
pub(crate) fn encode_an721_create_model(model_id: String, owner: String, model_uri: String) -> (r:
    Result<Vec<u8>, String>)
    ensures
        bytes_view(r) == an721_json(
            An721MsgView::CreateShoeModel { model_id: model_id@, owner: owner@, model_uri: model_uri@ },
        ),
{
    let create = an721::CreateShoeModelMsg::<Empty> { model_id, owner, model_uri, extension: Empty {} };
    let msg = an721::ExecuteMsg::CreateShoeModel(create);
    cosmwasm_std::to_binary(&msg).map(|b| b.0).map_err(|e| e.to_string())
}

/// Builds `anone_cw721::msg::ExecuteMsg::ModifyCollectionInfo` (a royalty
/// share becomes `Decimal::new` of its atomics) and encodes it with
/// `cosmwasm_std::to_binary`. Trusted: the bytes, or the error's text, are
/// what `an721_json` names for these fields.
#[verifier::external_body]
pub(crate) fn encode_an721_modify_collection_info(
    description: Option<String>,
    image: Option<String>,
    external_link: Option<String>,
    royalty_info: Option<RoyaltyInfoResponse>,
) -> (r: Result<Vec<u8>, String>)
    ensures
        bytes_view(r) == an721_json(
            An721MsgView::ModifyCollectionInfo {
                description: crate::types::opt_text(description),
                image: crate::types::opt_text(image),
                external_link: crate::types::opt_text(external_link),
                royalty_info: royalty_view(royalty_info),
            },
        ),
{
    let royalty_info = match royalty_info {
        Some(r) => Some(an721::RoyaltyInfoResponse { payment_address: r.payment_address, share: Decimal::new(Uint128::new(r.share)) }),
        None => None,
    };
    let msg = an721::ExecuteMsg::<Empty>::ModifyCollectionInfo { description, image, external_link, royalty_info };
    cosmwasm_std::to_binary(&msg).map(|b| b.0).map_err(|e| e.to_string())
}

/// The address of the contract that an instantiation reply's data (a
/// `MsgInstantiateContractResponse` in protobuf) names, or `None` where the
/// data does not decode, as `cw_utils::parse_instantiate_response_data` reads it.
pub uninterp spec fn instantiated_address(data: Seq<u8>) -> Option<Seq<char>>;

/// Reads the reply to the NFT contract's instantiation with
/// `cw_utils::parse_reply_instantiate_data` (the reply rebuilt with no events,
/// which that function does not read). Trusted: a failed submessage and a
/// reply without data give `None`, as that function's source shows; otherwise
/// the result is the address that `instantiated_address` names for the data.
/// The parser's error is not kept: the contract answers every failure alike.
#[verifier::external_body]
pub(crate) fn parse_instantiate_reply(reply: Reply) -> (r: Option<String>)
    ensures
        match reply.result {
            SubMsgResult::Succeeded { data: Some(d) } => opt_text_eq(r, instantiated_address(d@)),
            _ => r.is_none(),
        },
{
    let result = match reply.result {
        SubMsgResult::Succeeded { data } => cosmwasm_std::SubMsgResult::Ok(
            cosmwasm_std::SubMsgResponse { events: vec![], data: data.map(cosmwasm_std::Binary) },
        ),
        SubMsgResult::Failed(e) => cosmwasm_std::SubMsgResult::Err(e),
    };
    let reply = cosmwasm_std::Reply { id: reply.id, result };
    cw_utils::parse_reply_instantiate_data(reply).ok().map(|r| r.contract_address)
}

/// An optional string holds the given text, or both are absent.
pub open spec fn opt_text_eq(r: Option<String>, t: Option<Seq<char>>) -> bool {
    crate::types::opt_text(r) == t
}

} // verus!
