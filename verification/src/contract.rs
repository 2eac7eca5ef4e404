//! The contract's calls: instantiation, the execute messages, the reply to
//! the NFT contract's instantiation and the queries. Each is proved to do
//! exactly what its counterpart in `model` says.
use vstd::prelude::*;
use vstd::string::*;

use crate::decimal::u32_to_string;
use crate::encode::{
    bytes_view, encode_an721_create_model, encode_an721_instantiate, encode_an721_mint,
    encode_an721_modify_collection_info, parse_instantiate_reply, royalty_view,
};
use crate::model::{
    admin_check, all_ids, answer_fits, ascending, conforms, reply_address, spec_admin_mint, spec_create_model,
    spec_create_model_encoded, spec_execute, spec_instantiate, spec_instantiate_encoded, spec_mint,
    spec_mint_encoded, spec_mint_sender, spec_query, spec_query_config, spec_query_mint_count,
    spec_query_mintable_num_tokens, spec_reply, spec_update_admin, spec_update_collection_info,
    spec_update_collection_info_encoded, spec_update_per_address_limit, spec_withdraw,
    text_result, total_minted, AN721_LABEL, CONTRACT_NAME, CONTRACT_VERSION,
    INSTANTIATE_AN721_REPLY_ID, MAX_PER_ADDRESS_LIMIT, MAX_TOKEN_LIMIT, NATIVE_DENOM, NOT_ADMIN,
};
use crate::msg::{
    An721InstantiateMsg, ConfigResponse, ExecuteMsg, HostAnswer, HostQuery, InstantiateMsg,
    MintCountResponse, MintableNumTokensResponse, QueryMsg, QueryResponse, Reply,
    RoyaltyInfoResponse,
};
use crate::state::lemma_after_mint_wf;
use crate::types::{
    coins_view, opt_text, Attribute, Coin, Config, ContractError, ContractState, ContractVersion,
    CosmosMsg, Env, MessageInfo, ReplyOn, Response, StdFailure, StoredItem, SubMsg,
};

verus! {

/// An owned copy of a text.
fn text(s: &str) -> (r: String)
    ensures
        r@ == s@,
{
    String::from_str(s)
}

fn attribute(key: &str, value: String) -> (a: Attribute)
    ensures
        a@ == (key@, value@),
{
    Attribute { key: text(key), value }
}

fn not_found(item: StoredItem) -> (e: ContractError)
    ensures
        e@ == crate::model::not_found(item),
{
    ContractError::Std(StdFailure::NotFound(item))
}

fn unauthorized() -> (e: ContractError)
    ensures
        e@ == crate::model::unauthorized(),
{
    ContractError::Unauthorized(text(NOT_ADMIN))
}

/// A message sent without a reply.
fn plain_submsg(msg: CosmosMsg) -> (m: SubMsg)
    ensures
        m@ == crate::model::plain_submsg(msg@),
{
    SubMsg { id: 0, msg, gas_limit: None, reply_on: ReplyOn::Never }
}

/// Sets up a launch: `num_tokens` tokens, numbered from 1, all mintable; the
/// sender as admin; and a submessage that instantiates the NFT contract with
/// this contract as its minter.
pub fn instantiate(env: &Env, info: MessageInfo, msg: InstantiateMsg) -> (r: Result<
    (ContractState, Response),
    ContractError,
>)
    ensures
        match spec_instantiate(env.contract_address@, info.sender@, coins_view(info.funds@), msg) {
            Ok((s, resp)) => r matches Ok((st, rp)) && st@ == s && rp@ == resp && st.wf(),
            Err(e) => r matches Err(x) && x@ == e,
        },
{
    if msg.num_tokens == 0 || msg.num_tokens > MAX_TOKEN_LIMIT {
        return Err(ContractError::InvalidNumTokens { min: 1, max: MAX_TOKEN_LIMIT });
    }
    if msg.per_address_limit == 0 || msg.per_address_limit > MAX_PER_ADDRESS_LIMIT {
        return Err(
            ContractError::InvalidPerAddressLimit {
                max: MAX_PER_ADDRESS_LIMIT,
                min: 1,
                got: msg.per_address_limit,
            },
        );
    }
    let InstantiateMsg { num_tokens, an721_code_id, an721_instantiate_msg, per_address_limit } =
        msg;
    let An721InstantiateMsg { name, symbol, minter: _, collection_info } = an721_instantiate_msg;
    let encoded = encode_an721_instantiate(
        name,
        symbol,
        env.contract_address.clone(),
        collection_info,
    );
    instantiate_encoded(info, num_tokens, an721_code_id, per_address_limit, encoded)
}

/// The end of `instantiate`, given the encoded instantiation message of the
/// NFT contract (or the encoder's error).
pub fn instantiate_encoded(
    info: MessageInfo,
    num_tokens: u32,
    an721_code_id: u64,
    per_address_limit: u32,
    encoded: Result<Vec<u8>, String>,
) -> (r: Result<(ContractState, Response), ContractError>)
    requires
        1 <= num_tokens <= MAX_TOKEN_LIMIT,
        1 <= per_address_limit <= MAX_PER_ADDRESS_LIMIT,
    ensures
        match spec_instantiate_encoded(
            info.sender@,
            coins_view(info.funds@),
            num_tokens,
            an721_code_id,
            per_address_limit,
            bytes_view(encoded),
        ) {
            Ok((s, resp)) => r matches Ok((st, rp)) && st@ == s && rp@ == resp && st.wf(),
            Err(e) => r matches Err(x) && x@ == e,
        },
{
    let json = match encoded {
        Ok(j) => j,
        Err(e) => {
            return Err(ContractError::Std(StdFailure::Generic(e)));
        },
    };
    let mut ids: Vec<u32> = Vec::new();
    let mut t: u32 = 0;
    while t < num_tokens
        invariant
            t <= num_tokens,
            ids@ =~= all_ids(t),
        decreases num_tokens - t,
    {
        t = t + 1;
        ids.push(t);
    }
    let config = Config { admin: info.sender.clone(), num_tokens, an721_code_id, per_address_limit };
    let state = ContractState {
        contract_version: Some(
            ContractVersion { contract: text(CONTRACT_NAME), version: text(CONTRACT_VERSION) },
        ),
        config: Some(config),
        an721_address: None,
        mintable_num_tokens: Some(num_tokens),
        mintable_token_ids: ids,
        minter_counts: Vec::new(),
    };
    let ghost funds = coins_view(info.funds@);
    let ghost sender = info.sender@;
    let sub = SubMsg {
        id: INSTANTIATE_AN721_REPLY_ID,
        msg: CosmosMsg::WasmInstantiate {
            admin: Some(info.sender.clone()),
            code_id: an721_code_id,
            msg: json,
            funds: info.funds,
            label: text(AN721_LABEL),
        },
        gas_limit: None,
        reply_on: ReplyOn::Success,
    };
    let mut messages: Vec<SubMsg> = Vec::new();
    messages.push(sub);
    let mut attributes: Vec<Attribute> = Vec::new();
    attributes.push(attribute("action", text("instantiate")));
    attributes.push(attribute("contract_name", text(CONTRACT_NAME)));
    attributes.push(attribute("contract_version", text(CONTRACT_VERSION)));
    attributes.push(attribute("sender", info.sender));
    let resp = Response { messages, attributes };
    proof {
        let (sx, rv) = spec_instantiate_encoded(
            sender,
            funds,
            num_tokens,
            an721_code_id,
            per_address_limit,
            bytes_view(encoded),
        )->Ok_0;
        assert(state@.mint_counts =~= Seq::empty());
        assert(state@ =~= sx);
        assert(resp@.messages =~= rv.messages);
        assert(resp@.attributes =~= rv.attributes);
        assert(resp@ =~= rv);
        assert(total_minted(state@.mint_counts) == 0);
        assert(ascending(state@.mintable_ids));
    }
    Ok((state, resp))
}

/// The mint shared by the three mint messages: takes the id given,
/// or the smallest mintable id, and mints it for the recipient (the sender
/// where there is none).
fn execute_mint(
    state: &mut ContractState,
    sender: &String,
    action: &str,
    recipient: Option<String>,
    token_id: Option<u32>,
    model_id: String,
    size: String,
) -> (r: Result<Response, ContractError>)
    requires
        old(state).wf(),
    ensures
        conforms(
            spec_mint(old(state)@, sender@, action@, opt_text(recipient), token_id, model_id@, size@),
            r,
            old(state)@,
            final(state)@,
        ),
        final(state).wf(),
{
    let num_tokens = match &state.config {
        None => {
            return Err(not_found(StoredItem::Config));
        },
        Some(c) => c.num_tokens,
    };
    if state.an721_address.is_none() {
        return Err(not_found(StoredItem::An721Address));
    }
    let owner = match recipient {
        Some(r) => r,
        None => sender.clone(),
    };
    let id = match token_id {
        Some(t) => {
            if t == 0 || t > num_tokens {
                return Err(ContractError::InvalidTokenId);
            }
            if state.token_position(t).is_none() {
                return Err(ContractError::TokenIdAlreadySold { token_id: t });
            }
            t
        },
        None => {
            if state.mintable_token_ids.len() == 0 {
                return Err(ContractError::SoldOut);
            }
            state.mintable_token_ids[0]
        },
    };
    assert(state@.mintable_ids.contains(id)) by {
        if token_id is None {
            assert(state@.mintable_ids[0] == id);
        }
    }
    let encoded = encode_an721_mint(u32_to_string(id), owner.clone(), model_id, size);
    execute_mint_encoded(state, sender, action, owner, id, encoded)
}

/// The end of a mint of the mintable token `id`, given the encoded mint
/// message of the NFT contract (or the encoder's error): `id` is no longer
/// mintable, and one more mint is recorded for the sender.
pub fn execute_mint_encoded(
    state: &mut ContractState,
    sender: &String,
    action: &str,
    owner: String,
    id: u32,
    encoded: Result<Vec<u8>, String>,
) -> (r: Result<Response, ContractError>)
    requires
        old(state).wf(),
        old(state)@.mintable_ids.contains(id),
    ensures
        conforms(
            spec_mint_encoded(old(state)@, sender@, action@, owner@, id, bytes_view(encoded)),
            r,
            old(state)@,
            final(state)@,
        ),
        final(state).wf(),
{
    let ghost s0 = state@;
    let an721 = match &state.an721_address {
        None => {
            return Err(not_found(StoredItem::An721Address));
        },
        Some(a) => a.clone(),
    };
    let json = match encoded {
        Ok(j) => j,
        Err(e) => {
            return Err(ContractError::Std(StdFailure::Generic(e)));
        },
    };
    let n = match state.mintable_num_tokens {
        None => {
            return Err(not_found(StoredItem::MintableNumTokens));
        },
        Some(n) => n,
    };
    let idx = match state.token_position(id) {
        Some(i) => i,
        None => {
            return Err(ContractError::TokenIdAlreadySold { token_id: id });
        },
    };
    proof {
        lemma_after_mint_wf(s0, sender@, id);
    }
    let count = state.mint_count(sender);
    state.mintable_token_ids.remove(idx);
    state.mintable_num_tokens = Some(n - 1);
    state.set_mint_count(sender, count + 1);
    let ghost s1 = state@;
    let mut messages: Vec<SubMsg> = Vec::new();
    messages.push(an721_execute(an721, json));
    let mut attributes: Vec<Attribute> = Vec::new();
    attributes.push(attribute("action", text(action)));
    attributes.push(attribute("sender", sender.clone()));
    attributes.push(attribute("recipient", owner));
    attributes.push(attribute("token_id", u32_to_string(id)));
    let resp = Response { messages, attributes };
    proof {
        let expected = spec_mint_encoded(s0, sender@, action@, owner@, id, bytes_view(encoded));
        let (sx, rv) = expected->Ok_0;
        assert(s1 =~= sx);
        assert(resp@.messages =~= rv.messages);
        assert(resp@.attributes =~= rv.attributes);
        assert(resp@ =~= rv);
    }
    Ok(resp)
}

/// `mint`: the sender mints a token for itself, while it has made fewer
/// mints than the per-address limit.
pub fn execute_mint_sender(
    state: &mut ContractState,
    info: &MessageInfo,
    model_id: String,
    size: String,
) -> (r: Result<Response, ContractError>)
    requires
        old(state).wf(),
    ensures
        conforms(
            spec_mint_sender(old(state)@, info.sender@, model_id@, size@),
            r,
            old(state)@,
            final(state)@,
        ),
        final(state).wf(),
{
    let limit = match &state.config {
        None => {
            return Err(not_found(StoredItem::Config));
        },
        Some(c) => c.per_address_limit,
    };
    let count = state.mint_count(&info.sender);
    if count >= limit {
        return Err(ContractError::MaxPerAddressLimitExceeded);
    }
    execute_mint(state, &info.sender, "mint_sender", None, None, model_id, size)
}

/// `mint_to`: the admin mints a token for a recipient; `recipient` is the
/// host's validation of the recipient's address.
pub fn execute_mint_to(
    state: &mut ContractState,
    info: &MessageInfo,
    recipient: Result<String, String>,
    model_id: String,
    size: String,
) -> (r: Result<Response, ContractError>)
    requires
        old(state).wf(),
    ensures
        conforms(
            spec_admin_mint(
                old(state)@,
                info.sender@,
                "mint_to"@,
                text_result(recipient),
                None,
                model_id@,
                size@,
            ),
            r,
            old(state)@,
            final(state)@,
        ),
        final(state).wf(),
{
    let recipient = match recipient {
        Err(e) => {
            return Err(ContractError::Std(StdFailure::Generic(e)));
        },
        Ok(r) => r,
    };
    match &state.config {
        None => {
            return Err(not_found(StoredItem::Config));
        },
        Some(c) => {
            if info.sender != c.admin {
                return Err(unauthorized());
            }
        },
    }
    execute_mint(state, &info.sender, "mint_to", Some(recipient), None, model_id, size)
}

/// `mint_for`: the admin mints the given token for a recipient; `recipient`
/// is the host's validation of the recipient's address.
pub fn execute_mint_for(
    state: &mut ContractState,
    info: &MessageInfo,
    token_id: u32,
    recipient: Result<String, String>,
    model_id: String,
    size: String,
) -> (r: Result<Response, ContractError>)
    requires
        old(state).wf(),
    ensures
        conforms(
            spec_admin_mint(
                old(state)@,
                info.sender@,
                "mint_for"@,
                text_result(recipient),
                Some(token_id),
                model_id@,
                size@,
            ),
            r,
            old(state)@,
            final(state)@,
        ),
        final(state).wf(),
{
    let recipient = match recipient {
        Err(e) => {
            return Err(ContractError::Std(StdFailure::Generic(e)));
        },
        Ok(r) => r,
    };
    match &state.config {
        None => {
            return Err(not_found(StoredItem::Config));
        },
        Some(c) => {
            if info.sender != c.admin {
                return Err(unauthorized());
            }
        },
    }
    execute_mint(state, &info.sender, "mint_for", Some(recipient), Some(token_id), model_id, size)
}

/// `withdraw`: the admin takes the contract's whole balance in the native
/// denomination; `balance` is the host's answer to the balance query.
pub fn execute_withdraw(
    state: &ContractState,
    info: &MessageInfo,
    balance: Result<Coin, String>,
) -> (r: Result<Response, ContractError>)
    ensures
        conforms(
            spec_withdraw(state@, info.sender@, balance_view(balance)),
            r,
            state@,
            state@,
        ),
{
    match &state.config {
        None => {
            return Err(not_found(StoredItem::Config));
        },
        Some(c) => {
            if c.admin != info.sender {
                return Err(unauthorized());
            }
        },
    }
    let coin = match balance {
        Err(e) => {
            return Err(ContractError::Std(StdFailure::Generic(e)));
        },
        Ok(c) => c,
    };
    if coin.amount == 0 {
        return Err(ContractError::ZeroBalance);
    }
    let ghost cv = coin@;
    let mut amount: Vec<Coin> = Vec::new();
    amount.push(coin);
    assert(coins_view(amount@) =~= seq![cv]);
    let send = CosmosMsg::BankSend { to_address: info.sender.clone(), amount };
    let mut messages: Vec<SubMsg> = Vec::new();
    messages.push(plain_submsg(send));
    let mut attributes: Vec<Attribute> = Vec::new();
    attributes.push(attribute("action", text("withdraw")));
    let resp = Response { messages, attributes };
    proof {
        let rv = spec_withdraw(state@, info.sender@, balance_view(balance))->Ok_0.1;
        assert(resp@.messages =~= rv.messages);
        assert(resp@.attributes =~= rv.attributes);
        assert(resp@ =~= rv);
    }
    Ok(resp)
}

/// The view of the host's balance answer.
pub open spec fn balance_view(b: Result<Coin, String>) -> Result<(Seq<char>, u128), Seq<char>> {
    match b {
        Ok(c) => Ok(c@),
        Err(e) => Err(e@),
    }
}

/// An execution of the NFT contract with no funds.
fn an721_execute(an721: String, json: Vec<u8>) -> (m: SubMsg)
    ensures
        m@ == crate::model::an721_execute(an721@, json@),
{
    let no_funds: Vec<Coin> = Vec::new();
    assert(coins_view(no_funds@) =~= Seq::empty());
    plain_submsg(CosmosMsg::WasmExecute { contract_addr: an721, msg: json, funds: no_funds })
}

/// `create_model`: the admin asks the NFT contract to create a shoe model
/// owned by the admin.
pub fn execute_create_model(
    state: &ContractState,
    info: &MessageInfo,
    model_id: String,
    model_uri: String,
) -> (r: Result<Response, ContractError>)
    ensures
        conforms(
            spec_create_model(state@, info.sender@, model_id@, model_uri@),
            r,
            state@,
            state@,
        ),
{
    let encoded = encode_an721_create_model(model_id.clone(), info.sender.clone(), model_uri);
    execute_create_model_encoded(state, info, model_id, encoded)
}

/// The end of `create_model`, given the encoded message of the NFT contract
/// (or the encoder's error).
pub fn execute_create_model_encoded(
    state: &ContractState,
    info: &MessageInfo,
    model_id: String,
    encoded: Result<Vec<u8>, String>,
) -> (r: Result<Response, ContractError>)
    ensures
        conforms(
            spec_create_model_encoded(state@, info.sender@, model_id@, bytes_view(encoded)),
            r,
            state@,
            state@,
        ),
{
    let admin = match &state.config {
        None => {
            return Err(not_found(StoredItem::Config));
        },
        Some(c) => {
            if info.sender != c.admin {
                return Err(unauthorized());
            }
            c.admin.clone()
        },
    };
    let an721 = match &state.an721_address {
        None => {
            return Err(not_found(StoredItem::An721Address));
        },
        Some(a) => a.clone(),
    };
    let json = match encoded {
        Ok(j) => j,
        Err(e) => {
            return Err(ContractError::Std(StdFailure::Generic(e)));
        },
    };
    let ghost mid = model_id@;
    let mut messages: Vec<SubMsg> = Vec::new();
    messages.push(an721_execute(an721, json));
    let mut attributes: Vec<Attribute> = Vec::new();
    attributes.push(attribute("action", text("create_model")));
    attributes.push(attribute("sender", info.sender.clone()));
    attributes.push(attribute("model_id", model_id));
    attributes.push(attribute("owner", admin));
    let resp = Response { messages, attributes };
    proof {
        let rv = spec_create_model_encoded(state@, info.sender@, mid, bytes_view(encoded))->Ok_0.1;
        assert(resp@.messages =~= rv.messages);
        assert(resp@.attributes =~= rv.attributes);
        assert(resp@ =~= rv);
    }
    Ok(resp)
}

/// `update_per_model_shoe_limit`: the admin sets the per-address limit, which
/// must lie within 1 and `MAX_PER_ADDRESS_LIMIT`.
pub fn execute_update_per_address_limit(
    state: &mut ContractState,
    info: &MessageInfo,
    per_address_limit: u32,
) -> (r: Result<Response, ContractError>)
    requires
        old(state).wf(),
    ensures
        conforms(
            spec_update_per_address_limit(old(state)@, info.sender@, per_address_limit),
            r,
            old(state)@,
            final(state)@,
        ),
        final(state).wf(),
{
    let config = match &state.config {
        None => {
            return Err(not_found(StoredItem::Config));
        },
        Some(c) => {
            if info.sender != c.admin {
                return Err(unauthorized());
            }
            if per_address_limit == 0 || per_address_limit > MAX_PER_ADDRESS_LIMIT {
                return Err(
                    ContractError::InvalidPerAddressLimit {
                        max: MAX_PER_ADDRESS_LIMIT,
                        min: 1,
                        got: per_address_limit,
                    },
                );
            }
            Config {
                admin: c.admin.clone(),
                num_tokens: c.num_tokens,
                an721_code_id: c.an721_code_id,
                per_address_limit,
            }
        },
    };
    state.config = Some(config);
    let mut attributes: Vec<Attribute> = Vec::new();
    attributes.push(attribute("action", text("update_per_address_limit")));
    attributes.push(attribute("sender", info.sender.clone()));
    attributes.push(attribute("limit", u32_to_string(per_address_limit)));
    let resp = Response { messages: Vec::new(), attributes };
    proof {
        let (sx, rv) = spec_update_per_address_limit(old(state)@, info.sender@, per_address_limit)->Ok_0;
        assert(state@ =~= sx);
        assert(resp@.messages =~= rv.messages);
        assert(resp@.attributes =~= rv.attributes);
        assert(resp@ =~= rv);
    }
    Ok(resp)
}

/// `update_collection_info`: the admin asks the NFT contract to change the
/// collection's description, link, image and royalties.
pub fn execute_update_collection_info(
    state: &ContractState,
    info: &MessageInfo,
    description: Option<String>,
    external_link: Option<String>,
    image: Option<String>,
    royalty_info: Option<RoyaltyInfoResponse>,
) -> (r: Result<Response, ContractError>)
    ensures
        conforms(
            spec_update_collection_info(
                state@,
                info.sender@,
                opt_text(description),
                opt_text(external_link),
                opt_text(image),
                royalty_view(royalty_info),
            ),
            r,
            state@,
            state@,
        ),
{
    let encoded = encode_an721_modify_collection_info(description, image, external_link, royalty_info);
    execute_update_collection_info_encoded(state, info, encoded)
}

/// The end of `update_collection_info`, given the encoded message of the NFT
/// contract (or the encoder's error).
pub fn execute_update_collection_info_encoded(
    state: &ContractState,
    info: &MessageInfo,
    encoded: Result<Vec<u8>, String>,
) -> (r: Result<Response, ContractError>)
    ensures
        conforms(
            spec_update_collection_info_encoded(state@, info.sender@, bytes_view(encoded)),
            r,
            state@,
            state@,
        ),
{
    match &state.config {
        None => {
            return Err(not_found(StoredItem::Config));
        },
        Some(c) => {
            if info.sender != c.admin {
                return Err(unauthorized());
            }
        },
    }
    let an721 = match &state.an721_address {
        None => {
            return Err(not_found(StoredItem::An721Address));
        },
        Some(a) => a.clone(),
    };
    let json = match encoded {
        Ok(j) => j,
        Err(e) => {
            return Err(ContractError::Std(StdFailure::Generic(e)));
        },
    };
    let mut messages: Vec<SubMsg> = Vec::new();
    messages.push(an721_execute(an721, json));
    let mut attributes: Vec<Attribute> = Vec::new();
    attributes.push(attribute("action", text("update_collection_info")));
    attributes.push(attribute("sender", info.sender.clone()));
    let resp = Response { messages, attributes };
    proof {
        let rv = spec_update_collection_info_encoded(state@, info.sender@, bytes_view(encoded))->Ok_0.1;
        assert(resp@.messages =~= rv.messages);
        assert(resp@.attributes =~= rv.attributes);
        assert(resp@ =~= rv);
    }
    Ok(resp)
}

/// `update_admin`: the admin hands the launch over; `validated` is the host's
/// validation of `new_admin`.
pub fn execute_update_admin(
    state: &mut ContractState,
    info: &MessageInfo,
    new_admin: String,
    validated: Result<String, String>,
) -> (r: Result<Response, ContractError>)
    requires
        old(state).wf(),
    ensures
        conforms(
            spec_update_admin(old(state)@, info.sender@, new_admin@, text_result(validated)),
            r,
            old(state)@,
            final(state)@,
        ),
        final(state).wf(),
{
    let config = match &state.config {
        None => {
            return Err(not_found(StoredItem::Config));
        },
        Some(c) => {
            if info.sender != c.admin {
                return Err(unauthorized());
            }
            let admin = match validated {
                Err(e) => {
                    return Err(ContractError::Std(StdFailure::Generic(e)));
                },
                Ok(a) => a,
            };
            Config {
                admin,
                num_tokens: c.num_tokens,
                an721_code_id: c.an721_code_id,
                per_address_limit: c.per_address_limit,
            }
        },
    };
    state.config = Some(config);
    let mut attributes: Vec<Attribute> = Vec::new();
    attributes.push(attribute("action", text("update_admin")));
    attributes.push(attribute("sender", info.sender.clone()));
    attributes.push(attribute("new_admin", new_admin));
    let resp = Response { messages: Vec::new(), attributes };
    proof {
        let (sx, rv) = spec_update_admin(old(state)@, info.sender@, new_admin@, text_result(validated))->Ok_0;
        assert(state@ =~= sx);
        assert(resp@.messages =~= rv.messages);
        assert(resp@.attributes =~= rv.attributes);
        assert(resp@ =~= rv);
    }
    Ok(resp)
}

/// `reply`: the chain's reply to the NFT contract's instantiation; records the
/// new contract's address.
pub fn reply(state: &mut ContractState, msg: Reply) -> (r: Result<Response, ContractError>)
    requires
        old(state).wf(),
    ensures
        conforms(
            spec_reply(old(state)@, msg.id, reply_address(msg.result)),
            r,
            old(state)@,
            final(state)@,
        ),
        final(state).wf(),
{
    if msg.id != INSTANTIATE_AN721_REPLY_ID {
        return Err(ContractError::InvalidReplyID);
    }
    let id = msg.id;
    let address = parse_instantiate_reply(msg);
    reply_with_address(state, id, address)
}

/// The end of `reply`, given the address that the reply's data names (or
/// `None` where it names none).
pub fn reply_with_address(state: &mut ContractState, id: u64, address: Option<String>) -> (r: Result<
    Response,
    ContractError,
>)
    requires
        old(state).wf(),
    ensures
        conforms(spec_reply(old(state)@, id, opt_text(address)), r, old(state)@, final(state)@),
        final(state).wf(),
{
    if id != INSTANTIATE_AN721_REPLY_ID {
        return Err(ContractError::InvalidReplyID);
    }
    match address {
        None => Err(ContractError::InstantiateAn721Error),
        Some(address) => {
            let ghost a = address@;
            state.an721_address = Some(address);
            let mut attributes: Vec<Attribute> = Vec::new();
            attributes.push(attribute("action", text("instantiate_an721_reply")));
            let resp = Response { messages: Vec::new(), attributes };
            proof {
                let (sx, rv) = spec_reply(old(state)@, id, Some(a))->Ok_0;
                assert(state@ =~= sx);
                assert(resp@.messages =~= rv.messages);
                assert(resp@.attributes =~= rv.attributes);
                assert(resp@ =~= rv);
            }
            Ok(resp)
        },
    }
}

/// Whether `sender` is the configured admin.
fn is_admin(state: &ContractState, sender: &String) -> (b: bool)
    ensures
        b == (admin_check(state@, sender@) is Ok),
{
    match &state.config {
        None => false,
        Some(c) => *sender == c.admin,
    }
}

/// What the host must be asked before `msg` can be decided: the validation of
/// the address that a mint names; for `update_admin`, the validation of the
/// new admin, and for `withdraw`, the contract's balance in the native
/// denomination, both only when the sender is the configured admin (the
/// calls refuse anyone else before they need the answer).
pub fn execute_host_query(state: &ContractState, info: &MessageInfo, env: &Env, msg: &ExecuteMsg) -> (q:
    HostQuery)
    ensures
        match msg {
            ExecuteMsg::MintTo { recipient, .. } => q matches HostQuery::ValidateAddress(a) && a@
                == recipient@,
            ExecuteMsg::MintFor { recipient, .. } => q matches HostQuery::ValidateAddress(a) && a@
                == recipient@,
            ExecuteMsg::UpdateAdmin { new_admin } => if admin_check(state@, info.sender@) is Ok {
                q matches HostQuery::ValidateAddress(a) && a@ == new_admin@
            } else {
                q is Nothing
            },
            ExecuteMsg::Withdraw {  } => if admin_check(state@, info.sender@) is Ok {
                q matches HostQuery::Balance { address, denom } && address@ == env.contract_address@
                    && denom@ == NATIVE_DENOM@
            } else {
                q is Nothing
            },
            _ => q is Nothing,
        },
{
    match msg {
        ExecuteMsg::MintTo { recipient, .. } => HostQuery::ValidateAddress(recipient.clone()),
        ExecuteMsg::MintFor { recipient, .. } => HostQuery::ValidateAddress(recipient.clone()),
        ExecuteMsg::UpdateAdmin { new_admin } => if is_admin(state, &info.sender) {
            HostQuery::ValidateAddress(new_admin.clone())
        } else {
            HostQuery::Nothing
        },
        ExecuteMsg::Withdraw {  } => if is_admin(state, &info.sender) {
            HostQuery::Balance { address: env.contract_address.clone(), denom: text(NATIVE_DENOM) }
        } else {
            HostQuery::Nothing
        },
        _ => HostQuery::Nothing,
    }
}

/// Carries out an execute message; `answer` is the host's answer to
/// `execute_host_query` for the message.
pub fn execute(
    state: &mut ContractState,
    info: &MessageInfo,
    msg: ExecuteMsg,
    answer: HostAnswer,
) -> (r: Result<Response, ContractError>)
    requires
        old(state).wf(),
        answer_fits(old(state)@, info.sender@, msg, answer),
    ensures
        conforms(spec_execute(old(state)@, info.sender@, msg, answer), r, old(state)@, final(state)@),
        final(state).wf(),
{
    match msg {
        ExecuteMsg::Mint { model_id, size } => execute_mint_sender(state, info, model_id, size),
        ExecuteMsg::MintTo { recipient: _, model_id, size } => {
            let validated = match answer {
                HostAnswer::Address(v) => v,
                _ => Err(String::new()),
            };
            execute_mint_to(state, info, validated, model_id, size)
        },
        ExecuteMsg::MintFor { token_id, recipient: _, model_id, size } => {
            let validated = match answer {
                HostAnswer::Address(v) => v,
                _ => Err(String::new()),
            };
            execute_mint_for(state, info, token_id, validated, model_id, size)
        },
        ExecuteMsg::CreateModel { model_id, model_uri } => execute_create_model(
            state,
            info,
            model_id,
            model_uri,
        ),
        ExecuteMsg::UpdatePerModelShoeLimit { per_address_limit } =>
            execute_update_per_address_limit(state, info, per_address_limit),
        ExecuteMsg::UpdateCollectionInfo { description, external_link, image, royalty_info } =>
            execute_update_collection_info(
            state,
            info,
            description,
            external_link,
            image,
            royalty_info,
        ),
        ExecuteMsg::UpdateAdmin { new_admin } => {
            // the validation is read only after the admin check
            let validated = match answer {
                HostAnswer::Address(v) => v,
                _ => Err(String::new()),
            };
            execute_update_admin(state, info, new_admin, validated)
        },
        ExecuteMsg::Withdraw {  } => {
            // the balance is read only after the admin check
            let balance = match answer {
                HostAnswer::Balance(b) => b,
                _ => Err(String::new()),
            };
            execute_withdraw(state, info, balance)
        },
    }
}

/// The view of a query's outcome.
pub open spec fn query_view<T: View<V = crate::model::QueryResponseView>>(r: Result<T, StdFailure>) -> Result<
    crate::model::QueryResponseView,
    crate::types::StdFailureView,
> {
    match r {
        Ok(x) => Ok(x@),
        Err(e) => Err(e@),
    }
}

/// `config`: the configuration and the NFT contract's address.
pub fn query_config(state: &ContractState) -> (r: Result<ConfigResponse, StdFailure>)
    ensures
        query_view(wrap_config(r)) == spec_query_config(state@),
{
    match &state.config {
        None => Err(StdFailure::NotFound(StoredItem::Config)),
        Some(c) => match &state.an721_address {
            None => Err(StdFailure::NotFound(StoredItem::An721Address)),
            Some(a) => Ok(
                ConfigResponse {
                    admin: c.admin.clone(),
                    an721_address: a.clone(),
                    an721_code_id: c.an721_code_id,
                    num_tokens: c.num_tokens,
                    per_address_limit: c.per_address_limit,
                },
            ),
        },
    }
}

pub open spec fn wrap_config(r: Result<ConfigResponse, StdFailure>) -> Result<QueryResponse, StdFailure> {
    match r {
        Ok(c) => Ok(QueryResponse::Config(c)),
        Err(e) => Err(e),
    }
}

/// `mintable_num_tokens`: how many tokens can still be minted.
pub fn query_mintable_num_tokens(state: &ContractState) -> (r: Result<
    MintableNumTokensResponse,
    StdFailure,
>)
    ensures
        query_view(wrap_mintable(r)) == spec_query_mintable_num_tokens(state@),
{
    match state.mintable_num_tokens {
        None => Err(StdFailure::NotFound(StoredItem::MintableNumTokens)),
        Some(count) => Ok(MintableNumTokensResponse { count }),
    }
}

pub open spec fn wrap_mintable(r: Result<MintableNumTokensResponse, StdFailure>) -> Result<
    QueryResponse,
    StdFailure,
> {
    match r {
        Ok(c) => Ok(QueryResponse::MintableNumTokens(c)),
        Err(e) => Err(e),
    }
}

/// `mint_count`: how many mints an address has made; `validated` is the
/// host's validation of the address asked about.
pub fn query_mint_count(state: &ContractState, validated: Result<String, String>) -> (r: Result<
    MintCountResponse,
    StdFailure,
>)
    ensures
        query_view(wrap_mint_count(r)) == spec_query_mint_count(state@, text_result(validated)),
{
    match validated {
        Err(e) => Err(StdFailure::Generic(e)),
        Ok(address) => {
            let count = state.mint_count(&address);
            Ok(MintCountResponse { address, count })
        },
    }
}

pub open spec fn wrap_mint_count(r: Result<MintCountResponse, StdFailure>) -> Result<
    QueryResponse,
    StdFailure,
> {
    match r {
        Ok(c) => Ok(QueryResponse::MintCount(c)),
        Err(e) => Err(e),
    }
}

/// What the host must be asked before a query can be answered: the validation
/// of the address that `mint_count` names.
pub fn query_host_query(msg: &QueryMsg) -> (q: HostQuery)
    ensures
        match msg {
            QueryMsg::MintCount { address } => q matches HostQuery::ValidateAddress(a) && a@
                == address@,
            _ => q is Nothing,
        },
{
    match msg {
        QueryMsg::MintCount { address } => HostQuery::ValidateAddress(address.clone()),
        _ => HostQuery::Nothing,
    }
}

/// Answers a query; `answer` is the host's answer to `query_host_query`.
pub fn query(state: &ContractState, msg: QueryMsg, answer: HostAnswer) -> (r: Result<
    QueryResponse,
    StdFailure,
>)
    requires
        msg is MintCount ==> answer is Address,
    ensures
        query_view(r) == spec_query(state@, msg, answer),
{
    match msg {
        QueryMsg::Config {  } => match query_config(state) {
            Ok(c) => Ok(QueryResponse::Config(c)),
            Err(e) => Err(e),
        },
        QueryMsg::MintableNumTokens {  } => match query_mintable_num_tokens(state) {
            Ok(c) => Ok(QueryResponse::MintableNumTokens(c)),
            Err(e) => Err(e),
        },
        QueryMsg::MintCount { address: _ } => {
            let validated = match answer {
                HostAnswer::Address(v) => v,
                _ => {
                    proof {
                        assert(false);
                    }
                    Err(text(""))
                },
            };
            match query_mint_count(state, validated) {
                Ok(c) => Ok(QueryResponse::MintCount(c)),
                Err(e) => Err(e),
            }
        },
    }
}

} // verus!
