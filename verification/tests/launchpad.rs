use anone_launchpad::contract::{
    execute, execute_create_model, execute_create_model_encoded, execute_host_query,
    execute_mint_encoded, execute_mint_for, execute_mint_sender, execute_mint_to,
    execute_update_admin, execute_update_collection_info, execute_update_collection_info_encoded,
    execute_update_per_address_limit, execute_withdraw, instantiate, instantiate_encoded, query,
    query_config, query_host_query, query_mint_count, query_mintable_num_tokens, reply,
    reply_with_address,
};
use anone_launchpad::decimal::u32_to_string;
use anone_launchpad::msg::{
    An721InstantiateMsg, CollectionInfo, ExecuteMsg, HostAnswer, HostQuery, InstantiateMsg,
    MintCountResponse, MintableNumTokensResponse, QueryMsg, QueryResponse, Reply,
    RoyaltyInfoResponse, SubMsgResult,
};
use anone_launchpad::types::{
    Attribute, Coin, Config, ContractError, ContractState, CosmosMsg, Env, MessageInfo,
    MinterCount, ReplyOn, StdFailure, StoredItem, SubMsg,
};

const ADMIN: &str = "admin";
const USER: &str = "user";
const CONTRACT: &str = "launchpad_contract";
const AN721: &str = "an721_contract";

fn s(x: &str) -> String {
    x.to_string()
}

fn info(sender: &str) -> MessageInfo {
    MessageInfo { sender: s(sender), funds: vec![] }
}

fn env() -> Env {
    Env { contract_address: s(CONTRACT) }
}

fn collection() -> CollectionInfo {
    CollectionInfo {
        creator: s(ADMIN),
        description: s("shoes"),
        image: s("https://example.com/shoes.png"),
        external_link: None,
        royalty_info: Some(RoyaltyInfoResponse {
            payment_address: s(ADMIN),
            share: 100_000_000_000_000_000,
        }),
    }
}

fn init_msg(num_tokens: u32, per_address_limit: u32) -> InstantiateMsg {
    InstantiateMsg {
        num_tokens,
        an721_code_id: 7,
        an721_instantiate_msg: An721InstantiateMsg {
            name: s("Shoes"),
            symbol: s("SHOE"),
            minter: s("ignored"),
            collection_info: collection(),
        },
        per_address_limit,
    }
}

fn attr(k: &str, v: &str) -> Attribute {
    Attribute { key: s(k), value: s(v) }
}

/// Protobuf of `MsgInstantiateContractResponse { contract_address }`.
fn instantiate_reply_data(address: &str) -> Vec<u8> {
    let mut data = vec![0x0a, address.len() as u8];
    data.extend_from_slice(address.as_bytes());
    data
}

/// An instantiated launch whose NFT contract has replied.
fn launched(num_tokens: u32, per_address_limit: u32) -> ContractState {
    let (mut state, _) = instantiate(&env(), info(ADMIN), init_msg(num_tokens, per_address_limit)).unwrap();
    let r = Reply { id: 1, result: SubMsgResult::Succeeded { data: Some(instantiate_reply_data(AN721)) } };
    reply(&mut state, r).unwrap();
    state
}

fn mint_json(token_id: &str, owner: &str, model_id: &str, size: &str) -> Vec<u8> {
    let msg = anone_cw721::msg::ExecuteMsg::Mint(anone_cw721::msg::MintMsg::<cosmwasm_std::Empty> {
        token_id: s(token_id),
        owner: s(owner),
        model_id: s(model_id),
        size: s(size),
        extension: cosmwasm_std::Empty {},
    });
    cosmwasm_std::to_binary(&msg).unwrap().0
}

#[test]
fn decimal_text_of_u32() {
    assert_eq!(u32_to_string(0), "0");
    assert_eq!(u32_to_string(7), "7");
    assert_eq!(u32_to_string(42), "42");
    assert_eq!(u32_to_string(100000), "100000");
    assert_eq!(u32_to_string(u32::MAX), u32::MAX.to_string());
}

#[test]
fn instantiate_sets_up_the_launch() {
    let funds = vec![Coin { denom: s("uan1"), amount: 5 }];
    let (state, resp) = instantiate(
        &env(),
        MessageInfo { sender: s(ADMIN), funds: funds.clone() },
        init_msg(5, 3),
    )
    .unwrap();
    assert!(state.check_wf());
    assert_eq!(state.mintable_token_ids, vec![1, 2, 3, 4, 5]);
    assert_eq!(state.mintable_num_tokens, Some(5));
    assert_eq!(
        state.config,
        Some(Config { admin: s(ADMIN), num_tokens: 5, an721_code_id: 7, per_address_limit: 3 })
    );
    assert_eq!(state.an721_address, None);
    assert!(state.minter_counts.is_empty());
    let version = state.contract_version.clone().unwrap();
    assert_eq!(version.contract, "crates.io:anone-launchpad");
    assert_eq!(version.version, "0.1.0");
    assert_eq!(
        resp.attributes,
        vec![
            attr("action", "instantiate"),
            attr("contract_name", "crates.io:anone-launchpad"),
            attr("contract_version", "0.1.0"),
            attr("sender", ADMIN),
        ]
    );
    let expected_msg = anone_cw721::msg::InstantiateMsg {
        name: s("Shoes"),
        symbol: s("SHOE"),
        minter: s(CONTRACT),
        collection_info: anone_cw721::state::CollectionInfo {
            creator: s(ADMIN),
            description: s("shoes"),
            image: s("https://example.com/shoes.png"),
            external_link: None,
            royalty_info: Some(anone_cw721::msg::RoyaltyInfoResponse {
                payment_address: s(ADMIN),
                share: cosmwasm_std::Decimal::percent(10),
            }),
        },
    };
    let json = cosmwasm_std::to_binary(&expected_msg).unwrap().0;
    assert_eq!(
        resp.messages,
        vec![SubMsg {
            id: 1,
            msg: CosmosMsg::WasmInstantiate {
                admin: Some(s(ADMIN)),
                code_id: 7,
                msg: json,
                funds,
                label: s("Fixed price minter"),
            },
            gas_limit: None,
            reply_on: ReplyOn::Success,
        }]
    );
}

#[test]
fn instantiate_checks_supply_and_limit() {
    let e = instantiate(&env(), info(ADMIN), init_msg(0, 3)).unwrap_err();
    assert_eq!(e, ContractError::InvalidNumTokens { min: 1, max: 100000 });
    let e = instantiate(&env(), info(ADMIN), init_msg(100001, 3)).unwrap_err();
    assert_eq!(e, ContractError::InvalidNumTokens { min: 1, max: 100000 });
    let e = instantiate(&env(), info(ADMIN), init_msg(10, 0)).unwrap_err();
    assert_eq!(e, ContractError::InvalidPerAddressLimit { max: 50, min: 1, got: 0 });
    let e = instantiate(&env(), info(ADMIN), init_msg(10, 51)).unwrap_err();
    assert_eq!(e, ContractError::InvalidPerAddressLimit { max: 50, min: 1, got: 51 });
    assert!(instantiate(&env(), info(ADMIN), init_msg(100000, 50)).is_ok());
}

#[test]
fn instantiate_encoded_reports_encoder_error() {
    let e = instantiate_encoded(info(ADMIN), 3, 7, 2, Err(s("bad"))).unwrap_err();
    assert_eq!(e, ContractError::Std(StdFailure::Generic(s("bad"))));
    let (state, resp) = instantiate_encoded(info(ADMIN), 3, 7, 2, Ok(vec![1, 2, 3])).unwrap();
    assert_eq!(state.mintable_token_ids, vec![1, 2, 3]);
    match &resp.messages[0].msg {
        CosmosMsg::WasmInstantiate { msg, .. } => assert_eq!(msg, &vec![1, 2, 3]),
        other => panic!("unexpected message {:?}", other),
    }
}

#[test]
fn reply_records_the_nft_contract() {
    let (mut state, _) = instantiate(&env(), info(ADMIN), init_msg(3, 2)).unwrap();
    let wrong = Reply { id: 2, result: SubMsgResult::Succeeded { data: Some(instantiate_reply_data(AN721)) } };
    assert_eq!(reply(&mut state, wrong).unwrap_err(), ContractError::InvalidReplyID);
    let failed = Reply { id: 1, result: SubMsgResult::Failed(s("out of gas")) };
    assert_eq!(reply(&mut state, failed).unwrap_err(), ContractError::InstantiateAn721Error);
    let no_data = Reply { id: 1, result: SubMsgResult::Succeeded { data: None } };
    assert_eq!(reply(&mut state, no_data).unwrap_err(), ContractError::InstantiateAn721Error);
    let garbage = Reply { id: 1, result: SubMsgResult::Succeeded { data: Some(vec![0xff, 0x01]) } };
    assert_eq!(reply(&mut state, garbage).unwrap_err(), ContractError::InstantiateAn721Error);
    assert_eq!(state.an721_address, None);
    let ok = Reply { id: 1, result: SubMsgResult::Succeeded { data: Some(instantiate_reply_data(AN721)) } };
    let resp = reply(&mut state, ok).unwrap();
    assert_eq!(resp.attributes, vec![attr("action", "instantiate_an721_reply")]);
    assert!(resp.messages.is_empty());
    assert_eq!(state.an721_address, Some(s(AN721)));
    assert!(state.check_wf());
}

#[test]
fn reply_with_address_checks_the_id() {
    let mut state = launched(2, 2);
    assert_eq!(
        reply_with_address(&mut state, 3, Some(s("x"))).unwrap_err(),
        ContractError::InvalidReplyID
    );
    assert_eq!(reply_with_address(&mut state, 1, None).unwrap_err(), ContractError::InstantiateAn721Error);
    reply_with_address(&mut state, 1, Some(s("other"))).unwrap();
    assert_eq!(state.an721_address, Some(s("other")));
}

#[test]
fn mint_takes_smallest_id_and_counts_the_sender() {
    let mut state = launched(3, 2);
    let resp = execute_mint_sender(&mut state, &info(USER), s("m1"), s("42")).unwrap();
    assert_eq!(
        resp.attributes,
        vec![attr("action", "mint_sender"), attr("sender", USER), attr("recipient", USER), attr("token_id", "1")]
    );
    assert_eq!(
        resp.messages,
        vec![SubMsg {
            id: 0,
            msg: CosmosMsg::WasmExecute {
                contract_addr: s(AN721),
                msg: mint_json("1", USER, "m1", "42"),
                funds: vec![],
            },
            gas_limit: None,
            reply_on: ReplyOn::Never,
        }]
    );
    assert_eq!(state.mintable_token_ids, vec![2, 3]);
    assert_eq!(state.mintable_num_tokens, Some(2));
    assert_eq!(state.mint_count(&s(USER)), 1);
    assert_eq!(state.minter_counts, vec![MinterCount { address: s(USER), count: 1 }]);
    assert!(state.check_wf());
}

#[test]
fn mint_sender_respects_the_per_address_limit() {
    let mut state = launched(5, 2);
    execute_mint_sender(&mut state, &info(USER), s("m"), s("1")).unwrap();
    execute_mint_sender(&mut state, &info(USER), s("m"), s("1")).unwrap();
    let before = state.clone();
    let e = execute_mint_sender(&mut state, &info(USER), s("m"), s("1")).unwrap_err();
    assert_eq!(e, ContractError::MaxPerAddressLimitExceeded);
    assert_eq!(state, before);
    assert_eq!(state.mint_count(&s(USER)), 2);
    // someone else can still mint
    let resp = execute_mint_sender(&mut state, &info("other"), s("m"), s("1")).unwrap();
    assert_eq!(resp.attributes[3], attr("token_id", "3"));
}

#[test]
fn mint_sender_sold_out() {
    let mut state = launched(2, 5);
    execute_mint_sender(&mut state, &info(USER), s("m"), s("1")).unwrap();
    execute_mint_sender(&mut state, &info(USER), s("m"), s("1")).unwrap();
    assert_eq!(state.mintable_num_tokens, Some(0));
    let e = execute_mint_sender(&mut state, &info(USER), s("m"), s("1")).unwrap_err();
    assert_eq!(e, ContractError::SoldOut);
    assert!(state.check_wf());
}

#[test]
fn mint_before_instantiate_or_reply() {
    let mut empty = ContractState::new();
    assert!(empty.check_wf());
    let e = execute_mint_sender(&mut empty, &info(USER), s("m"), s("1")).unwrap_err();
    assert_eq!(e, ContractError::Std(StdFailure::NotFound(StoredItem::Config)));
    let (mut state, _) = instantiate(&env(), info(ADMIN), init_msg(3, 2)).unwrap();
    let e = execute_mint_sender(&mut state, &info(USER), s("m"), s("1")).unwrap_err();
    assert_eq!(e, ContractError::Std(StdFailure::NotFound(StoredItem::An721Address)));
}

#[test]
fn mint_to_is_for_the_admin() {
    let mut state = launched(3, 1);
    let e = execute_mint_to(&mut state, &info(USER), Ok(s("friend")), s("m"), s("1")).unwrap_err();
    assert_eq!(e, ContractError::Unauthorized(s("Sender is not an admin")));
    let e = execute_mint_to(&mut state, &info(ADMIN), Err(s("invalid address")), s("m"), s("1")).unwrap_err();
    assert_eq!(e, ContractError::Std(StdFailure::Generic(s("invalid address"))));
    let resp = execute_mint_to(&mut state, &info(ADMIN), Ok(s("friend")), s("m"), s("9")).unwrap();
    assert_eq!(
        resp.attributes,
        vec![attr("action", "mint_to"), attr("sender", ADMIN), attr("recipient", "friend"), attr("token_id", "1")]
    );
    match &resp.messages[0].msg {
        CosmosMsg::WasmExecute { msg, .. } => assert_eq!(msg, &mint_json("1", "friend", "m", "9")),
        other => panic!("unexpected message {:?}", other),
    }
    // the count goes to the sender, not the recipient
    assert_eq!(state.mint_count(&s(ADMIN)), 1);
    assert_eq!(state.mint_count(&s("friend")), 0);
}

#[test]
fn mint_for_takes_the_given_id() {
    let mut state = launched(5, 1);
    let e = execute_mint_for(&mut state, &info(ADMIN), 0, Ok(s("friend")), s("m"), s("1")).unwrap_err();
    assert_eq!(e, ContractError::InvalidTokenId);
    let e = execute_mint_for(&mut state, &info(ADMIN), 6, Ok(s("friend")), s("m"), s("1")).unwrap_err();
    assert_eq!(e, ContractError::InvalidTokenId);
    let e = execute_mint_for(&mut state, &info(USER), 3, Ok(s("friend")), s("m"), s("1")).unwrap_err();
    assert_eq!(e, ContractError::Unauthorized(s("Sender is not an admin")));
    let resp = execute_mint_for(&mut state, &info(ADMIN), 4, Ok(s("friend")), s("m"), s("1")).unwrap();
    assert_eq!(resp.attributes[0], attr("action", "mint_for"));
    assert_eq!(resp.attributes[3], attr("token_id", "4"));
    assert_eq!(state.mintable_token_ids, vec![1, 2, 3, 5]);
    let e = execute_mint_for(&mut state, &info(ADMIN), 4, Ok(s("friend")), s("m"), s("1")).unwrap_err();
    assert_eq!(e, ContractError::TokenIdAlreadySold { token_id: 4 });
    // a mint without an id then takes 1, and later skips 4
    for expected in ["1", "2", "3", "5"] {
        let resp = execute_mint_to(&mut state, &info(ADMIN), Ok(s("friend")), s("m"), s("1")).unwrap();
        assert_eq!(resp.attributes[3], attr("token_id", expected));
    }
    assert!(state.mintable_token_ids.is_empty());
    assert_eq!(state.mint_count(&s(ADMIN)), 5);
    assert!(state.check_wf());
}

#[test]
fn mint_encoded_reports_encoder_error() {
    let mut state = launched(2, 1);
    let before = state.clone();
    let e = execute_mint_encoded(&mut state, &s(USER), "mint_sender", s(USER), 2, Err(s("enc"))).unwrap_err();
    assert_eq!(e, ContractError::Std(StdFailure::Generic(s("enc"))));
    assert_eq!(state, before);
    let resp = execute_mint_encoded(&mut state, &s(USER), "mint_sender", s("x"), 2, Ok(vec![9])).unwrap();
    assert_eq!(resp.attributes[2], attr("recipient", "x"));
    assert_eq!(resp.attributes[3], attr("token_id", "2"));
    assert_eq!(state.mintable_token_ids, vec![1]);
}

#[test]
fn withdraw_sends_the_balance_to_the_admin() {
    let state = launched(2, 1);
    let coin = Coin { denom: s("uan1"), amount: 1234 };
    let e = execute_withdraw(&state, &info(USER), Ok(coin.clone())).unwrap_err();
    assert_eq!(e, ContractError::Unauthorized(s("Sender is not an admin")));
    let e = execute_withdraw(&state, &info(ADMIN), Ok(Coin { denom: s("uan1"), amount: 0 })).unwrap_err();
    assert_eq!(e, ContractError::ZeroBalance);
    let e = execute_withdraw(&state, &info(ADMIN), Err(s("query failed"))).unwrap_err();
    assert_eq!(e, ContractError::Std(StdFailure::Generic(s("query failed"))));
    let resp = execute_withdraw(&state, &info(ADMIN), Ok(coin.clone())).unwrap();
    assert_eq!(resp.attributes, vec![attr("action", "withdraw")]);
    assert_eq!(
        resp.messages,
        vec![SubMsg {
            id: 0,
            msg: CosmosMsg::BankSend { to_address: s(ADMIN), amount: vec![coin] },
            gas_limit: None,
            reply_on: ReplyOn::Never,
        }]
    );
}

#[test]
fn create_model_asks_the_nft_contract() {
    let state = launched(2, 1);
    let e = execute_create_model(&state, &info(USER), s("m1"), s("ipfs://m1")).unwrap_err();
    assert_eq!(e, ContractError::Unauthorized(s("Sender is not an admin")));
    let resp = execute_create_model(&state, &info(ADMIN), s("m1"), s("ipfs://m1")).unwrap();
    assert_eq!(
        resp.attributes,
        vec![attr("action", "create_model"), attr("sender", ADMIN), attr("model_id", "m1"), attr("owner", ADMIN)]
    );
    let expected = anone_cw721::msg::ExecuteMsg::CreateShoeModel(anone_cw721::msg::CreateShoeModelMsg::<
        cosmwasm_std::Empty,
    > {
        model_id: s("m1"),
        owner: s(ADMIN),
        model_uri: s("ipfs://m1"),
        extension: cosmwasm_std::Empty {},
    });
    assert_eq!(
        resp.messages,
        vec![SubMsg {
            id: 0,
            msg: CosmosMsg::WasmExecute {
                contract_addr: s(AN721),
                msg: cosmwasm_std::to_binary(&expected).unwrap().0,
                funds: vec![],
            },
            gas_limit: None,
            reply_on: ReplyOn::Never,
        }]
    );
    let e = execute_create_model_encoded(&state, &info(ADMIN), s("m1"), Err(s("enc"))).unwrap_err();
    assert_eq!(e, ContractError::Std(StdFailure::Generic(s("enc"))));
}

#[test]
fn update_per_address_limit_within_bounds() {
    let mut state = launched(2, 1);
    let e = execute_update_per_address_limit(&mut state, &info(USER), 5).unwrap_err();
    assert_eq!(e, ContractError::Unauthorized(s("Sender is not an admin")));
    let e = execute_update_per_address_limit(&mut state, &info(ADMIN), 0).unwrap_err();
    assert_eq!(e, ContractError::InvalidPerAddressLimit { max: 50, min: 1, got: 0 });
    let e = execute_update_per_address_limit(&mut state, &info(ADMIN), 51).unwrap_err();
    assert_eq!(e, ContractError::InvalidPerAddressLimit { max: 50, min: 1, got: 51 });
    let resp = execute_update_per_address_limit(&mut state, &info(ADMIN), 12).unwrap();
    assert_eq!(
        resp.attributes,
        vec![attr("action", "update_per_address_limit"), attr("sender", ADMIN), attr("limit", "12")]
    );
    assert_eq!(state.config.as_ref().unwrap().per_address_limit, 12);
}

#[test]
fn update_collection_info_asks_the_nft_contract() {
    let state = launched(2, 1);
    let e = execute_update_collection_info(&state, &info(USER), None, None, None, None).unwrap_err();
    assert_eq!(e, ContractError::Unauthorized(s("Sender is not an admin")));
    let royalty = RoyaltyInfoResponse { payment_address: s("payee"), share: 50_000_000_000_000_000 };
    let resp = execute_update_collection_info(
        &state,
        &info(ADMIN),
        Some(s("new description")),
        Some(s("https://example.com")),
        None,
        Some(royalty),
    )
    .unwrap();
    assert_eq!(resp.attributes, vec![attr("action", "update_collection_info"), attr("sender", ADMIN)]);
    let expected = anone_cw721::msg::ExecuteMsg::<cosmwasm_std::Empty>::ModifyCollectionInfo {
        description: Some(s("new description")),
        image: None,
        external_link: Some(s("https://example.com")),
        royalty_info: Some(anone_cw721::msg::RoyaltyInfoResponse {
            payment_address: s("payee"),
            share: cosmwasm_std::Decimal::percent(5),
        }),
    };
    match &resp.messages[0].msg {
        CosmosMsg::WasmExecute { contract_addr, msg, .. } => {
            assert_eq!(contract_addr, AN721);
            assert_eq!(msg, &cosmwasm_std::to_binary(&expected).unwrap().0);
        }
        other => panic!("unexpected message {:?}", other),
    }
    let e = execute_update_collection_info_encoded(&state, &info(ADMIN), Err(s("enc"))).unwrap_err();
    assert_eq!(e, ContractError::Std(StdFailure::Generic(s("enc"))));
}

#[test]
fn update_admin_hands_over() {
    let mut state = launched(2, 1);
    let e = execute_update_admin(&mut state, &info(USER), s("new"), Ok(s("new"))).unwrap_err();
    assert_eq!(e, ContractError::Unauthorized(s("Sender is not an admin")));
    let e = execute_update_admin(&mut state, &info(ADMIN), s("bad"), Err(s("invalid"))).unwrap_err();
    assert_eq!(e, ContractError::Std(StdFailure::Generic(s("invalid"))));
    let resp = execute_update_admin(&mut state, &info(ADMIN), s("new"), Ok(s("new"))).unwrap();
    assert_eq!(
        resp.attributes,
        vec![attr("action", "update_admin"), attr("sender", ADMIN), attr("new_admin", "new")]
    );
    assert_eq!(state.config.as_ref().unwrap().admin, "new");
    assert!(execute_update_per_address_limit(&mut state, &info(ADMIN), 3).is_err());
    assert!(execute_update_per_address_limit(&mut state, &info("new"), 3).is_ok());
}

#[test]
fn queries_report_the_state() {
    let (state, _) = instantiate(&env(), info(ADMIN), init_msg(4, 2)).unwrap();
    assert_eq!(query_config(&state).unwrap_err(), StdFailure::NotFound(StoredItem::An721Address));
    assert_eq!(
        query_config(&ContractState::new()).unwrap_err(),
        StdFailure::NotFound(StoredItem::Config)
    );
    assert_eq!(
        query_mintable_num_tokens(&ContractState::new()).unwrap_err(),
        StdFailure::NotFound(StoredItem::MintableNumTokens)
    );
    let mut state = launched(4, 2);
    let c = query_config(&state).unwrap();
    assert_eq!(c.admin, ADMIN);
    assert_eq!(c.an721_address, AN721);
    assert_eq!(c.an721_code_id, 7);
    assert_eq!(c.num_tokens, 4);
    assert_eq!(c.per_address_limit, 2);
    execute_mint_sender(&mut state, &info(USER), s("m"), s("1")).unwrap();
    assert_eq!(query_mintable_num_tokens(&state).unwrap(), MintableNumTokensResponse { count: 3 });
    assert_eq!(
        query_mint_count(&state, Ok(s(USER))).unwrap(),
        MintCountResponse { address: s(USER), count: 1 }
    );
    assert_eq!(
        query_mint_count(&state, Ok(s("nobody"))).unwrap(),
        MintCountResponse { address: s("nobody"), count: 0 }
    );
    assert_eq!(query_mint_count(&state, Err(s("bad"))).unwrap_err(), StdFailure::Generic(s("bad")));
}

#[test]
fn dispatchers_follow_the_messages() {
    let mut state = launched(3, 2);
    let msg = ExecuteMsg::MintTo { recipient: s("friend"), model_id: s("m"), size: s("1") };
    assert_eq!(execute_host_query(&state, &info(USER), &env(), &msg), HostQuery::ValidateAddress(s("friend")));
    let resp = execute(&mut state, &info(ADMIN), msg, HostAnswer::Address(Ok(s("friend")))).unwrap();
    assert_eq!(resp.attributes[0], attr("action", "mint_to"));
    let w = ExecuteMsg::Withdraw {};
    assert_eq!(
        execute_host_query(&state, &info(ADMIN), &env(), &w),
        HostQuery::Balance { address: s(CONTRACT), denom: s("uan1") }
    );
    // no balance is asked for on behalf of anyone but the admin
    assert_eq!(execute_host_query(&state, &info(USER), &env(), &w), HostQuery::Nothing);
    let e = execute(&mut state, &info(USER), ExecuteMsg::Withdraw {}, HostAnswer::Nothing).unwrap_err();
    assert_eq!(e, ContractError::Unauthorized(s("Sender is not an admin")));
    let ua = ExecuteMsg::UpdateAdmin { new_admin: s("new") };
    assert_eq!(execute_host_query(&state, &info(USER), &env(), &ua), HostQuery::Nothing);
    assert_eq!(execute_host_query(&ContractState::new(), &info(ADMIN), &env(), &ua), HostQuery::Nothing);
    assert_eq!(execute_host_query(&state, &info(ADMIN), &env(), &ua), HostQuery::ValidateAddress(s("new")));
    let e = execute(&mut state, &info(USER), ua, HostAnswer::Nothing).unwrap_err();
    assert_eq!(e, ContractError::Unauthorized(s("Sender is not an admin")));
    let e = execute(&mut state, &info(ADMIN), w, HostAnswer::Balance(Ok(Coin { denom: s("uan1"), amount: 0 })))
        .unwrap_err();
    assert_eq!(e, ContractError::ZeroBalance);
    let m = ExecuteMsg::Mint { model_id: s("m"), size: s("2") };
    assert_eq!(execute_host_query(&state, &info(USER), &env(), &m), HostQuery::Nothing);
    let resp = execute(&mut state, &info(USER), m, HostAnswer::Nothing).unwrap();
    assert_eq!(resp.attributes[3], attr("token_id", "2"));
    let u = ExecuteMsg::UpdatePerModelShoeLimit { per_address_limit: 9 };
    execute(&mut state, &info(ADMIN), u, HostAnswer::Nothing).unwrap();
    assert_eq!(state.config.as_ref().unwrap().per_address_limit, 9);

    let q = QueryMsg::MintCount { address: s(USER) };
    assert_eq!(query_host_query(&q), HostQuery::ValidateAddress(s(USER)));
    assert_eq!(
        query(&state, q, HostAnswer::Address(Ok(s(USER)))).unwrap(),
        QueryResponse::MintCount(MintCountResponse { address: s(USER), count: 1 })
    );
    assert_eq!(
        query(&state, QueryMsg::MintableNumTokens {}, HostAnswer::Nothing).unwrap(),
        QueryResponse::MintableNumTokens(MintableNumTokensResponse { count: 1 })
    );
    assert_eq!(query_host_query(&QueryMsg::Config {}), HostQuery::Nothing);
}

#[test]
fn check_wf_rejects_inconsistent_states() {
    let state = launched(3, 2);
    assert!(state.check_wf());
    let mut s1 = state.clone();
    s1.mintable_token_ids = vec![2, 1, 3];
    assert!(!s1.check_wf());
    let mut s2 = state.clone();
    s2.mintable_num_tokens = Some(2);
    assert!(!s2.check_wf());
    let mut s3 = state.clone();
    s3.minter_counts = vec![MinterCount { address: s(USER), count: 1 }];
    assert!(!s3.check_wf());
    let mut s4 = state.clone();
    s4.mintable_token_ids = vec![1, 2, 4];
    assert!(!s4.check_wf());
    let mut s5 = state.clone();
    s5.mintable_token_ids = vec![1, 2];
    s5.mintable_num_tokens = Some(2);
    s5.minter_counts = vec![MinterCount { address: s(USER), count: 1 }];
    assert!(s5.check_wf());
    let mut s6 = ContractState::new();
    s6.mintable_token_ids = vec![1];
    assert!(!s6.check_wf());
}

#[test]
fn supply_is_conserved_across_mints() {
    let mut state = launched(6, 3);
    for sender in ["a", "b", "a", "c", "b", "a"] {
        execute_mint_sender(&mut state, &info(sender), s("m"), s("1")).unwrap();
        let minted: u32 = state.minter_counts.iter().map(|m| m.count).sum();
        assert_eq!(minted as usize + state.mintable_token_ids.len(), 6);
        assert_eq!(state.mintable_num_tokens, Some(state.mintable_token_ids.len() as u32));
    }
    assert_eq!(state.mint_count(&s("a")), 3);
    assert_eq!(state.mint_count(&s("b")), 2);
    assert_eq!(state.mint_count(&s("c")), 1);
    let e = execute_mint_sender(&mut state, &info("a"), s("m"), s("1")).unwrap_err();
    assert_eq!(e, ContractError::MaxPerAddressLimitExceeded);
    let e = execute_mint_sender(&mut state, &info("d"), s("m"), s("1")).unwrap_err();
    assert_eq!(e, ContractError::SoldOut);
}
