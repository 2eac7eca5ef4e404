//! The contract as mathematics: what each call does to the stored state and
//! what it answers, over the views of `types`. The executable functions of
//! `contract` are proved to compute exactly these.
use vstd::prelude::*;

use crate::decimal::decimal;
use crate::encode::{an721_json, instantiated_address, royalty_view, An721MsgView};
use crate::msg::{ExecuteMsg, HostAnswer, InstantiateMsg, QueryMsg, SubMsgResult};
use crate::types::{
    opt_text, ConfigView, ContractError, ErrorView, MsgView, ReplyOn, Response, ResponseView,
    StateView, StdFailureView, StoredItem, SubMsgView,
};

verus! {

/// The denomination that `withdraw` sends out.
pub const NATIVE_DENOM: &'static str = "uan1";

/// The name recorded for migrations.
pub const CONTRACT_NAME: &'static str = "crates.io:anone-launchpad";

/// The version recorded for migrations.
pub const CONTRACT_VERSION: &'static str = "0.1.0";

/// The id of the submessage that instantiates the NFT contract.
pub const INSTANTIATE_AN721_REPLY_ID: u64 = 1;

/// The largest supply a launch may have.
pub const MAX_TOKEN_LIMIT: u32 = 100000;

/// The largest number of mints one sender may make for itself.
pub const MAX_PER_ADDRESS_LIMIT: u32 = 50;

/// The text of every refusal to a sender that is not the admin.
pub const NOT_ADMIN: &'static str = "Sender is not an admin";

/// The label of the NFT contract's instance.
pub const AN721_LABEL: &'static str = "Fixed price minter";

pub type Outcome = Result<(StateView, ResponseView), ErrorView>;

pub open spec fn not_found(item: StoredItem) -> ErrorView {
    ErrorView::Std(StdFailureView::NotFound(item))
}

pub open spec fn generic(msg: Seq<char>) -> ErrorView {
    ErrorView::Std(StdFailureView::Generic(msg))
}

pub open spec fn unauthorized() -> ErrorView {
    ErrorView::Unauthorized(NOT_ADMIN@)
}

/// The ids are strictly increasing (so each occurs once and the first is the
/// smallest).
pub open spec fn ascending(ids: Seq<u32>) -> bool {
    forall|i: int, j: int| 0 <= i < j < ids.len() ==> ids[i] < ids[j]
}

/// `i` is the first entry of `counts` kept for `addr`.
pub open spec fn first_entry(counts: Seq<(Seq<char>, u32)>, addr: Seq<char>, i: int) -> bool {
    &&& 0 <= i < counts.len()
    &&& counts[i].0 == addr
    &&& forall|j: int| 0 <= j < i ==> counts[j].0 != addr
}

/// Where the count of `addr` is kept, or -1.
pub open spec fn minter_index(counts: Seq<(Seq<char>, u32)>, addr: Seq<char>) -> int {
    if exists|i: int| first_entry(counts, addr, i) {
        choose|i: int| first_entry(counts, addr, i)
    } else {
        -1
    }
}

/// The number of mints recorded for `addr` (0 when there is no record).
pub open spec fn count_of(counts: Seq<(Seq<char>, u32)>, addr: Seq<char>) -> u32 {
    let i = minter_index(counts, addr);
    if i >= 0 {
        counts[i].1
    } else {
        0
    }
}

/// The records with the count of `addr` set to `c`.
pub open spec fn set_count(counts: Seq<(Seq<char>, u32)>, addr: Seq<char>, c: u32) -> Seq<
    (Seq<char>, u32),
> {
    let i = minter_index(counts, addr);
    if i >= 0 {
        counts.update(i, (addr, c))
    } else {
        counts.push((addr, c))
    }
}

/// The number of mints recorded over all senders.
pub open spec fn total_minted(counts: Seq<(Seq<char>, u32)>) -> int
    decreases counts.len(),
{
    if counts.len() == 0 {
        0
    } else {
        total_minted(counts.drop_last()) + counts.last().1
    }
}

/// The stored state is one that the contract's calls produce: either nothing
/// is stored yet, or a configured launch in which the mintable ids are within
/// the supply, counted by `mintable_num_tokens`, and together with the mints
/// recorded per sender make up the whole supply.
pub open spec fn state_wf(s: StateView) -> bool {
    &&& ascending(s.mintable_ids)
    &&& match s.config {
        None => {
            &&& s.mintable_num_tokens is None
            &&& s.mintable_ids.len() == 0
            &&& s.mint_counts.len() == 0
        },
        Some(c) => {
            &&& 1 <= c.num_tokens <= MAX_TOKEN_LIMIT
            &&& 1 <= c.per_address_limit <= MAX_PER_ADDRESS_LIMIT
            &&& s.mintable_num_tokens == Some(s.mintable_ids.len() as u32)
            &&& forall|i: int|
                0 <= i < s.mintable_ids.len() ==> 1 <= #[trigger] s.mintable_ids[i] <= c.num_tokens
            &&& total_minted(s.mint_counts) + s.mintable_ids.len() == c.num_tokens
        },
    }
}

/// The state of a contract that has not been instantiated.
pub open spec fn empty_state() -> StateView {
    StateView {
        version: None,
        config: None,
        an721_address: None,
        mintable_num_tokens: None,
        mintable_ids: Seq::empty(),
        mint_counts: Seq::empty(),
    }
}

/// A message sent without a reply, with no gas limit.
pub open spec fn plain_submsg(msg: MsgView) -> SubMsgView {
    SubMsgView { id: 0, msg, gas_limit: None, reply_on: ReplyOn::Never }
}

/// An execution of the NFT contract with no funds.
pub open spec fn an721_execute(an721: Seq<char>, json: Seq<u8>) -> SubMsgView {
    plain_submsg(MsgView::WasmExecute { contract_addr: an721, msg: json, funds: Seq::empty() })
}

/// A response that carries only attributes.
pub open spec fn attributes_only(attributes: Seq<(Seq<char>, Seq<char>)>) -> ResponseView {
    ResponseView { messages: Seq::empty(), attributes }
}

/// The token ids `1..=n`.
pub open spec fn all_ids(n: u32) -> Seq<u32> {
    Seq::new(n as nat, |i: int| (i + 1) as u32)
}

/// The end of `instantiate`, once the NFT contract's instantiation message is
/// encoded: the launch is configured with every id from 1 to the supply
/// mintable, and the chain is asked to instantiate the NFT contract, replying
/// on success.
pub open spec fn spec_instantiate_encoded(
    sender: Seq<char>,
    funds: Seq<(Seq<char>, u128)>,
    num_tokens: u32,
    an721_code_id: u64,
    per_address_limit: u32,
    encoded: Result<Seq<u8>, Seq<char>>,
) -> Outcome {
    match encoded {
        Err(e) => Err(generic(e)),
        Ok(json) => Ok(
            (
                StateView {
                    version: Some((CONTRACT_NAME@, CONTRACT_VERSION@)),
                    config: Some(
                        ConfigView { admin: sender, num_tokens, an721_code_id, per_address_limit },
                    ),
                    an721_address: None,
                    mintable_num_tokens: Some(num_tokens),
                    mintable_ids: all_ids(num_tokens),
                    mint_counts: Seq::empty(),
                },
                ResponseView {
                    messages: seq![
                        SubMsgView {
                            id: INSTANTIATE_AN721_REPLY_ID,
                            msg: MsgView::WasmInstantiate {
                                admin: Some(sender),
                                code_id: an721_code_id,
                                msg: json,
                                funds,
                                label: AN721_LABEL@,
                            },
                            gas_limit: None,
                            reply_on: ReplyOn::Success,
                        },
                    ],
                    attributes: seq![
                        ("action"@, "instantiate"@),
                        ("contract_name"@, CONTRACT_NAME@),
                        ("contract_version"@, CONTRACT_VERSION@),
                        ("sender"@, sender),
                    ],
                },
            ),
        ),
    }
}

/// `instantiate`: checks the supply and the per-address limit, and sets up
/// the launch with the NFT contract's instantiation message, in which the
/// launchpad is the minter.
pub open spec fn spec_instantiate(
    contract_address: Seq<char>,
    sender: Seq<char>,
    funds: Seq<(Seq<char>, u128)>,
    msg: InstantiateMsg,
) -> Outcome {
    if msg.num_tokens == 0 || msg.num_tokens > MAX_TOKEN_LIMIT {
        Err(ErrorView::InvalidNumTokens { min: 1, max: MAX_TOKEN_LIMIT })
    } else if msg.per_address_limit == 0 || msg.per_address_limit > MAX_PER_ADDRESS_LIMIT {
        Err(
            ErrorView::InvalidPerAddressLimit {
                max: MAX_PER_ADDRESS_LIMIT,
                min: 1,
                got: msg.per_address_limit,
            },
        )
    } else {
        let m = msg.an721_instantiate_msg;
        let info = m.collection_info;
        spec_instantiate_encoded(
            sender,
            funds,
            msg.num_tokens,
            msg.an721_code_id,
            msg.per_address_limit,
            an721_json(
                An721MsgView::Instantiate {
                    name: m.name@,
                    symbol: m.symbol@,
                    minter: contract_address,
                    creator: info.creator@,
                    description: info.description@,
                    image: info.image@,
                    external_link: opt_text(info.external_link),
                    royalty_info: royalty_view(info.royalty_info),
                },
            ),
        )
    }
}

/// The id that a mint takes: the one asked for, if it is within the supply
/// and still mintable, or else the smallest mintable id.
pub open spec fn chosen_token(s: StateView, num_tokens: u32, token_id: Option<u32>) -> Result<
    u32,
    ErrorView,
> {
    match token_id {
        Some(t) => if t == 0 || t > num_tokens {
            Err(ErrorView::InvalidTokenId)
        } else if !s.mintable_ids.contains(t) {
            Err(ErrorView::TokenIdAlreadySold { token_id: t })
        } else {
            Ok(t)
        },
        None => if s.mintable_ids.len() == 0 {
            Err(ErrorView::SoldOut)
        } else {
            Ok(s.mintable_ids[0])
        },
    }
}

/// The state after `sender` minted `id`: the id is no longer mintable, and
/// the sender's count grows by one.
pub open spec fn after_mint(s: StateView, sender: Seq<char>, id: u32, n: u32) -> StateView {
    StateView {
        mintable_ids: s.mintable_ids.remove(s.mintable_ids.index_of(id)),
        mintable_num_tokens: Some((n - 1) as u32),
        mint_counts: set_count(s.mint_counts, sender, (count_of(s.mint_counts, sender) + 1) as u32),
        ..s
    }
}

/// The end of a mint, once the NFT contract's mint message for `id` is
/// encoded: `id` is no longer mintable, the sender's count grows by one, and
/// the NFT contract is asked to mint.
pub open spec fn spec_mint_encoded(
    s: StateView,
    sender: Seq<char>,
    action: Seq<char>,
    owner: Seq<char>,
    id: u32,
    encoded: Result<Seq<u8>, Seq<char>>,
) -> Outcome {
    match s.an721_address {
        None => Err(not_found(StoredItem::An721Address)),
        Some(an721) => match encoded {
            Err(e) => Err(generic(e)),
            Ok(json) => match s.mintable_num_tokens {
                None => Err(not_found(StoredItem::MintableNumTokens)),
                Some(n) => Ok(
                    (
                        after_mint(s, sender, id, n),
                        ResponseView {
                            messages: seq![an721_execute(an721, json)],
                            attributes: seq![
                                ("action"@, action),
                                ("sender"@, sender),
                                ("recipient"@, owner),
                                ("token_id"@, decimal(id as nat)),
                            ],
                        },
                    ),
                ),
            },
        },
    }
}

/// The mint shared by the three mint messages: `sender` mints a token for
/// `recipient` (itself when there is none), the id given or the smallest
/// mintable one.
pub open spec fn spec_mint(
    s: StateView,
    sender: Seq<char>,
    action: Seq<char>,
    recipient: Option<Seq<char>>,
    token_id: Option<u32>,
    model_id: Seq<char>,
    size: Seq<char>,
) -> Outcome {
    match s.config {
        None => Err(not_found(StoredItem::Config)),
        Some(config) => match s.an721_address {
            None => Err(not_found(StoredItem::An721Address)),
            Some(an721) => {
                let owner = match recipient {
                    Some(r) => r,
                    None => sender,
                };
                match chosen_token(s, config.num_tokens, token_id) {
                    Err(e) => Err(e),
                    Ok(id) => spec_mint_encoded(
                        s,
                        sender,
                        action,
                        owner,
                        id,
                        an721_json(
                            An721MsgView::Mint {
                                token_id: decimal(id as nat),
                                owner,
                                model_id,
                                size,
                            },
                        ),
                    ),
                }
            },
        },
    }
}

/// `mint`: a sender mints for itself while under the per-address limit.
pub open spec fn spec_mint_sender(s: StateView, sender: Seq<char>, model_id: Seq<char>, size: Seq<char>) -> Outcome {
    match s.config {
        None => Err(not_found(StoredItem::Config)),
        Some(config) => if count_of(s.mint_counts, sender) >= config.per_address_limit {
            Err(ErrorView::MaxPerAddressLimitExceeded)
        } else {
            spec_mint(s, sender, "mint_sender"@, None, None, model_id, size)
        },
    }
}

/// `mint_to` and `mint_for`: the admin mints for a validated recipient.
pub open spec fn spec_admin_mint(
    s: StateView,
    sender: Seq<char>,
    action: Seq<char>,
    recipient: Result<Seq<char>, Seq<char>>,
    token_id: Option<u32>,
    model_id: Seq<char>,
    size: Seq<char>,
) -> Outcome {
    match recipient {
        Err(e) => Err(generic(e)),
        Ok(r) => match s.config {
            None => Err(not_found(StoredItem::Config)),
            Some(config) => if sender != config.admin {
                Err(unauthorized())
            } else {
                spec_mint(s, sender, action, Some(r), token_id, model_id, size)
            },
        },
    }
}

/// `withdraw`: the admin takes the contract's whole balance, which must not
/// be zero.
pub open spec fn spec_withdraw(
    s: StateView,
    sender: Seq<char>,
    balance: Result<(Seq<char>, u128), Seq<char>>,
) -> Outcome {
    match s.config {
        None => Err(not_found(StoredItem::Config)),
        Some(config) => if config.admin != sender {
            Err(unauthorized())
        } else {
            match balance {
                Err(e) => Err(generic(e)),
                Ok(coin) => if coin.1 == 0 {
                    Err(ErrorView::ZeroBalance)
                } else {
                    Ok(
                        (
                            s,
                            ResponseView {
                                messages: seq![
                                    plain_submsg(
                                        MsgView::BankSend { to_address: sender, amount: seq![coin] },
                                    ),
                                ],
                                attributes: seq![("action"@, "withdraw"@)],
                            },
                        ),
                    )
                },
            }
        },
    }
}

/// The admin's checks shared by the calls that only the admin may make.
pub open spec fn admin_check(s: StateView, sender: Seq<char>) -> Result<ConfigView, ErrorView> {
    match s.config {
        None => Err(not_found(StoredItem::Config)),
        Some(config) => if sender != config.admin {
            Err(unauthorized())
        } else {
            Ok(config)
        },
    }
}

/// The end of `create_model`, once the NFT contract's message is encoded.
pub open spec fn spec_create_model_encoded(
    s: StateView,
    sender: Seq<char>,
    model_id: Seq<char>,
    encoded: Result<Seq<u8>, Seq<char>>,
) -> Outcome {
    match admin_check(s, sender) {
        Err(e) => Err(e),
        Ok(config) => match s.an721_address {
            None => Err(not_found(StoredItem::An721Address)),
            Some(an721) => match encoded {
                Err(e) => Err(generic(e)),
                Ok(json) => Ok(
                    (
                        s,
                        ResponseView {
                            messages: seq![an721_execute(an721, json)],
                            attributes: seq![
                                ("action"@, "create_model"@),
                                ("sender"@, sender),
                                ("model_id"@, model_id),
                                ("owner"@, config.admin),
                            ],
                        },
                    ),
                ),
            },
        },
    }
}

/// `create_model`: the admin asks the NFT contract to create a shoe model it
/// owns.
pub open spec fn spec_create_model(
    s: StateView,
    sender: Seq<char>,
    model_id: Seq<char>,
    model_uri: Seq<char>,
) -> Outcome {
    spec_create_model_encoded(
        s,
        sender,
        model_id,
        an721_json(An721MsgView::CreateShoeModel { model_id, owner: sender, model_uri }),
    )
}

/// `update_per_model_shoe_limit`: the admin sets a new per-address limit
/// within bounds.
pub open spec fn spec_update_per_address_limit(s: StateView, sender: Seq<char>, limit: u32) -> Outcome {
    match s.config {
        None => Err(not_found(StoredItem::Config)),
        Some(config) => if sender != config.admin {
            Err(unauthorized())
        } else if limit == 0 || limit > MAX_PER_ADDRESS_LIMIT {
            Err(ErrorView::InvalidPerAddressLimit { max: MAX_PER_ADDRESS_LIMIT, min: 1, got: limit })
        } else {
            Ok(
                (
                    StateView { config: Some(ConfigView { per_address_limit: limit, ..config }), ..s },
                    attributes_only(
                        seq![
                            ("action"@, "update_per_address_limit"@),
                            ("sender"@, sender),
                            ("limit"@, decimal(limit as nat)),
                        ],
                    ),
                ),
            )
        },
    }
}

/// The end of `update_collection_info`, once the NFT contract's message is
/// encoded.
pub open spec fn spec_update_collection_info_encoded(
    s: StateView,
    sender: Seq<char>,
    encoded: Result<Seq<u8>, Seq<char>>,
) -> Outcome {
    match admin_check(s, sender) {
        Err(e) => Err(e),
        Ok(config) => match s.an721_address {
            None => Err(not_found(StoredItem::An721Address)),
            Some(an721) => match encoded {
                Err(e) => Err(generic(e)),
                Ok(json) => Ok(
                    (
                        s,
                        ResponseView {
                            messages: seq![an721_execute(an721, json)],
                            attributes: seq![
                                ("action"@, "update_collection_info"@),
                                ("sender"@, sender),
                            ],
                        },
                    ),
                ),
            },
        },
    }
}

/// `update_collection_info`: the admin asks the NFT contract to change the
/// collection's description, image, link and royalties.
pub open spec fn spec_update_collection_info(
    s: StateView,
    sender: Seq<char>,
    description: Option<Seq<char>>,
    external_link: Option<Seq<char>>,
    image: Option<Seq<char>>,
    royalty_info: Option<(Seq<char>, u128)>,
) -> Outcome {
    spec_update_collection_info_encoded(
        s,
        sender,
        an721_json(
            An721MsgView::ModifyCollectionInfo { description, image, external_link, royalty_info },
        ),
    )
}

/// `update_admin`: the admin hands the launch over to a validated address.
pub open spec fn spec_update_admin(
    s: StateView,
    sender: Seq<char>,
    new_admin: Seq<char>,
    validated: Result<Seq<char>, Seq<char>>,
) -> Outcome {
    match s.config {
        None => Err(not_found(StoredItem::Config)),
        Some(config) => if sender != config.admin {
            Err(unauthorized())
        } else {
            match validated {
                Err(e) => Err(generic(e)),
                Ok(a) => Ok(
                    (
                        StateView { config: Some(ConfigView { admin: a, ..config }), ..s },
                        attributes_only(
                            seq![
                                ("action"@, "update_admin"@),
                                ("sender"@, sender),
                                ("new_admin"@, new_admin),
                            ],
                        ),
                    ),
                ),
            }
        },
    }
}

/// The address that a reply's result gives, if it gives one.
pub open spec fn reply_address(result: SubMsgResult) -> Option<Seq<char>> {
    match result {
        SubMsgResult::Succeeded { data: Some(d) } => instantiated_address(d@),
        _ => None,
    }
}

/// `reply`: the reply to the NFT contract's instantiation records the new
/// contract's address.
pub open spec fn spec_reply(s: StateView, id: u64, address: Option<Seq<char>>) -> Outcome {
    if id != INSTANTIATE_AN721_REPLY_ID {
        Err(ErrorView::InvalidReplyID)
    } else {
        match address {
            None => Err(ErrorView::InstantiateAn721Error),
            Some(a) => Ok(
                (
                    StateView { an721_address: Some(a), ..s },
                    attributes_only(seq![("action"@, "instantiate_an721_reply"@)]),
                ),
            ),
        }
    }
}

/// An executable outcome and state change are the ones that `expected` names:
/// on success the new state and the response, on failure the error with the
/// state unchanged.
pub open spec fn conforms(
    expected: Outcome,
    r: Result<Response, ContractError>,
    before: StateView,
    after: StateView,
) -> bool {
    match expected {
        Ok((s, resp)) => r matches Ok(x) && x@ == resp && after == s,
        Err(e) => r matches Err(x) && x@ == e && after == before,
    }
}

/// The text of an outcome that the host reports.
pub open spec fn text_result(r: Result<String, String>) -> Result<Seq<char>, Seq<char>> {
    match r {
        Ok(s) => Ok(s@),
        Err(e) => Err(e@),
    }
}

/// The validated address that the host answered.
pub open spec fn answered_address(a: HostAnswer) -> Result<Seq<char>, Seq<char>> {
    match a {
        HostAnswer::Address(r) => text_result(r),
        _ => Err(Seq::empty()),
    }
}

/// The balance that the host answered.
pub open spec fn answered_balance(a: HostAnswer) -> Result<(Seq<char>, u128), Seq<char>> {
    match a {
        HostAnswer::Balance(Ok(c)) => Ok(c@),
        HostAnswer::Balance(Err(e)) => Err(e@),
        _ => Err(Seq::empty()),
    }
}

/// The host's answer is of the kind that the message asks for: an address
/// validation for the mints that name a recipient; for `update_admin` and
/// `withdraw`, the validation of the new admin or the balance when the sender
/// passes the admin's check, and no answer otherwise.
pub open spec fn answer_fits(s: StateView, sender: Seq<char>, msg: ExecuteMsg, a: HostAnswer) -> bool {
    match msg {
        ExecuteMsg::MintTo { .. } => a is Address,
        ExecuteMsg::MintFor { .. } => a is Address,
        ExecuteMsg::UpdateAdmin { .. } => if admin_check(s, sender) is Ok {
            a is Address
        } else {
            a is Nothing
        },
        ExecuteMsg::Withdraw {  } => if admin_check(s, sender) is Ok {
            a is Balance
        } else {
            a is Nothing
        },
        _ => true,
    }
}

/// `execute`: each message does what its own call does.
pub open spec fn spec_execute(s: StateView, sender: Seq<char>, msg: ExecuteMsg, a: HostAnswer) -> Outcome {
    match msg {
        ExecuteMsg::Mint { model_id, size } => spec_mint_sender(s, sender, model_id@, size@),
        ExecuteMsg::MintTo { recipient, model_id, size } => spec_admin_mint(
            s,
            sender,
            "mint_to"@,
            answered_address(a),
            None,
            model_id@,
            size@,
        ),
        ExecuteMsg::MintFor { token_id, recipient, model_id, size } => spec_admin_mint(
            s,
            sender,
            "mint_for"@,
            answered_address(a),
            Some(token_id),
            model_id@,
            size@,
        ),
        ExecuteMsg::CreateModel { model_id, model_uri } => spec_create_model(
            s,
            sender,
            model_id@,
            model_uri@,
        ),
        ExecuteMsg::UpdatePerModelShoeLimit { per_address_limit } => spec_update_per_address_limit(
            s,
            sender,
            per_address_limit,
        ),
        ExecuteMsg::UpdateCollectionInfo { description, external_link, image, royalty_info } =>
            spec_update_collection_info(
            s,
            sender,
            opt_text(description),
            opt_text(external_link),
            opt_text(image),
            royalty_view(royalty_info),
        ),
        ExecuteMsg::UpdateAdmin { new_admin } => spec_update_admin(
            s,
            sender,
            new_admin@,
            answered_address(a),
        ),
        ExecuteMsg::Withdraw {  } => spec_withdraw(s, sender, answered_balance(a)),
    }
}

/// What a query answers, in plain values.
#[verifier::ext_equal]
pub enum QueryResponseView {
    Config {
        admin: Seq<char>,
        num_tokens: u32,
        per_address_limit: u32,
        an721_address: Seq<char>,
        an721_code_id: u64,
    },
    MintableNumTokens { count: u32 },
    MintCount { address: Seq<char>, count: u32 },
}

/// `config`: the configuration with the NFT contract's address.
pub open spec fn spec_query_config(s: StateView) -> Result<QueryResponseView, StdFailureView> {
    match s.config {
        None => Err(StdFailureView::NotFound(StoredItem::Config)),
        Some(c) => match s.an721_address {
            None => Err(StdFailureView::NotFound(StoredItem::An721Address)),
            Some(a) => Ok(
                QueryResponseView::Config {
                    admin: c.admin,
                    num_tokens: c.num_tokens,
                    per_address_limit: c.per_address_limit,
                    an721_address: a,
                    an721_code_id: c.an721_code_id,
                },
            ),
        },
    }
}

/// `mintable_num_tokens`: how many tokens can still be minted.
pub open spec fn spec_query_mintable_num_tokens(s: StateView) -> Result<QueryResponseView, StdFailureView> {
    match s.mintable_num_tokens {
        None => Err(StdFailureView::NotFound(StoredItem::MintableNumTokens)),
        Some(n) => Ok(QueryResponseView::MintableNumTokens { count: n }),
    }
}

/// `mint_count`: how many mints a validated address has made.
pub open spec fn spec_query_mint_count(s: StateView, validated: Result<Seq<char>, Seq<char>>) -> Result<
    QueryResponseView,
    StdFailureView,
> {
    match validated {
        Err(e) => Err(StdFailureView::Generic(e)),
        Ok(a) => Ok(QueryResponseView::MintCount { address: a, count: count_of(s.mint_counts, a) }),
    }
}

/// `query`: each query answers what its own call answers.
pub open spec fn spec_query(s: StateView, msg: QueryMsg, a: HostAnswer) -> Result<
    QueryResponseView,
    StdFailureView,
> {
    match msg {
        QueryMsg::Config {  } => spec_query_config(s),
        QueryMsg::MintableNumTokens {  } => spec_query_mintable_num_tokens(s),
        QueryMsg::MintCount { address } => spec_query_mint_count(s, answered_address(a)),
    }
}

} // verus!
