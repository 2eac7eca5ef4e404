//! What holds of the launchpad over all inputs and across calls.
use vstd::prelude::*;

use crate::decimal::decimal;
use crate::encode::{an721_json, royalty_view, An721MsgView};
use crate::model::{
    admin_check, after_mint, answered_address, chosen_token, count_of, spec_execute, Outcome,
    spec_instantiate, spec_mint, spec_mint_sender, spec_query_config, spec_query_mint_count,
    spec_query_mintable_num_tokens, spec_reply, spec_update_admin, state_wf, total_minted,
    unauthorized, QueryResponseView, INSTANTIATE_AN721_REPLY_ID, spec_create_model,
    spec_update_collection_info, spec_update_per_address_limit, spec_withdraw, MAX_PER_ADDRESS_LIMIT,
    MAX_TOKEN_LIMIT,
};
use crate::msg::{ExecuteMsg, HostAnswer};
use crate::state::{lemma_after_mint_wf, lemma_set_count};
use crate::types::{opt_text, ErrorView, MsgView, ReplyOn, ResponseView, StateView};

verus! {

/// The id that a successful mint took was mintable, and the state after it is
/// the one in which that id is minted by the sender.
pub proof fn lemma_mint_outcome(
    s: StateView,
    sender: Seq<char>,
    action: Seq<char>,
    recipient: Option<Seq<char>>,
    token_id: Option<u32>,
    model_id: Seq<char>,
    size: Seq<char>,
)
    requires
        state_wf(s),
        spec_mint(s, sender, action, recipient, token_id, model_id, size) is Ok,
    ensures
        ({
            let id = chosen_token(s, s.config->Some_0.num_tokens, token_id)->Ok_0;
            &&& s.config is Some
            &&& s.an721_address is Some
            &&& chosen_token(s, s.config->Some_0.num_tokens, token_id) is Ok
            &&& s.mintable_ids.contains(id)
            &&& spec_mint(s, sender, action, recipient, token_id, model_id, size)->Ok_0.0
                == after_mint(s, sender, id, s.mintable_num_tokens->Some_0)
            &&& state_wf(after_mint(s, sender, id, s.mintable_num_tokens->Some_0))
        }),
{
    let id = chosen_token(s, s.config->Some_0.num_tokens, token_id)->Ok_0;
    if token_id is None {
        assert(s.mintable_ids[0] == id);
    }
    lemma_after_mint_wf(s, sender, id);
}

/// Every execute message keeps the stored state well formed: ids ascending
/// and within the supply, `mintable_num_tokens` equal to the number of
/// mintable ids, the supply within bounds, the per-address limit within
/// bounds, and the mints made plus the ids left equal to the supply.
pub proof fn law_execute_keeps_state_wf(s: StateView, sender: Seq<char>, msg: ExecuteMsg, a: HostAnswer)
    requires
        state_wf(s),
    ensures
        spec_execute(s, sender, msg, a) matches Ok((s2, _)) ==> state_wf(s2),
{
    match msg {
        ExecuteMsg::Mint { model_id, size } => {
            if spec_execute(s, sender, msg, a) is Ok {
                lemma_mint_outcome(s, sender, "mint_sender"@, None, None, model_id@, size@);
            }
        },
        ExecuteMsg::MintTo { recipient, model_id, size } => {
            if spec_execute(s, sender, msg, a) is Ok {
                lemma_mint_outcome(
                    s,
                    sender,
                    "mint_to"@,
                    Some(answered_address(a)->Ok_0),
                    None,
                    model_id@,
                    size@,
                );
            }
        },
        ExecuteMsg::MintFor { token_id, recipient, model_id, size } => {
            if spec_execute(s, sender, msg, a) is Ok {
                lemma_mint_outcome(
                    s,
                    sender,
                    "mint_for"@,
                    Some(answered_address(a)->Ok_0),
                    Some(token_id),
                    model_id@,
                    size@,
                );
            }
        },
        _ => {},
    }
}

/// No message changes the supply, and the number of mints made plus the
/// number of ids left to mint is the supply, before and after every message.
pub proof fn law_supply_is_conserved(s: StateView, sender: Seq<char>, msg: ExecuteMsg, a: HostAnswer)
    requires
        state_wf(s),
        s.config is Some,
    ensures
        spec_execute(s, sender, msg, a) matches Ok((s2, _)) ==> {
            &&& s2.config is Some
            &&& s2.config->Some_0.num_tokens == s.config->Some_0.num_tokens
            &&& total_minted(s2.mint_counts) + s2.mintable_ids.len() == s.config->Some_0.num_tokens
        },
{
    law_execute_keeps_state_wf(s, sender, msg, a);
}

/// A successful mint takes exactly one id: it was mintable and no longer is,
/// every other id keeps its status, the number of mintable tokens drops by
/// one, the sender's count grows by one and no other count changes; the
/// response names that id.
pub proof fn law_mint_takes_exactly_one_token(
    s: StateView,
    sender: Seq<char>,
    action: Seq<char>,
    recipient: Option<Seq<char>>,
    token_id: Option<u32>,
    model_id: Seq<char>,
    size: Seq<char>,
    other_id: u32,
    other_sender: Seq<char>,
)
    requires
        state_wf(s),
    ensures
        spec_mint(s, sender, action, recipient, token_id, model_id, size) matches Ok((s2, resp))
            ==> {
            let id = chosen_token(s, s.config->Some_0.num_tokens, token_id)->Ok_0;
            &&& s.mintable_ids.contains(id)
            &&& !s2.mintable_ids.contains(id)
            &&& other_id != id ==> (s2.mintable_ids.contains(other_id) == s.mintable_ids.contains(
                other_id,
            ))
            &&& s2.mintable_num_tokens == Some((s.mintable_ids.len() - 1) as u32)
            &&& count_of(s2.mint_counts, sender) == count_of(s.mint_counts, sender) + 1
            &&& other_sender != sender ==> count_of(s2.mint_counts, other_sender) == count_of(
                s.mint_counts,
                other_sender,
            )
            &&& resp.attributes[3] == ("token_id"@, decimal(id as nat))
        },
{
    if spec_mint(s, sender, action, recipient, token_id, model_id, size) is Ok {
        lemma_mint_outcome(s, sender, action, recipient, token_id, model_id, size);
        let id = chosen_token(s, s.config->Some_0.num_tokens, token_id)->Ok_0;
        lemma_after_mint_wf(s, sender, id);
        let ids = s.mintable_ids;
        let k = choose|k: int| 0 <= k < ids.len() && ids[k] == id;
        crate::state::lemma_ascending_index_of(ids, k);
        let ids2 = ids.remove(k);
        assert(ids.index_of(id) == k);
        if ids2.contains(id) {
            let j = choose|j: int| 0 <= j < ids2.len() && ids2[j] == id;
            if j < k {
                assert(ids[j] == id);
            } else {
                assert(ids[j + 1] == id);
            }
        }
        if other_id != id {
            if ids.contains(other_id) {
                let j = choose|j: int| 0 <= j < ids.len() && ids[j] == other_id;
                if j < k {
                    assert(ids2[j] == other_id);
                } else {
                    assert(ids2[j - 1] == other_id);
                }
            }
            if ids2.contains(other_id) {
                let j = choose|j: int| 0 <= j < ids2.len() && ids2[j] == other_id;
                if j < k {
                    assert(ids[j] == other_id);
                } else {
                    assert(ids[j + 1] == other_id);
                }
            }
        }
        lemma_set_count(
            s.mint_counts,
            sender,
            (count_of(s.mint_counts, sender) + 1) as u32,
            other_sender,
        );
    }
}

/// A mint without a token id takes the smallest mintable id.
pub proof fn law_mint_takes_smallest_id(
    s: StateView,
    sender: Seq<char>,
    action: Seq<char>,
    recipient: Option<Seq<char>>,
    model_id: Seq<char>,
    size: Seq<char>,
)
    requires
        state_wf(s),
    ensures
        spec_mint(s, sender, action, recipient, None, model_id, size) is Ok ==> {
            let id = chosen_token(s, s.config->Some_0.num_tokens, None)->Ok_0;
            forall|i: int| 0 <= i < s.mintable_ids.len() ==> id <= #[trigger] s.mintable_ids[i]
        },
{
}

/// A token that was minted cannot be minted again: asking for it by id is
/// refused as already sold.
pub proof fn law_no_token_minted_twice(
    s: StateView,
    sender: Seq<char>,
    action: Seq<char>,
    recipient: Option<Seq<char>>,
    token_id: Option<u32>,
    model_id: Seq<char>,
    size: Seq<char>,
    sender2: Seq<char>,
    action2: Seq<char>,
    recipient2: Option<Seq<char>>,
    model_id2: Seq<char>,
    size2: Seq<char>,
)
    requires
        state_wf(s),
    ensures
        spec_mint(s, sender, action, recipient, token_id, model_id, size) matches Ok((s2, _)) ==> {
            let id = chosen_token(s, s.config->Some_0.num_tokens, token_id)->Ok_0;
            spec_mint(s2, sender2, action2, recipient2, Some(id), model_id2, size2) == Err::<
                (StateView, crate::types::ResponseView),
                ErrorView,
            >(ErrorView::TokenIdAlreadySold { token_id: id })
        },
{
    if spec_mint(s, sender, action, recipient, token_id, model_id, size) is Ok {
        law_mint_takes_exactly_one_token(
            s,
            sender,
            action,
            recipient,
            token_id,
            model_id,
            size,
            0,
            sender,
        );
        let id = chosen_token(s, s.config->Some_0.num_tokens, token_id)->Ok_0;
        let k = choose|k: int| 0 <= k < s.mintable_ids.len() && s.mintable_ids[k] == id;
        assert(1 <= s.mintable_ids[k] <= s.config->Some_0.num_tokens);
    }
}

/// A sender that mints for itself never exceeds the per-address limit, and
/// each such mint adds one to its count.
pub proof fn law_per_address_limit_holds(s: StateView, sender: Seq<char>, model_id: Seq<char>, size: Seq<char>)
    requires
        state_wf(s),
    ensures
        spec_mint_sender(s, sender, model_id, size) matches Ok((s2, _)) ==> {
            &&& count_of(s2.mint_counts, sender) == count_of(s.mint_counts, sender) + 1
            &&& count_of(s2.mint_counts, sender) <= s.config->Some_0.per_address_limit
        },
{
    if spec_mint_sender(s, sender, model_id, size) is Ok {
        law_mint_takes_exactly_one_token(
            s,
            sender,
            "mint_sender"@,
            None,
            None,
            model_id,
            size,
            0,
            sender,
        );
    }
}

/// When nothing is left to mint, a sender's own mint is refused as sold out
/// (if the sender is still under its limit).
pub proof fn law_sold_out(s: StateView, sender: Seq<char>, model_id: Seq<char>, size: Seq<char>)
    requires
        state_wf(s),
        s.config is Some,
        s.an721_address is Some,
        s.mintable_ids.len() == 0,
        count_of(s.mint_counts, sender) < s.config->Some_0.per_address_limit,
    ensures
        spec_mint_sender(s, sender, model_id, size) == Err::<
            (StateView, crate::types::ResponseView),
            ErrorView,
        >(ErrorView::SoldOut),
{
}

/// The messages that only the admin may send are refused to anyone else, once
/// a named recipient is a valid address.
pub proof fn law_admin_only(s: StateView, sender: Seq<char>, msg: ExecuteMsg, a: HostAnswer)
    requires
        s.config is Some,
        sender != s.config->Some_0.admin,
        !(msg is Mint),
        (msg is MintTo || msg is MintFor) ==> answered_address(a) is Ok,
    ensures
        spec_execute(s, sender, msg, a) == Err::<(StateView, crate::types::ResponseView), ErrorView>(
            unauthorized(),
        ),
{
}

/// The number of mintable tokens that the query reports is the number of ids
/// left to mint.
pub proof fn law_mintable_count_is_ids_left(s: StateView)
    requires
        state_wf(s),
        s.config is Some,
    ensures
        spec_query_mintable_num_tokens(s) == Ok::<QueryResponseView, crate::types::StdFailureView>(
            QueryResponseView::MintableNumTokens { count: s.mintable_ids.len() as u32 },
        ),
{
}

/// After a sender mints for itself, the mint count query reports one more
/// mint for it.
pub proof fn law_mint_count_reads_back(s: StateView, sender: Seq<char>, model_id: Seq<char>, size: Seq<char>)
    requires
        state_wf(s),
    ensures
        spec_mint_sender(s, sender, model_id, size) matches Ok((s2, _)) ==> spec_query_mint_count(
            s2,
            Ok(sender),
        ) == Ok::<QueryResponseView, crate::types::StdFailureView>(
            QueryResponseView::MintCount {
                address: sender,
                count: (count_of(s.mint_counts, sender) + 1) as u32,
            },
        ),
{
    law_per_address_limit_holds(s, sender, model_id, size);
}

/// A successful instantiation leaves a well-formed state in which every id
/// from 1 to the supply is mintable and nothing is minted yet.
pub proof fn law_instantiate_sets_up_supply(
    contract_address: Seq<char>,
    sender: Seq<char>,
    funds: Seq<(Seq<char>, u128)>,
    msg: crate::msg::InstantiateMsg,
)
    ensures
        spec_instantiate(contract_address, sender, funds, msg) matches Ok((s, _)) ==> {
            &&& state_wf(s)
            &&& s.mintable_ids.len() == msg.num_tokens
            &&& forall|i: int| 0 <= i < msg.num_tokens ==> #[trigger] s.mintable_ids[i] == i + 1
            &&& total_minted(s.mint_counts) == 0
            &&& spec_query_mintable_num_tokens(s) == Ok::<
                QueryResponseView,
                crate::types::StdFailureView,
            >(QueryResponseView::MintableNumTokens { count: msg.num_tokens })
        },
{
}

/// The reply to the NFT contract's instantiation records its address, which
/// the config query then reports.
pub proof fn law_reply_records_an721_address(s: StateView, a: Seq<char>)
    requires
        s.config is Some,
    ensures
        spec_reply(s, INSTANTIATE_AN721_REPLY_ID, Some(a)) matches Ok((s2, _)) && spec_query_config(s2)
            matches Ok(QueryResponseView::Config { an721_address, .. }) && an721_address == a,
{
}

/// After the admin hands the launch over, the new admin, and only the new
/// admin, passes the admin's checks.
pub proof fn law_update_admin_hands_over(
    s: StateView,
    sender: Seq<char>,
    new_admin: Seq<char>,
    validated: Result<Seq<char>, Seq<char>>,
    someone: Seq<char>,
)
    ensures
        spec_update_admin(s, sender, new_admin, validated) matches Ok((s2, _)) ==> (admin_check(
            s2,
            someone,
        ) is Ok <==> someone == validated->Ok_0),
{
}

/// One call in a run of calls against the contract: an execute message with
/// the host's answer, or the chain's reply to the NFT contract's
/// instantiation with the address its data names.
pub enum Call {
    Execute { sender: Seq<char>, msg: ExecuteMsg, answer: HostAnswer },
    Reply { id: u64, address: Option<Seq<char>> },
}

/// What a call answers from state `s`.
pub open spec fn call_outcome(s: StateView, c: Call) -> Outcome {
    match c {
        Call::Execute { sender, msg, answer } => spec_execute(s, sender, msg, answer),
        Call::Reply { id, address } => spec_reply(s, id, address),
    }
}

/// The state after a call: the new state if it succeeds, the same state if it
/// fails (the chain reverts a failed call).
pub open spec fn after_call(s: StateView, c: Call) -> StateView {
    match call_outcome(s, c) {
        Ok((s2, _)) => s2,
        Err(_) => s,
    }
}

/// The state after a run of calls, in order.
pub open spec fn run(s: StateView, calls: Seq<Call>) -> StateView
    decreases calls.len(),
{
    if calls.len() == 0 {
        s
    } else {
        after_call(run(s, calls.drop_last()), calls.last())
    }
}

/// The call is a mint message (`mint`, `mint_to` or `mint_for`).
pub open spec fn is_mint(c: Call) -> bool {
    c matches Call::Execute { msg, .. } && (msg is Mint || msg is MintTo || msg is MintFor)
}

/// The call is a mint message sent by `a`.
pub open spec fn is_mint_by(c: Call, a: Seq<char>) -> bool {
    is_mint(c) && (c matches Call::Execute { sender, .. } && sender == a)
}

/// The number of the run's mint messages that succeeded.
pub open spec fn mints(s: StateView, calls: Seq<Call>) -> nat
    decreases calls.len(),
{
    if calls.len() == 0 {
        0
    } else {
        mints(s, calls.drop_last()) + if is_mint(calls.last()) && call_outcome(
            run(s, calls.drop_last()),
            calls.last(),
        ) is Ok {
            1nat
        } else {
            0nat
        }
    }
}

/// The number of the run's mint messages sent by `a` that succeeded.
pub open spec fn mints_by(s: StateView, calls: Seq<Call>, a: Seq<char>) -> nat
    decreases calls.len(),
{
    if calls.len() == 0 {
        0
    } else {
        mints_by(s, calls.drop_last(), a) + if is_mint_by(calls.last(), a) && call_outcome(
            run(s, calls.drop_last()),
            calls.last(),
        ) is Ok {
            1nat
        } else {
            0nat
        }
    }
}

/// One call from a well-formed state: the state stays well formed, the
/// configuration stays present or absent and keeps its supply, a successful
/// mint takes one id and counts one more mint for its sender only, and every
/// other call changes neither the ids nor the counts.
pub proof fn lemma_call_step(s: StateView, c: Call, a: Seq<char>)
    requires
        state_wf(s),
    ensures
        state_wf(after_call(s, c)),
        (after_call(s, c).config is Some) == (s.config is Some),
        s.config is Some ==> after_call(s, c).config->Some_0.num_tokens
            == s.config->Some_0.num_tokens,
        count_of(after_call(s, c).mint_counts, a) == count_of(s.mint_counts, a) + if is_mint_by(c, a)
            && call_outcome(s, c) is Ok {
            1int
        } else {
            0int
        },
        after_call(s, c).mintable_ids.len() == s.mintable_ids.len() - if is_mint(c) && call_outcome(
            s,
            c,
        ) is Ok {
            1int
        } else {
            0int
        },
{
    let s2 = after_call(s, c);
    match c {
        Call::Execute { sender, msg, answer } => {
            law_execute_keeps_state_wf(s, sender, msg, answer);
            if call_outcome(s, c) is Ok && is_mint(c) {
                let (action, recipient, token_id, model_id, size) = match msg {
                    ExecuteMsg::Mint { model_id, size } => (
                        "mint_sender"@,
                        None,
                        None,
                        model_id@,
                        size@,
                    ),
                    ExecuteMsg::MintTo { recipient, model_id, size } => (
                        "mint_to"@,
                        Some(answered_address(answer)->Ok_0),
                        None,
                        model_id@,
                        size@,
                    ),
                    ExecuteMsg::MintFor { token_id, recipient, model_id, size } => (
                        "mint_for"@,
                        Some(answered_address(answer)->Ok_0),
                        Some(token_id),
                        model_id@,
                        size@,
                    ),
                    _ => ("mint_sender"@, None, None, Seq::empty(), Seq::empty()),
                };
                assert(spec_mint(s, sender, action, recipient, token_id, model_id, size) == spec_execute(
                    s,
                    sender,
                    msg,
                    answer,
                ));
                law_mint_takes_exactly_one_token(
                    s,
                    sender,
                    action,
                    recipient,
                    token_id,
                    model_id,
                    size,
                    0,
                    a,
                );
                lemma_mint_outcome(s, sender, action, recipient, token_id, model_id, size);
                crate::state::lemma_total_nonnegative(s2.mint_counts);
            }
        },
        Call::Reply { id, address } => {},
    }
}

/// A run of calls keeps the state well formed, keeps the configuration
/// present or absent, and keeps the supply.
pub proof fn law_run_keeps_state_wf(s: StateView, calls: Seq<Call>)
    requires
        state_wf(s),
    ensures
        state_wf(run(s, calls)),
        (run(s, calls).config is Some) == (s.config is Some),
        s.config is Some ==> run(s, calls).config->Some_0.num_tokens == s.config->Some_0.num_tokens,
    decreases calls.len(),
{
    if calls.len() > 0 {
        law_run_keeps_state_wf(s, calls.drop_last());
        lemma_call_step(run(s, calls.drop_last()), calls.last(), Seq::empty());
    }
}

/// Over any run of calls, the mint count kept for an address grows by exactly
/// the number of its own mint messages that succeeded; being the recipient of
/// a mint adds nothing.
pub proof fn law_mint_count_is_own_mints(s: StateView, calls: Seq<Call>, a: Seq<char>)
    requires
        state_wf(s),
    ensures
        count_of(run(s, calls).mint_counts, a) == count_of(s.mint_counts, a) + mints_by(s, calls, a),
    decreases calls.len(),
{
    if calls.len() > 0 {
        law_mint_count_is_own_mints(s, calls.drop_last(), a);
        law_run_keeps_state_wf(s, calls.drop_last());
        lemma_call_step(run(s, calls.drop_last()), calls.last(), a);
    }
}

/// Over any run of calls on a configured launch, each successful mint takes
/// one id: the ids left, and the mintable count, drop by the number of
/// successful mints, and the mints recorded grow by as many.
pub proof fn law_mintable_is_supply_minus_mints(s: StateView, calls: Seq<Call>)
    requires
        state_wf(s),
        s.config is Some,
    ensures
        mints(s, calls) <= s.mintable_ids.len(),
        run(s, calls).mintable_ids.len() == s.mintable_ids.len() - mints(s, calls),
        run(s, calls).mintable_num_tokens == Some((s.mintable_ids.len() - mints(s, calls)) as u32),
        total_minted(run(s, calls).mint_counts) == total_minted(s.mint_counts) + mints(s, calls),
    decreases calls.len(),
{
    if calls.len() > 0 {
        law_mintable_is_supply_minus_mints(s, calls.drop_last());
        law_run_keeps_state_wf(s, calls.drop_last());
        lemma_call_step(run(s, calls.drop_last()), calls.last(), Seq::empty());
        law_run_keeps_state_wf(s, calls);
        crate::state::lemma_total_nonnegative(run(s, calls).mint_counts);
    } else {
        crate::state::lemma_total_nonnegative(s.mint_counts);
    }
}

/// From a successful instantiation, over any run of calls (replies included):
/// the mintable count is the supply minus the successful mints, and each
/// address's mint count is the number of its own successful mint messages.
pub proof fn law_launch_counts(
    contract_address: Seq<char>,
    sender: Seq<char>,
    funds: Seq<(Seq<char>, u128)>,
    msg: crate::msg::InstantiateMsg,
    calls: Seq<Call>,
    a: Seq<char>,
)
    ensures
        spec_instantiate(contract_address, sender, funds, msg) matches Ok((s0, _)) ==> {
            &&& spec_query_mintable_num_tokens(run(s0, calls)) == Ok::<
                QueryResponseView,
                crate::types::StdFailureView,
            >(QueryResponseView::MintableNumTokens { count: (msg.num_tokens - mints(s0, calls)) as u32 })
            &&& spec_query_mint_count(run(s0, calls), Ok(a)) == Ok::<
                QueryResponseView,
                crate::types::StdFailureView,
            >(QueryResponseView::MintCount { address: a, count: mints_by(s0, calls, a) as u32 })
        },
{
    if spec_instantiate(contract_address, sender, funds, msg) is Ok {
        let s0 = spec_instantiate(contract_address, sender, funds, msg)->Ok_0.0;
        law_instantiate_sets_up_supply(contract_address, sender, funds, msg);
        law_mintable_is_supply_minus_mints(s0, calls);
        law_mint_count_is_own_mints(s0, calls, a);
        assert(count_of(s0.mint_counts, a) == 0) by {
            crate::state::lemma_no_entry(s0.mint_counts, a);
        }
    }
}

/// The response asks the NFT contract at `an721`, with no funds and no reply,
/// to run exactly the message that `json` encodes.
pub open spec fn sends_to_an721(resp: ResponseView, an721: Seq<char>, json: An721MsgView) -> bool {
    &&& resp.messages.len() == 1
    &&& resp.messages[0].id == 0
    &&& resp.messages[0].reply_on == ReplyOn::Never
    &&& resp.messages[0].gas_limit is None
    &&& resp.messages[0].msg matches MsgView::WasmExecute { contract_addr, msg, funds }
        && contract_addr == an721 && funds.len() == 0 && an721_json(json) == Ok::<
        Seq<u8>,
        Seq<char>,
    >(msg)
}

/// The response of a mint: the NFT contract is asked to mint token `id`
/// (its decimal text) for `owner`, and the response reports that owner as
/// the recipient and that id as the token.
pub open spec fn mints_token_for(
    resp: ResponseView,
    action: Seq<char>,
    sender: Seq<char>,
    an721: Seq<char>,
    id: u32,
    owner: Seq<char>,
    model_id: Seq<char>,
    size: Seq<char>,
) -> bool {
    &&& sends_to_an721(
        resp,
        an721,
        An721MsgView::Mint { token_id: decimal(id as nat), owner, model_id, size },
    )
    &&& resp.attributes.len() == 4
    &&& resp.attributes[0] == ("action"@, action)
    &&& resp.attributes[1] == ("sender"@, sender)
    &&& resp.attributes[2] == ("recipient"@, owner)
    &&& resp.attributes[3] == ("token_id"@, decimal(id as nat))
}

/// Who receives a minted token, and which token: `mint` mints the smallest
/// mintable id for the sender itself; `mint_to` mints the smallest mintable
/// id for the validated recipient; `mint_for` mints the id asked for, for the
/// validated recipient. The sender's own address is the owner only for `mint`.
pub proof fn law_mint_goes_to_its_recipient(s: StateView, sender: Seq<char>, msg: ExecuteMsg, a: HostAnswer)
    requires
        state_wf(s),
    ensures
        spec_execute(s, sender, msg, a) matches Ok((_, resp)) ==> match msg {
            ExecuteMsg::Mint { model_id, size } => mints_token_for(
                resp,
                "mint_sender"@,
                sender,
                s.an721_address->Some_0,
                s.mintable_ids[0],
                sender,
                model_id@,
                size@,
            ),
            ExecuteMsg::MintTo { model_id, size, .. } => mints_token_for(
                resp,
                "mint_to"@,
                sender,
                s.an721_address->Some_0,
                s.mintable_ids[0],
                answered_address(a)->Ok_0,
                model_id@,
                size@,
            ),
            ExecuteMsg::MintFor { token_id, model_id, size, .. } => mints_token_for(
                resp,
                "mint_for"@,
                sender,
                s.an721_address->Some_0,
                token_id,
                answered_address(a)->Ok_0,
                model_id@,
                size@,
            ),
            _ => true,
        },
{
}

/// A successful update of the per-address limit to `limit` sets exactly that
/// limit, whether it is lower or higher than before, and changes nothing else;
/// it succeeds whenever the admin asks for a limit within bounds.
pub proof fn law_update_limit_sets_the_limit(s: StateView, sender: Seq<char>, limit: u32)
    ensures
        spec_update_per_address_limit(s, sender, limit) matches Ok((s2, _)) ==> {
            &&& s.config is Some
            &&& s2.config is Some
            &&& s2.config->Some_0.per_address_limit == limit
            &&& s2.config->Some_0.admin == s.config->Some_0.admin
            &&& s2.config->Some_0.num_tokens == s.config->Some_0.num_tokens
            &&& s2.config->Some_0.an721_code_id == s.config->Some_0.an721_code_id
            &&& s2.mintable_ids == s.mintable_ids
            &&& s2.mintable_num_tokens == s.mintable_num_tokens
            &&& s2.mint_counts == s.mint_counts
            &&& s2.an721_address == s.an721_address
        },
        (s.config is Some && sender == s.config->Some_0.admin && 1 <= limit
            <= MAX_PER_ADDRESS_LIMIT) ==> spec_update_per_address_limit(s, sender, limit) is Ok,
{
}

/// The config query reports the configuration as stored: the admin, the
/// supply (not the tokens still mintable), the limit, the NFT code id and
/// the NFT contract's address.
pub proof fn law_config_query_reports_configuration(s: StateView)
    ensures
        spec_query_config(s) matches Ok(
            QueryResponseView::Config {
                admin,
                num_tokens,
                per_address_limit,
                an721_address,
                an721_code_id,
            },
        ) ==> {
            &&& s.config is Some
            &&& admin == s.config->Some_0.admin
            &&& num_tokens == s.config->Some_0.num_tokens
            &&& per_address_limit == s.config->Some_0.per_address_limit
            &&& an721_code_id == s.config->Some_0.an721_code_id
            &&& s.an721_address == Some(an721_address)
        },
{
}

/// From a successful instantiation, over any run of calls, the config query
/// reports the supply that the launch was instantiated with.
pub proof fn law_config_query_reports_supply(
    contract_address: Seq<char>,
    sender: Seq<char>,
    funds: Seq<(Seq<char>, u128)>,
    msg: crate::msg::InstantiateMsg,
    calls: Seq<Call>,
)
    ensures
        spec_instantiate(contract_address, sender, funds, msg) matches Ok((s0, _)) ==> (spec_query_config(
            run(s0, calls),
        ) matches Ok(QueryResponseView::Config { num_tokens, .. }) ==> num_tokens == msg.num_tokens),
{
    if spec_instantiate(contract_address, sender, funds, msg) is Ok {
        let s0 = spec_instantiate(contract_address, sender, funds, msg)->Ok_0.0;
        law_instantiate_sets_up_supply(contract_address, sender, funds, msg);
        law_run_keeps_state_wf(s0, calls);
        law_config_query_reports_configuration(run(s0, calls));
    }
}

/// Instantiation asks the chain, replying on success, to instantiate the NFT
/// contract with the given code id, the funds sent and the sender as admin;
/// its message is the NFT instantiation message made of the given name,
/// symbol and collection info, unchanged (creator, description, image,
/// external link, royalties), with the launchpad's own address as minter.
pub proof fn law_instantiate_forwards_collection_info(
    contract_address: Seq<char>,
    sender: Seq<char>,
    funds: Seq<(Seq<char>, u128)>,
    msg: crate::msg::InstantiateMsg,
)
    ensures
        spec_instantiate(contract_address, sender, funds, msg) matches Ok((_, resp)) ==> {
            let m = msg.an721_instantiate_msg;
            let info = m.collection_info;
            &&& resp.messages.len() == 1
            &&& resp.messages[0].id == INSTANTIATE_AN721_REPLY_ID
            &&& resp.messages[0].reply_on == ReplyOn::Success
            &&& resp.messages[0].msg matches MsgView::WasmInstantiate {
                admin,
                code_id,
                msg: json,
                funds: f,
                ..
            } && admin == Some(sender) && code_id == msg.an721_code_id && f == funds && an721_json(
                An721MsgView::Instantiate {
                    name: m.name@,
                    symbol: m.symbol@,
                    minter: contract_address,
                    creator: info.creator@,
                    description: info.description@,
                    image: info.image@,
                    external_link: opt_text(info.external_link),
                    royalty_info: royalty_view(info.royalty_info),
                },
            ) == Ok::<Seq<u8>, Seq<char>>(json)
        },
{
}

/// A successful `update_collection_info` changes nothing stored and sends the
/// NFT contract exactly the description, image, external link and royalties
/// given.
pub proof fn law_collection_info_is_forwarded(
    s: StateView,
    sender: Seq<char>,
    description: Option<Seq<char>>,
    external_link: Option<Seq<char>>,
    image: Option<Seq<char>>,
    royalty_info: Option<(Seq<char>, u128)>,
)
    ensures
        spec_update_collection_info(s, sender, description, external_link, image, royalty_info) matches Ok(
            (s2, resp),
        ) ==> {
            &&& s2 == s
            &&& s.config is Some && sender == s.config->Some_0.admin
            &&& sends_to_an721(
                resp,
                s.an721_address->Some_0,
                An721MsgView::ModifyCollectionInfo { description, image, external_link, royalty_info },
            )
        },
{
}

/// A successful `create_model` changes nothing stored and asks the NFT
/// contract to create the given model, with the given URI, owned by the
/// sender (who is the admin).
pub proof fn law_model_is_forwarded(s: StateView, sender: Seq<char>, model_id: Seq<char>, model_uri: Seq<char>)
    ensures
        spec_create_model(s, sender, model_id, model_uri) matches Ok((s2, resp)) ==> {
            &&& s2 == s
            &&& s.config is Some && sender == s.config->Some_0.admin
            &&& sends_to_an721(
                resp,
                s.an721_address->Some_0,
                An721MsgView::CreateShoeModel { model_id, owner: sender, model_uri },
            )
            &&& resp.attributes[2] == ("model_id"@, model_id)
            &&& resp.attributes[3] == ("owner"@, s.config->Some_0.admin)
        },
{
}

/// When mints are refused: before instantiation, before the NFT contract is
/// known, for a sender at its per-address limit (own mints), for anyone but
/// the admin (mints for others), for an id outside the supply or already
/// minted, and when nothing is left.
pub proof fn law_mint_refusals(s: StateView, sender: Seq<char>, msg: ExecuteMsg, a: HostAnswer)
    requires
        state_wf(s),
    ensures
        msg is Mint || msg is MintTo || msg is MintFor ==> {
            &&& (s.config is None && (msg is Mint || answered_address(a) is Ok)) ==> spec_execute(
                s,
                sender,
                msg,
                a,
            ) is Err
            &&& (s.config is Some && s.an721_address is None && (msg is Mint || (answered_address(a) is Ok
                && sender == s.config->Some_0.admin))) ==> spec_execute(s, sender, msg, a) is Err
        },
        msg is Mint && s.config is Some && count_of(s.mint_counts, sender)
            >= s.config->Some_0.per_address_limit ==> spec_execute(s, sender, msg, a) == Err::<
            (StateView, ResponseView),
            ErrorView,
        >(ErrorView::MaxPerAddressLimitExceeded),
        (msg is MintFor && s.config is Some && s.an721_address is Some && answered_address(a) is Ok
            && sender == s.config->Some_0.admin) ==> {
            let t = msg->MintFor_token_id;
            &&& (t == 0 || t > s.config->Some_0.num_tokens) ==> spec_execute(s, sender, msg, a) == Err::<
                (StateView, ResponseView),
                ErrorView,
            >(ErrorView::InvalidTokenId)
            &&& (1 <= t <= s.config->Some_0.num_tokens && !s.mintable_ids.contains(t))
                ==> spec_execute(s, sender, msg, a) == Err::<(StateView, ResponseView), ErrorView>(
                ErrorView::TokenIdAlreadySold { token_id: t },
            )
        },
{
}

/// A successful withdrawal changes nothing stored and sends the whole balance
/// that the host reported, which is not zero, to the sender, who is the admin;
/// a zero balance is refused.
pub proof fn law_withdraw_sends_balance_to_admin(
    s: StateView,
    sender: Seq<char>,
    balance: Result<(Seq<char>, u128), Seq<char>>,
)
    ensures
        spec_withdraw(s, sender, balance) matches Ok((s2, resp)) ==> {
            &&& s2 == s
            &&& s.config is Some && sender == s.config->Some_0.admin
            &&& balance is Ok && balance->Ok_0.1 > 0
            &&& resp.messages.len() == 1
            &&& resp.messages[0].msg == (MsgView::BankSend {
                to_address: sender,
                amount: seq![balance->Ok_0],
            })
        },
        (s.config is Some && sender == s.config->Some_0.admin && balance is Ok && balance->Ok_0.1 == 0)
            ==> spec_withdraw(s, sender, balance) == Err::<(StateView, ResponseView), ErrorView>(
            ErrorView::ZeroBalance,
        ),
{
}

/// A successful instantiation records the sender as admin and the supply,
/// code id and per-address limit given; it succeeds only with a supply and a
/// limit within bounds.
pub proof fn law_instantiate_records_configuration(
    contract_address: Seq<char>,
    sender: Seq<char>,
    funds: Seq<(Seq<char>, u128)>,
    msg: crate::msg::InstantiateMsg,
)
    ensures
        spec_instantiate(contract_address, sender, funds, msg) matches Ok((s, _)) ==> {
            &&& 1 <= msg.num_tokens <= MAX_TOKEN_LIMIT
            &&& 1 <= msg.per_address_limit <= MAX_PER_ADDRESS_LIMIT
            &&& s.config is Some
            &&& s.config->Some_0.admin == sender
            &&& s.config->Some_0.num_tokens == msg.num_tokens
            &&& s.config->Some_0.an721_code_id == msg.an721_code_id
            &&& s.config->Some_0.per_address_limit == msg.per_address_limit
            &&& s.an721_address is None
        },
        (msg.num_tokens == 0 || msg.num_tokens > MAX_TOKEN_LIMIT) ==> spec_instantiate(
            contract_address,
            sender,
            funds,
            msg,
        ) is Err,
        (msg.per_address_limit == 0 || msg.per_address_limit > MAX_PER_ADDRESS_LIMIT)
            ==> spec_instantiate(contract_address, sender, funds, msg) is Err,
{
}

/// The reply to the NFT contract's instantiation changes only the NFT
/// contract's address, to the one that the reply names; a reply to another
/// submessage, or one that names no address, is refused.
pub proof fn law_reply_changes_only_the_address(s: StateView, id: u64, address: Option<Seq<char>>)
    ensures
        spec_reply(s, id, address) matches Ok((s2, _)) ==> {
            &&& id == INSTANTIATE_AN721_REPLY_ID
            &&& address is Some
            &&& s2.an721_address == address
            &&& s2.config == s.config
            &&& s2.mintable_ids == s.mintable_ids
            &&& s2.mintable_num_tokens == s.mintable_num_tokens
            &&& s2.mint_counts == s.mint_counts
        },
        (id != INSTANTIATE_AN721_REPLY_ID || address is None) ==> spec_reply(s, id, address) is Err,
{
}

/// The mint count query reports the validated address and the number of
/// mints recorded for it; an invalid address is refused.
pub proof fn law_mint_count_query_reports_record(s: StateView, validated: Result<Seq<char>, Seq<char>>)
    ensures
        spec_query_mint_count(s, validated) matches Ok(QueryResponseView::MintCount { address, count })
            ==> validated == Ok::<Seq<char>, Seq<char>>(address) && count == count_of(s.mint_counts, address),
        validated is Err ==> spec_query_mint_count(s, validated) is Err,
{
}

} // verus!
