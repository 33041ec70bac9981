//! The swap lifecycle engine: create, update, finish, cancel, and the
//! configuration operations.
//!
//! Each operation takes the chain position, the caller, the attached coins
//! and the typed command, validates in a fixed order, and either mutates the
//! state and returns the response, or leaves the state untouched and returns
//! the error. The `*_error` spec functions state that order exactly; the
//! `*_post` predicates pin the whole outcome.
//!
//! What only the chain can answer — who currently owns an NFT — is passed in
//! as `token_owner`, the ownership oracle's answer for the token at hand.

use vstd::prelude::*;
use crate::error::ContractError;
use crate::msg::Attribute;
use crate::msg::AttrValue;
use crate::msg::CancelMsg;
use crate::msg::ExecuteMsg;
use crate::msg::InstantiateMsg;
use crate::msg::TransferMsg;
use crate::msg::UpdateMsg;
use crate::msg::Response;
use crate::msg::SwapMsg;
use crate::state::BlockInfo;
use crate::state::Coin;
use crate::state::Config;
use crate::state::CW721Swap;
use crate::state::Marketplace;
use crate::state::SwapEntry;
use crate::state::SwapType;
use crate::state::get_swap;
use crate::state::has_id;
use crate::state::idx_of;
use crate::state::is_native_offer;
use crate::state::native_attached;
use crate::state::native_offer_sum;
use crate::state::offer_weight;
use crate::state::native_attached_amount;
use crate::state::native_denom;
use crate::state::spec_native_denom;
use crate::sums::seq_sum;

verus! {

/// The oracle named `sender` as the token's current owner.
pub open spec fn owner_matches(token_owner: Option<String>, sender: String) -> bool {
    match token_owner {
        Some(o) => o@ == sender@,
        None => false,
    }
}

/// The record a successful Create stores.
pub open spec fn created_swap(pre: Marketplace, sender: String, msg: SwapMsg) -> CW721Swap {
    CW721Swap {
        creator: sender,
        nft_contract: pre.config.cw721,
        payment_token: msg.payment_token,
        token_id: msg.token_id,
        expires: msg.expires,
        price: msg.price,
        swap_type: msg.swap_type,
    }
}

/// Why Create fails, in validation order: an already-elapsed expiration;
/// a Sale listed by anyone but the token's owner; a native Offer whose
/// attached native coins are not exactly the price; an occupied id.
pub open spec fn create_error(
    pre: Marketplace,
    block: BlockInfo,
    sender: String,
    funds: Seq<Coin>,
    msg: SwapMsg,
    token_owner: Option<String>,
) -> Option<ContractError> {
    if msg.expires.spec_is_expired(block) {
        Some(ContractError::Expired)
    } else if msg.swap_type is Sale && !owner_matches(token_owner, sender) {
        Some(ContractError::Unauthorized)
    } else if msg.swap_type is Offer && msg.payment_token is None && native_attached(funds)
        != msg.price as int {
        Some(ContractError::InvalidPayment)
    } else if has_id(pre.swaps@, msg.id@) {
        Some(ContractError::AlreadyExists)
    } else {
        None
    }
}

/// The attribute carries this text.
pub open spec fn is_text_attr(a: Attribute, key: Seq<char>, value: Seq<char>) -> bool {
    a.key@ == key && (a.value matches AttrValue::Text(t) && t@ == value)
}

/// The attribute carries this amount.
pub open spec fn is_amount_attr(a: Attribute, key: Seq<char>, value: u128) -> bool {
    a.key@ == key && a.value == AttrValue::Amount(value)
}

/// The payment denomination a response reports: the fungible token's
/// address, or the native denomination.
pub open spec fn payment_token_attr(payment_token: Option<String>) -> Seq<char> {
    match payment_token {
        Some(t) => t@,
        None => spec_native_denom(),
    }
}

/// A successful Create's response: the observable attributes, no messages.
pub open spec fn create_response_ok(resp: Response, msg: SwapMsg) -> bool {
    &&& resp.messages@.len() == 0
    &&& resp.attributes@.len() == 4
    &&& is_text_attr(resp.attributes@[0], "action"@, "create"@)
    &&& is_text_attr(resp.attributes@[1], "token_id"@, msg.token_id@)
    &&& is_text_attr(resp.attributes@[2], "payment_token"@, payment_token_attr(msg.payment_token))
    &&& is_amount_attr(resp.attributes@[3], "price"@, msg.price)
}

/// Everything Create does: on a validation error the state is untouched and
/// exactly that error comes back; otherwise the new record is stored at its
/// ordered position, the attached native coins join the balance, and the
/// response reports the swap.
pub open spec fn create_post(
    pre: Marketplace,
    post: Marketplace,
    block: BlockInfo,
    sender: String,
    funds: Seq<Coin>,
    msg: SwapMsg,
    token_owner: Option<String>,
    r: Result<Response, ContractError>,
) -> bool {
    match create_error(pre, block, sender, funds, msg, token_owner) {
        Some(e) => r == Result::<Response, ContractError>::Err(e) && post == pre,
        None => {
            &&& r is Ok
            &&& (exists|i: int|
                0 <= i <= pre.swaps@.len() && post.swaps@ == pre.swaps@.insert(
                    i,
                    SwapEntry { id: msg.id, swap: created_swap(pre, sender, msg) },
                ))
            &&& post.balance as int == pre.balance as int + native_attached(funds)
            &&& post.config == pre.config
            &&& create_response_ok(r->Ok_0, msg)
        },
    }
}


/// A native payout of one coin from the contract to `to`.
pub open spec fn is_native_pay(m: TransferMsg, to: Seq<char>, amount: u128) -> bool {
    &&& m matches TransferMsg::NativeSend { to: t, funds } && t@ == to && funds@.len() == 1
        && funds@[0].denom@ == spec_native_denom() && funds@[0].amount == amount
}

/// The record a successful Update stores: only price and expiration change.
pub open spec fn updated_swap(old_swap: CW721Swap, msg: UpdateMsg) -> CW721Swap {
    CW721Swap {
        creator: old_swap.creator,
        nft_contract: old_swap.nft_contract,
        payment_token: old_swap.payment_token,
        token_id: old_swap.token_id,
        expires: msg.expires,
        price: msg.price,
        swap_type: old_swap.swap_type,
    }
}

/// Why Update fails, in validation order: a missing id; a caller other than
/// the creator; for a native Offer, attached coins that are not exactly the
/// new price, or a balance that cannot release the old escrow.
pub open spec fn update_error(
    pre: Marketplace,
    sender: String,
    funds: Seq<Coin>,
    msg: UpdateMsg,
) -> Option<ContractError> {
    if !has_id(pre.swaps@, msg.id@) {
        Some(ContractError::NotFound)
    } else {
        let swap = get_swap(pre.swaps@, msg.id@);
        if swap.creator@ != sender@ {
            Some(ContractError::Unauthorized)
        } else if is_native_offer(swap) && native_attached(funds) != msg.price as int {
            Some(ContractError::InvalidPayment)
        } else if is_native_offer(swap) && pre.balance < swap.price {
            Some(ContractError::InsufficientBalance)
        } else {
            None
        }
    }
}

/// A successful Update's response: for a native Offer the old escrow goes
/// back to the creator; otherwise no funds move.
pub open spec fn update_response_ok(resp: Response, pre: Marketplace, msg: UpdateMsg) -> bool {
    let swap = get_swap(pre.swaps@, msg.id@);
    &&& resp.attributes@.len() == 3
    &&& is_text_attr(resp.attributes@[0], "action"@, "update"@)
    &&& is_text_attr(resp.attributes@[1], "swap_id"@, msg.id@)
    &&& is_text_attr(resp.attributes@[2], "token_id"@, swap.token_id@)
    &&& if is_native_offer(swap) {
        resp.messages@.len() == 1 && is_native_pay(resp.messages@[0], swap.creator@, swap.price)
    } else {
        resp.messages@.len() == 0
    }
}

/// Everything Update does. The release of the old escrow and the collection
/// of the new one happen in the same operation: on any failure neither leg
/// is applied.
pub open spec fn update_post(
    pre: Marketplace,
    post: Marketplace,
    sender: String,
    funds: Seq<Coin>,
    msg: UpdateMsg,
    r: Result<Response, ContractError>,
) -> bool {
    match update_error(pre, sender, funds, msg) {
        Some(e) => r == Result::<Response, ContractError>::Err(e) && post == pre,
        None => {
            let idx = idx_of(pre.swaps@, msg.id@);
            let swap = get_swap(pre.swaps@, msg.id@);
            &&& r is Ok
            &&& post.swaps@ == pre.swaps@.update(
                idx,
                SwapEntry { id: pre.swaps@[idx].id, swap: updated_swap(swap, msg) },
            )
            &&& post.balance as int == pre.balance as int + native_attached(funds) - (
            if is_native_offer(swap) {
                swap.price as int
            } else {
                0
            })
            &&& post.config == pre.config
            &&& update_response_ok(r->Ok_0, pre, msg)
        },
    }
}

/// Why Cancel fails: a missing id; a caller other than the creator; for a
/// native Offer, a balance that cannot release the escrow.
pub open spec fn cancel_error(pre: Marketplace, sender: String, msg: CancelMsg) -> Option<
    ContractError,
> {
    if !has_id(pre.swaps@, msg.id@) {
        Some(ContractError::NotFound)
    } else {
        let swap = get_swap(pre.swaps@, msg.id@);
        if swap.creator@ != sender@ {
            Some(ContractError::Unauthorized)
        } else if is_native_offer(swap) && pre.balance < swap.price {
            Some(ContractError::InsufficientBalance)
        } else {
            None
        }
    }
}

/// A successful Cancel's response: for a native Offer the escrow goes back
/// to the creator; otherwise no funds move.
pub open spec fn cancel_response_ok(resp: Response, pre: Marketplace, msg: CancelMsg) -> bool {
    let swap = get_swap(pre.swaps@, msg.id@);
    &&& resp.attributes@.len() == 2
    &&& is_text_attr(resp.attributes@[0], "action"@, "cancel"@)
    &&& is_text_attr(resp.attributes@[1], "swap_id"@, msg.id@)
    &&& if is_native_offer(swap) {
        resp.messages@.len() == 1 && is_native_pay(resp.messages@[0], swap.creator@, swap.price)
    } else {
        resp.messages@.len() == 0
    }
}

/// Everything Cancel does: the record is removed unconditionally (no
/// expiration check), and a native Offer's escrow is released.
pub open spec fn cancel_post(
    pre: Marketplace,
    post: Marketplace,
    sender: String,
    funds: Seq<Coin>,
    msg: CancelMsg,
    r: Result<Response, ContractError>,
) -> bool {
    match cancel_error(pre, sender, msg) {
        Some(e) => r == Result::<Response, ContractError>::Err(e) && post == pre,
        None => {
            let idx = idx_of(pre.swaps@, msg.id@);
            let swap = get_swap(pre.swaps@, msg.id@);
            &&& r is Ok
            &&& post.swaps@ == pre.swaps@.remove(idx)
            &&& post.balance as int == pre.balance as int + native_attached(funds) - (
            if is_native_offer(swap) {
                swap.price as int
            } else {
                0
            })
            &&& post.config == pre.config
            &&& cancel_response_ok(r->Ok_0, pre, msg)
        },
    }
}

/// Everything UpdateConfig does: only the admin may replace the
/// configuration; nothing else changes.
pub open spec fn update_config_post(
    pre: Marketplace,
    post: Marketplace,
    sender: String,
    config_update: Config,
    r: Result<Response, ContractError>,
) -> bool {
    if pre.config.admin@ != sender@ {
        r == Result::<Response, ContractError>::Err(ContractError::Unauthorized) && post == pre
    } else {
        &&& r is Ok
        &&& post.config == config_update
        &&& post.swaps@ == pre.swaps@
        &&& post.balance == pre.balance
        &&& r->Ok_0.messages@.len() == 0
        &&& r->Ok_0.attributes@.len() == 1
        &&& is_text_attr(r->Ok_0.attributes@[0], "action"@, "update_config"@)
    }
}


/// Keeps a record when the finished token is not its subject.
pub open spec fn keep_pred(token: Seq<char>) -> spec_fn(SwapEntry) -> bool {
    |e: SwapEntry| e.swap.token_id@ != token
}

/// A pruned record whose escrow must flow back: it references the finished
/// token, is not the finished swap itself, and escrows native coins.
pub open spec fn refund_pred(token: Seq<char>, fid: Seq<char>) -> spec_fn(SwapEntry) -> bool {
    |e: SwapEntry| e.swap.token_id@ == token && e.id@ != fid && is_native_offer(e.swap)
}

/// The pruned records whose escrow a Finish releases, in store order.
pub open spec fn refund_entries(s: Seq<SwapEntry>, token: Seq<char>, fid: Seq<char>) -> Seq<
    SwapEntry,
> {
    s.filter(refund_pred(token, fid))
}

/// The native coins a Finish releases to the creators of pruned offers.
pub open spec fn refund_sum(s: Seq<SwapEntry>, token: Seq<char>, fid: Seq<char>) -> int {
    native_offer_sum(refund_entries(s, token, fid))
}

/// The native coins the payment instruction itself moves out of the
/// contract: a native Sale forwards everything the finisher attached, a
/// native Offer pays the escrowed price, a fungible-token swap moves none.
pub open spec fn finish_payment_out(swap: CW721Swap, funds: Seq<Coin>) -> int {
    if swap.payment_token is None {
        if swap.swap_type is Sale {
            native_attached(funds)
        } else {
            swap.price as int
        }
    } else {
        0
    }
}

/// Some attached coin is native and reaches `price`; the at-least policy
/// for finishing a native Sale.
pub open spec fn native_payment_ok(funds: Seq<Coin>, price: u128) -> bool {
    price == 0 || exists|i: int|
        0 <= i < funds.len() && (#[trigger] funds[i]).denom@ == spec_native_denom()
            && funds[i].amount >= price
}

/// Why Finish fails, in validation order: a missing id; an elapsed
/// expiration; for a native Offer an escrow the balance cannot cover, for a
/// native Sale attached funds under the price; an Offer finished by anyone
/// but the token's owner; payouts the balance cannot cover.
pub open spec fn finish_error(
    pre: Marketplace,
    block: BlockInfo,
    sender: String,
    funds: Seq<Coin>,
    id: Seq<char>,
    token_owner: Option<String>,
) -> Option<ContractError> {
    if !has_id(pre.swaps@, id) {
        Some(ContractError::NotFound)
    } else {
        let swap = get_swap(pre.swaps@, id);
        if swap.expires.spec_is_expired(block) {
            Some(ContractError::Expired)
        } else if swap.payment_token is None && swap.swap_type is Offer && pre.balance
            < swap.price {
            Some(ContractError::InsufficientBalance)
        } else if swap.payment_token is None && swap.swap_type is Sale && !native_payment_ok(
            funds,
            swap.price,
        ) {
            Some(ContractError::Unauthorized)
        } else if swap.swap_type is Offer && !owner_matches(token_owner, sender) {
            Some(ContractError::Unauthorized)
        } else if finish_payment_out(swap, funds) + refund_sum(pre.swaps@, swap.token_id@, id)
            > pre.balance as int + native_attached(funds) {
            Some(ContractError::InsufficientBalance)
        } else {
            None
        }
    }
}

/// The NFT-transfer instruction of a Finish.
pub open spec fn is_nft_transfer(
    m: TransferMsg,
    contract: Seq<char>,
    recipient: Seq<char>,
    token_id: Seq<char>,
) -> bool {
    &&& m matches TransferMsg::NftTransfer { nft_contract, recipient: rcp, token_id: tid }
        && nft_contract@ == contract && rcp@ == recipient && tid@ == token_id
}

/// The payment instruction of a Finish. The NFT flows from `payee` to
/// `payer`; the payment flows the other way.
pub open spec fn is_finish_payment(
    m: TransferMsg,
    swap: CW721Swap,
    payer: Seq<char>,
    payee: Seq<char>,
    funds: Seq<Coin>,
) -> bool {
    match swap.payment_token {
        Some(t) => m matches TransferMsg::Cw20TransferFrom { token, owner, recipient, amount }
            && token@ == t@ && owner@ == payer && recipient@ == payee && amount == swap.price,
        None => {
            if swap.swap_type is Sale {
                m matches TransferMsg::NativeSend { to, funds: f } && to@ == payee && f@ == funds
            } else {
                is_native_pay(m, payee, swap.price)
            }
        },
    }
}

/// A successful Finish's response: the NFT transfer, the payment, then one
/// escrow release for each pruned native offer, in store order.
pub open spec fn finish_response_ok(
    resp: Response,
    pre: Marketplace,
    sender: String,
    funds: Seq<Coin>,
    id: Seq<char>,
) -> bool {
    let swap = get_swap(pre.swaps@, id);
    let receiver = if swap.swap_type is Sale {
        sender@
    } else {
        swap.creator@
    };
    let payee = if swap.swap_type is Sale {
        swap.creator@
    } else {
        sender@
    };
    let refunds = refund_entries(pre.swaps@, swap.token_id@, id);
    &&& resp.attributes@.len() == 4
    &&& is_text_attr(resp.attributes@[0], "action"@, "finish"@)
    &&& is_text_attr(resp.attributes@[1], "token_id"@, swap.token_id@)
    &&& is_text_attr(resp.attributes@[2], "payment_token"@, payment_token_attr(swap.payment_token))
    &&& is_amount_attr(resp.attributes@[3], "price"@, swap.price)
    &&& resp.messages@.len() == 2 + refunds.len()
    &&& is_nft_transfer(resp.messages@[0], swap.nft_contract@, receiver, swap.token_id@)
    &&& is_finish_payment(resp.messages@[1], swap, receiver, payee, funds)
    &&& forall|k: int|
        0 <= k < refunds.len() ==> is_native_pay(
            #[trigger] resp.messages@[2 + k],
            refunds[k].swap.creator@,
            refunds[k].swap.price,
        )
}

/// Everything Finish does: the trade's two instructions are emitted, every
/// record of the finished token leaves the store, and the escrow of each
/// pruned native offer flows back to its creator.
pub open spec fn finish_post(
    pre: Marketplace,
    post: Marketplace,
    block: BlockInfo,
    sender: String,
    funds: Seq<Coin>,
    id: Seq<char>,
    token_owner: Option<String>,
    r: Result<Response, ContractError>,
) -> bool {
    match finish_error(pre, block, sender, funds, id, token_owner) {
        Some(e) => r == Result::<Response, ContractError>::Err(e) && post == pre,
        None => {
            let swap = get_swap(pre.swaps@, id);
            &&& r is Ok
            &&& post.swaps@ == pre.swaps@.filter(keep_pred(swap.token_id@))
            &&& post.balance as int == pre.balance as int + native_attached(funds)
                - finish_payment_out(swap, funds) - refund_sum(pre.swaps@, swap.token_id@, id)
            &&& post.config == pre.config
            &&& finish_response_ok(r->Ok_0, pre, sender, funds, id)
        },
    }
}

/// Splits the escrow sum of a store that holds no record under `fid` into
/// the kept records and the refunded ones.
proof fn lemma_prune_sum_nofid(s: Seq<SwapEntry>, token: Seq<char>, fid: Seq<char>)
    requires
        forall|j: int| 0 <= j < s.len() ==> (#[trigger] s[j].id@) != fid,
    ensures
        native_offer_sum(s) == native_offer_sum(s.filter(keep_pred(token))) + native_offer_sum(
            s.filter(refund_pred(token, fid)),
        ),
    decreases s.len(),
{
    reveal(Seq::filter);
    let w = crate::state::offer_weight_fn();
    if s.len() > 0 {
        lemma_prune_sum_nofid(s.drop_last(), token, fid);
        let e = s.last();
        if keep_pred(token)(e) {
            let fl = s.drop_last().filter(keep_pred(token));
            assert(fl.push(e).drop_last() =~= fl);
            assert(seq_sum(s.filter(keep_pred(token)), w) == seq_sum(fl, w) + w(e));
        } else if refund_pred(token, fid)(e) {
            let fl = s.drop_last().filter(refund_pred(token, fid));
            assert(fl.push(e).drop_last() =~= fl);
            assert(seq_sum(s.filter(refund_pred(token, fid)), w) == seq_sum(fl, w) + w(e));
        } else {
            assert(w(e) == 0);
        }
    }
}

/// Splits the escrow sum around one Finish: the kept records, the refunded
/// ones, and the finished record itself.
proof fn lemma_prune_sum(s: Seq<SwapEntry>, token: Seq<char>, fid: Seq<char>, idx: int)
    requires
        0 <= idx < s.len(),
        s[idx].id@ == fid,
        s[idx].swap.token_id@ == token,
        forall|j: int| 0 <= j < s.len() && j != idx ==> (#[trigger] s[j].id@) != fid,
    ensures
        native_offer_sum(s) == native_offer_sum(s.filter(keep_pred(token))) + native_offer_sum(
            s.filter(refund_pred(token, fid)),
        ) + offer_weight(s[idx]),
    decreases s.len(),
{
    reveal(Seq::filter);
    let w = crate::state::offer_weight_fn();
    let e = s.last();
    if idx == s.len() - 1 {
        lemma_prune_sum_nofid(s.drop_last(), token, fid);
        assert(!keep_pred(token)(e));
        assert(!refund_pred(token, fid)(e));
    } else {
        lemma_prune_sum(s.drop_last(), token, fid, idx);
        assert(s.drop_last()[idx] == s[idx]);
        assert(e.id@ != fid);
        if keep_pred(token)(e) {
            let fl = s.drop_last().filter(keep_pred(token));
            assert(fl.push(e).drop_last() =~= fl);
            assert(seq_sum(s.filter(keep_pred(token)), w) == seq_sum(fl, w) + w(e));
        } else if refund_pred(token, fid)(e) {
            let fl = s.drop_last().filter(refund_pred(token, fid));
            assert(fl.push(e).drop_last() =~= fl);
            assert(seq_sum(s.filter(refund_pred(token, fid)), w) == seq_sum(fl, w) + w(e));
        } else {
            assert(w(e) == 0);
        }
    }
}

/// Builds the trade's two instructions: the NFT moves to `nft_receiver`,
/// the payment — a fungible pull, the attached coins of a native sale, or
/// the escrowed price of a native offer — moves to `nft_sender`.
fn handle_swap_transfers(
    nft_sender: &String,
    nft_receiver: &String,
    details: &CW721Swap,
    funds: &Vec<Coin>,
) -> (r: Vec<TransferMsg>)
    ensures
        r@.len() == 2,
        is_nft_transfer(r@[0], details.nft_contract@, nft_receiver@, details.token_id@),
        is_finish_payment(r@[1], *details, nft_receiver@, nft_sender@, funds@),
{
    let mut messages: Vec<TransferMsg> = Vec::new();
    messages.push(
        TransferMsg::NftTransfer {
            nft_contract: details.nft_contract.clone(),
            recipient: nft_receiver.clone(),
            token_id: details.token_id.clone(),
        },
    );
    match &details.payment_token {
        Some(t) => {
            messages.push(
                TransferMsg::Cw20TransferFrom {
                    token: t.clone(),
                    owner: nft_receiver.clone(),
                    recipient: nft_sender.clone(),
                    amount: details.price,
                },
            );
        },
        None => {
            if details.swap_type == SwapType::Sale {
                let mut pay: Vec<Coin> = Vec::new();
                let m = funds.len();
                let mut j: usize = 0;
                while j < m
                    invariant
                        0 <= j <= m,
                        pay@ == funds@.take(j as int),
                    decreases m - j,
                {
                    proof {
                        assert(funds@.take(j + 1) =~= funds@.take(j as int).push(
                            funds@[j as int],
                        ));
                    }
                    pay.push(funds[j].clone());
                    j = j + 1;
                }
                proof {
                    assert(funds@.take(m as int) =~= funds@);
                }
                messages.push(TransferMsg::NativeSend { to: nft_sender.clone(), funds: pay });
            } else {
                let mut coins: Vec<Coin> = Vec::new();
                coins.push(Coin { denom: native_denom(), amount: details.price });
                messages.push(TransferMsg::NativeSend { to: nft_sender.clone(), funds: coins });
            }
        },
    }
    messages
}

/// Sets up an empty marketplace bound to one NFT collection.
pub fn instantiate(msg: InstantiateMsg) -> (r: (Marketplace, Response))
    ensures
        r.0.config.admin == msg.admin,
        r.0.config.cw721 == msg.cw721,
        r.0.swaps@.len() == 0,
        r.0.balance == 0,
        r.0.wf(),
        r.0.escrow_ok(),
        r.1.messages@.len() == 0,
        r.1.attributes@.len() == 2,
        is_text_attr(r.1.attributes@[0], "action"@, "instantiate"@),
        is_text_attr(r.1.attributes@[1], "cw721"@, msg.cw721@),
{
    let cw721_attr = msg.cw721.clone();
    let state = Marketplace {
        config: Config { admin: msg.admin, cw721: msg.cw721 },
        swaps: Vec::new(),
        balance: 0,
    };
    let mut attributes: Vec<Attribute> = Vec::new();
    attributes.push(
        Attribute { key: "action".to_owned(), value: AttrValue::Text("instantiate".to_owned()) },
    );
    attributes.push(Attribute { key: "cw721".to_owned(), value: AttrValue::Text(cw721_attr) });
    (state, Response { attributes, messages: Vec::new() })
}

impl Marketplace {
    /// Creates a swap: a Sale by the token's owner, or an Offer, which for
    /// the native coin escrows exactly the price up front.
    pub fn execute_create(
        &mut self,
        block: &BlockInfo,
        sender: &String,
        funds: &Vec<Coin>,
        msg: SwapMsg,
        token_owner: &Option<String>,
    ) -> (r: Result<Response, ContractError>)
        requires
            old(self).wf(),
            old(self).balance as int + native_attached(funds@) <= u128::MAX as int,
        ensures
            final(self).wf(),
            create_post(
                *old(self),
                *final(self),
                *block,
                *sender,
                funds@,
                msg,
                *token_owner,
                r,
            ),
            old(self).escrow_ok() && (r is Ok ==> (is_native_offer(
                created_swap(*old(self), *sender, msg),
            ) || native_attached(funds@) == 0)) ==> final(self).escrow_ok(),
    {
        proof {
            crate::sums::lemma_seq_sum_nonneg(funds@, crate::state::native_weight_fn());
        }
        if msg.expires.is_expired(block) {
            return Err(ContractError::Expired);
        }
        if msg.swap_type == SwapType::Sale {
            let authorized = match token_owner {
                Some(o) => *o == *sender,
                None => false,
            };
            if !authorized {
                return Err(ContractError::Unauthorized);
            }
        } else if msg.payment_token.is_none() {
            let attached = native_attached_amount(funds);
            if attached != msg.price {
                return Err(ContractError::InvalidPayment);
            }
        }
        match self.find_index(&msg.id) {
            Some(_) => {
                return Err(ContractError::AlreadyExists);
            },
            None => {},
        }
        let attached = native_attached_amount(funds);
        let swap = CW721Swap {
            creator: sender.clone(),
            nft_contract: self.config.cw721.clone(),
            payment_token: msg.payment_token,
            token_id: msg.token_id,
            expires: msg.expires,
            price: msg.price,
            swap_type: msg.swap_type,
        };
        let payment_attr: String = match &swap.payment_token {
            Some(t) => t.clone(),
            None => native_denom(),
        };
        let token_id_attr = swap.token_id.clone();
        let price_attr = swap.price;
        proof {
            assert(swap == created_swap(*old(self), *sender, msg));
        }
        self.insert_sorted(SwapEntry { id: msg.id, swap });
        self.balance = self.balance + attached;
        let mut attributes: Vec<Attribute> = Vec::new();
        attributes.push(
            Attribute { key: "action".to_owned(), value: AttrValue::Text("create".to_owned()) },
        );
        attributes.push(
            Attribute { key: "token_id".to_owned(), value: AttrValue::Text(token_id_attr) },
        );
        attributes.push(
            Attribute { key: "payment_token".to_owned(), value: AttrValue::Text(payment_attr) },
        );
        attributes.push(
            Attribute { key: "price".to_owned(), value: AttrValue::Amount(price_attr) },
        );
        Ok(Response { attributes, messages: Vec::new() })
    }

    /// Updates a swap's price and expiration; for a native Offer the old
    /// escrow is released and the new one collected in the same operation.
    pub fn execute_update(
        &mut self,
        sender: &String,
        funds: &Vec<Coin>,
        msg: UpdateMsg,
    ) -> (r: Result<Response, ContractError>)
        requires
            old(self).wf(),
            old(self).balance as int + native_attached(funds@) <= u128::MAX as int,
        ensures
            final(self).wf(),
            update_post(*old(self), *final(self), *sender, funds@, msg, r),
            old(self).escrow_ok() && (r is Ok ==> (is_native_offer(
                get_swap(old(self).swaps@, msg.id@),
            ) || native_attached(funds@) == 0)) ==> final(self).escrow_ok(),
    {
        proof {
            crate::sums::lemma_seq_sum_nonneg(funds@, crate::state::native_weight_fn());
        }
        let idx = match self.find_index(&msg.id) {
            None => {
                return Err(ContractError::NotFound);
            },
            Some(i) => i,
        };
        proof {
            crate::state::lemma_sorted_unique(
                self.swaps@,
                idx_of(self.swaps@, msg.id@),
                idx as int,
            );
        }
        let e = &self.swaps[idx];
        let old_swap = e.swap.clone();
        let stored_id = e.id.clone();
        if !(old_swap.creator == *sender) {
            return Err(ContractError::Unauthorized);
        }
        let native_offer = old_swap.payment_token.is_none() && old_swap.swap_type
            == SwapType::Offer;
        let attached = native_attached_amount(funds);
        if native_offer {
            if attached != msg.price {
                return Err(ContractError::InvalidPayment);
            }
            if self.balance < old_swap.price {
                return Err(ContractError::InsufficientBalance);
            }
        }
        let refund_to = old_swap.creator.clone();
        let token_id_attr = old_swap.token_id.clone();
        let swap_id_attr = msg.id.clone();
        let new_swap = CW721Swap {
            creator: old_swap.creator,
            nft_contract: old_swap.nft_contract,
            payment_token: old_swap.payment_token,
            token_id: old_swap.token_id,
            expires: msg.expires,
            price: msg.price,
            swap_type: old_swap.swap_type,
        };
        let ghost pre = *self;
        let new_entry = SwapEntry { id: stored_id, swap: new_swap };
        proof {
            assert(new_entry.swap == updated_swap(get_swap(pre.swaps@, msg.id@), msg));
        }
        self.swaps.remove(idx);
        self.swaps.insert(idx, new_entry);
        if native_offer {
            self.balance = self.balance - old_swap.price + attached;
        } else {
            self.balance = self.balance + attached;
        }
        proof {
            assert(self.swaps@ =~= pre.swaps@.update(idx as int, new_entry));
            assert forall|i: int, j: int| 0 <= i < j < self.swaps@.len() implies crate::keys::key_lt(
                #[trigger] self.swaps@[i].id@,
                #[trigger] self.swaps@[j].id@,
            ) by {
                assert(self.swaps@[i].id@ == pre.swaps@[i].id@);
                assert(self.swaps@[j].id@ == pre.swaps@[j].id@);
            }
            crate::state::lemma_native_offer_sum_update(pre.swaps@, idx as int, new_entry);
        }
        let mut attributes: Vec<Attribute> = Vec::new();
        attributes.push(
            Attribute { key: "action".to_owned(), value: AttrValue::Text("update".to_owned()) },
        );
        attributes.push(
            Attribute { key: "swap_id".to_owned(), value: AttrValue::Text(swap_id_attr) },
        );
        attributes.push(
            Attribute { key: "token_id".to_owned(), value: AttrValue::Text(token_id_attr) },
        );
        let mut messages: Vec<TransferMsg> = Vec::new();
        if native_offer {
            let mut refund: Vec<Coin> = Vec::new();
            refund.push(Coin { denom: native_denom(), amount: old_swap.price });
            messages.push(TransferMsg::NativeSend { to: refund_to, funds: refund });
        }
        Ok(Response { attributes, messages })
    }

    /// Cancels a swap: the creator withdraws it, and a native Offer's
    /// escrow flows back to them.
    pub fn execute_cancel(
        &mut self,
        sender: &String,
        funds: &Vec<Coin>,
        msg: CancelMsg,
    ) -> (r: Result<Response, ContractError>)
        requires
            old(self).wf(),
            old(self).balance as int + native_attached(funds@) <= u128::MAX as int,
        ensures
            final(self).wf(),
            cancel_post(*old(self), *final(self), *sender, funds@, msg, r),
            old(self).escrow_ok() && (r is Ok ==> native_attached(funds@) == 0)
                ==> final(self).escrow_ok(),
    {
        proof {
            crate::sums::lemma_seq_sum_nonneg(funds@, crate::state::native_weight_fn());
        }
        let idx = match self.find_index(&msg.id) {
            None => {
                return Err(ContractError::NotFound);
            },
            Some(i) => i,
        };
        proof {
            crate::state::lemma_sorted_unique(
                self.swaps@,
                idx_of(self.swaps@, msg.id@),
                idx as int,
            );
        }
        let e = &self.swaps[idx];
        let old_swap = e.swap.clone();
        if !(old_swap.creator == *sender) {
            return Err(ContractError::Unauthorized);
        }
        let native_offer = old_swap.payment_token.is_none() && old_swap.swap_type
            == SwapType::Offer;
        if native_offer && self.balance < old_swap.price {
            return Err(ContractError::InsufficientBalance);
        }
        let attached = native_attached_amount(funds);
        let ghost pre = *self;
        self.swaps.remove(idx);
        if native_offer {
            self.balance = self.balance - old_swap.price + attached;
        } else {
            self.balance = self.balance + attached;
        }
        proof {
            assert forall|i: int, j: int| 0 <= i < j < self.swaps@.len() implies crate::keys::key_lt(
                #[trigger] self.swaps@[i].id@,
                #[trigger] self.swaps@[j].id@,
            ) by {
                if j < idx {
                    assert(self.swaps@[i].id@ == pre.swaps@[i].id@);
                    assert(self.swaps@[j].id@ == pre.swaps@[j].id@);
                } else if i < idx {
                    assert(self.swaps@[i].id@ == pre.swaps@[i].id@);
                    assert(self.swaps@[j].id@ == pre.swaps@[j + 1].id@);
                } else {
                    assert(self.swaps@[i].id@ == pre.swaps@[i + 1].id@);
                    assert(self.swaps@[j].id@ == pre.swaps@[j + 1].id@);
                }
            }
            crate::state::lemma_native_offer_sum_remove(pre.swaps@, idx as int);
        }
        let mut attributes: Vec<Attribute> = Vec::new();
        attributes.push(
            Attribute { key: "action".to_owned(), value: AttrValue::Text("cancel".to_owned()) },
        );
        attributes.push(Attribute { key: "swap_id".to_owned(), value: AttrValue::Text(msg.id) });
        let mut messages: Vec<TransferMsg> = Vec::new();
        if native_offer {
            let mut refund: Vec<Coin> = Vec::new();
            refund.push(Coin { denom: native_denom(), amount: old_swap.price });
            messages.push(
                TransferMsg::NativeSend { to: old_swap.creator, funds: refund },
            );
        }
        Ok(Response { attributes, messages })
    }

    /// Finishes a swap: the counterparty consummates the trade. The NFT and
    /// the payment instructions are emitted, every record of the traded
    /// token leaves the store, and pruned native offers are refunded.
    pub fn execute_finish(
        &mut self,
        block: &BlockInfo,
        sender: &String,
        funds: &Vec<Coin>,
        msg: SwapMsg,
        token_owner: &Option<String>,
    ) -> (r: Result<Response, ContractError>)
        requires
            old(self).wf(),
            old(self).balance as int + native_attached(funds@) <= u128::MAX as int,
        ensures
            final(self).wf(),
            finish_post(
                *old(self),
                *final(self),
                *block,
                *sender,
                funds@,
                msg.id@,
                *token_owner,
                r,
            ),
            r is Ok ==> forall|j: int|
                0 <= j < final(self).swaps@.len()
                    ==> (#[trigger] final(self).swaps@[j]).swap.token_id@
                    != get_swap(old(self).swaps@, msg.id@).token_id@,
            old(self).escrow_ok() && (r is Ok ==> ((get_swap(old(self).swaps@, msg.id@).swap_type
                is Sale && get_swap(old(self).swaps@, msg.id@).payment_token is None)
                || native_attached(funds@) == 0)) ==> final(self).escrow_ok(),
    {
        proof {
            crate::sums::lemma_seq_sum_nonneg(funds@, crate::state::native_weight_fn());
        }
        let idx = match self.find_index(&msg.id) {
            None => {
                return Err(ContractError::NotFound);
            },
            Some(i) => i,
        };
        proof {
            crate::state::lemma_sorted_unique(
                self.swaps@,
                idx_of(self.swaps@, msg.id@),
                idx as int,
            );
        }
        let e = &self.swaps[idx];
        let swap = e.swap.clone();
        if swap.is_expired(block) {
            return Err(ContractError::Expired);
        }
        if swap.payment_token.is_none() {
            if swap.swap_type == SwapType::Offer {
                let required = Coin { denom: native_denom(), amount: swap.price };
                match self.check_contract_balance_ok(&required) {
                    Err(err) => {
                        return Err(err);
                    },
                    Ok(()) => {},
                }
            } else {
                let required = Coin { denom: native_denom(), amount: swap.price };
                match crate::utils::check_sent_required_payment(funds, Some(required)) {
                    Err(err) => {
                        return Err(err);
                    },
                    Ok(()) => {},
                }
            }
        }
        if swap.swap_type == SwapType::Offer {
            let authorized = match token_owner {
                Some(o) => *o == *sender,
                None => false,
            };
            if !authorized {
                return Err(ContractError::Unauthorized);
            }
        }
        let attached = native_attached_amount(funds);
        let ghost pre = *self;
        let ghost token = swap.token_id@;
        let ghost fid = msg.id@;
        let ghost kp = keep_pred(token);
        let ghost rp = refund_pred(token, fid);
        let mut kept: Vec<SwapEntry> = Vec::new();
        let mut refunds: Vec<TransferMsg> = Vec::new();
        let mut refund_total: u128 = 0;
        let n = self.swaps.len();
        let mut i: usize = 0;
        proof {
            assert(pre.swaps@.take(0) =~= Seq::<SwapEntry>::empty());
            assert(Seq::<SwapEntry>::empty().filter(kp) =~= Seq::<SwapEntry>::empty()) by {
                reveal(Seq::filter);
            }
            assert(Seq::<SwapEntry>::empty().filter(rp) =~= Seq::<SwapEntry>::empty()) by {
                reveal(Seq::filter);
            }
        }
        while i < n
            invariant
                0 <= i <= n,
                *self == pre,
                kept@ == pre.swaps@.take(i as int).filter(kp),
                refunds@.len() == pre.swaps@.take(i as int).filter(rp).len(),
                forall|k: int|
                    0 <= k < refunds@.len() ==> is_native_pay(
                        #[trigger] refunds@[k],
                        pre.swaps@.take(i as int).filter(rp)[k].swap.creator@,
                        pre.swaps@.take(i as int).filter(rp)[k].swap.price,
                    ),
                refund_total as int == native_offer_sum(pre.swaps@.take(i as int).filter(rp)),
            decreases n - i,
        {
            proof {
                assert(pre.swaps@.take(i + 1) =~= pre.swaps@.take(i as int).push(
                    pre.swaps@[i as int],
                ));
                pre.swaps@.take(i as int).lemma_filter_push(pre.swaps@[i as int], kp);
                pre.swaps@.take(i as int).lemma_filter_push(pre.swaps@[i as int], rp);
                let rbase = pre.swaps@.take(i as int).filter(rp);
                assert(rbase.push(pre.swaps@[i as int]).drop_last() =~= rbase);
                assert(rbase.push(pre.swaps@[i as int]).last() == pre.swaps@[i as int]);
            }
            let ent = &self.swaps[i];
            if !(ent.swap.token_id == swap.token_id) {
                kept.push(ent.clone());
            } else if !(ent.id == msg.id) && ent.swap.payment_token.is_none() && ent.swap.swap_type
                == SwapType::Offer {
                let price = ent.swap.price;
                let new_total = match refund_total.checked_add(price) {
                    None => {
                        proof {
                            let rf = pre.swaps@.take(i + 1).filter(rp);
                            assert(native_offer_sum(rf) == refund_total as int + price as int);
                            crate::state::lemma_filtered_sum_prefix(pre.swaps@, rp, i + 1);
                            assert(refund_sum(pre.swaps@, token, fid) > u128::MAX as int);
                        }
                        return Err(ContractError::InsufficientBalance);
                    },
                    Some(v) => v,
                };
                let mut coins: Vec<Coin> = Vec::new();
                coins.push(Coin { denom: native_denom(), amount: price });
                refunds.push(
                    TransferMsg::NativeSend { to: ent.swap.creator.clone(), funds: coins },
                );
                refund_total = new_total;
            } else {
                proof {
                    assert(!kp(pre.swaps@[i as int]) && !rp(pre.swaps@[i as int]));
                }
            }
            i = i + 1;
        }
        proof {
            assert(pre.swaps@.take(n as int) =~= pre.swaps@);
        }
        let payment_out: u128 = if swap.payment_token.is_none() {
            if swap.swap_type == SwapType::Sale {
                attached
            } else {
                swap.price
            }
        } else {
            0
        };
        let avail = self.balance + attached;
        let out = match payment_out.checked_add(refund_total) {
            None => {
                return Err(ContractError::InsufficientBalance);
            },
            Some(o) => o,
        };
        if out > avail {
            return Err(ContractError::InsufficientBalance);
        }
        let token_id_attr = swap.token_id.clone();
        let payment_attr: String = match &swap.payment_token {
            Some(t) => t.clone(),
            None => native_denom(),
        };
        let nft_receiver: String = if swap.swap_type == SwapType::Sale {
            sender.clone()
        } else {
            swap.creator.clone()
        };
        let payee: String = if swap.swap_type == SwapType::Sale {
            swap.creator.clone()
        } else {
            sender.clone()
        };
        let mut messages = handle_swap_transfers(&payee, &nft_receiver, &swap, funds);
        messages.append(&mut refunds);
        self.swaps = kept;
        self.balance = avail - out;
        proof {
            crate::state::lemma_filter_sorted(pre.swaps@, kp);
            assert forall|j: int|
                0 <= j < pre.swaps@.len() && j != idx as int implies (
            #[trigger] pre.swaps@[j].id@) != fid by {
                if pre.swaps@[j].id@ == fid {
                    crate::state::lemma_sorted_unique(pre.swaps@, j, idx as int);
                }
            }
            lemma_prune_sum(pre.swaps@, token, fid, idx as int);
            assert forall|j: int|
                0 <= j < self.swaps@.len() implies (#[trigger] self.swaps@[j]).swap.token_id@
                != token by {
                pre.swaps@.lemma_filter_pred(kp, j);
            }
        }
        let mut attributes: Vec<Attribute> = Vec::new();
        attributes.push(
            Attribute { key: "action".to_owned(), value: AttrValue::Text("finish".to_owned()) },
        );
        attributes.push(
            Attribute { key: "token_id".to_owned(), value: AttrValue::Text(token_id_attr) },
        );
        attributes.push(
            Attribute { key: "payment_token".to_owned(), value: AttrValue::Text(payment_attr) },
        );
        attributes.push(
            Attribute { key: "price".to_owned(), value: AttrValue::Amount(swap.price) },
        );
        Ok(Response { attributes, messages })
    }

    /// Replaces the configuration; only the admin may.
    pub fn execute_update_config(&mut self, sender: &String, config_update: Config) -> (r: Result<
        Response,
        ContractError,
    >)
        requires
            old(self).wf(),
        ensures
            final(self).wf(),
            final(self).escrow_ok() == old(self).escrow_ok(),
            update_config_post(*old(self), *final(self), *sender, config_update, r),
    {
        if !(self.config.admin == *sender) {
            return Err(ContractError::Unauthorized);
        }
        self.config = config_update;
        let mut attributes: Vec<Attribute> = Vec::new();
        attributes.push(
            Attribute {
                key: "action".to_owned(),
                value: AttrValue::Text("update_config".to_owned()),
            },
        );
        Ok(Response { attributes, messages: Vec::new() })
    }
}

/// Dispatches a decoded command to its lifecycle operation.
pub fn execute(
    state: &mut Marketplace,
    block: &BlockInfo,
    sender: &String,
    funds: &Vec<Coin>,
    msg: ExecuteMsg,
    token_owner: &Option<String>,
) -> (r: Result<Response, ContractError>)
    requires
        old(state).wf(),
        old(state).balance as int + native_attached(funds@) <= u128::MAX as int,
    ensures
        final(state).wf(),
        match msg {
            ExecuteMsg::Create(m) => create_post(
                *old(state),
                *final(state),
                *block,
                *sender,
                funds@,
                m,
                *token_owner,
                r,
            ),
            ExecuteMsg::Finish(m) => finish_post(
                *old(state),
                *final(state),
                *block,
                *sender,
                funds@,
                m.id@,
                *token_owner,
                r,
            ),
            ExecuteMsg::Cancel(m) => cancel_post(*old(state), *final(state), *sender, funds@, m, r),
            ExecuteMsg::Update(m) => update_post(*old(state), *final(state), *sender, funds@, m, r),
            ExecuteMsg::UpdateConfig { config } => update_config_post(
                *old(state),
                *final(state),
                *sender,
                config,
                r,
            ),
        },
{
    match msg {
        ExecuteMsg::Create(m) => state.execute_create(block, sender, funds, m, token_owner),
        ExecuteMsg::Finish(m) => state.execute_finish(block, sender, funds, m, token_owner),
        ExecuteMsg::Cancel(m) => state.execute_cancel(sender, funds, m),
        ExecuteMsg::Update(m) => state.execute_update(sender, funds, m),
        ExecuteMsg::UpdateConfig { config } => state.execute_update_config(sender, config),
    }
}

} // verus!
