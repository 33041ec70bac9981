//! The laws of the lifecycle engine, stated on their own.
//!
//! Each proof here restates a guarantee of the marketplace over the
//! operation predicates of [`crate::execute`], so a reader finds the rules
//! spelled out rather than folded into the operation contracts. The
//! pagination laws live beside the pagination model in [`crate::paging`];
//! the escrow ledger law is the `escrow_ok` clause every lifecycle
//! operation carries.

use vstd::prelude::*;
use crate::error::ContractError;
use crate::execute::cancel_error;
use crate::execute::cancel_post;
use crate::execute::create_post;
use crate::execute::finish_error;
use crate::execute::finish_post;
use crate::execute::keep_pred;
use crate::execute::refund_pred;
use crate::execute::update_error;
use crate::execute::update_post;
use crate::msg::CancelMsg;
use crate::msg::Response;
use crate::msg::SwapMsg;
use crate::msg::UpdateMsg;
use crate::state::BlockInfo;
use crate::state::Coin;
use crate::state::Marketplace;
use crate::state::get_swap;
use crate::state::has_id;
use crate::state::native_attached;
use crate::state::idx_of;
use crate::state::offer_weight_fn;

verus! {

/// Exact payment at Offer creation: a native Offer whose attached native
/// amount differs from the price — above or below — is rejected as an
/// invalid payment, and one whose attached amount equals the price is
/// accepted, whenever nothing else stands in the way.
pub proof fn law_create_native_offer_exact_payment(
    pre: Marketplace,
    post: Marketplace,
    block: BlockInfo,
    sender: String,
    funds: Seq<Coin>,
    msg: SwapMsg,
    token_owner: Option<String>,
    r: Result<Response, ContractError>,
)
    requires
        create_post(pre, post, block, sender, funds, msg, token_owner, r),
        msg.swap_type is Offer,
        msg.payment_token is None,
        !msg.expires.spec_is_expired(block),
        !has_id(pre.swaps@, msg.id@),
    ensures
        r is Ok <==> native_attached(funds) == msg.price as int,
        native_attached(funds) != msg.price as int ==> r == Result::<
            Response,
            ContractError,
        >::Err(ContractError::InvalidPayment) && post == pre,
{
}

/// Authorization for Update: by anyone but the creator it fails as
/// unauthorized and changes nothing, whatever the other fields hold.
pub proof fn law_update_requires_creator(
    pre: Marketplace,
    post: Marketplace,
    sender: String,
    funds: Seq<Coin>,
    msg: UpdateMsg,
    r: Result<Response, ContractError>,
)
    requires
        update_post(pre, post, sender, funds, msg, r),
        has_id(pre.swaps@, msg.id@),
        get_swap(pre.swaps@, msg.id@).creator@ != sender@,
    ensures
        r == Result::<Response, ContractError>::Err(ContractError::Unauthorized),
        post == pre,
{
}

/// Authorization for Cancel: by anyone but the creator it fails as
/// unauthorized and changes nothing.
pub proof fn law_cancel_requires_creator(
    pre: Marketplace,
    post: Marketplace,
    sender: String,
    funds: Seq<Coin>,
    msg: CancelMsg,
    r: Result<Response, ContractError>,
)
    requires
        cancel_post(pre, post, sender, funds, msg, r),
        has_id(pre.swaps@, msg.id@),
        get_swap(pre.swaps@, msg.id@).creator@ != sender@,
    ensures
        r == Result::<Response, ContractError>::Err(ContractError::Unauthorized),
        post == pre,
{
}

/// A successful Cancel removes the record: its id resolves to nothing
/// afterwards.
pub proof fn law_cancel_removes_record(
    pre: Marketplace,
    post: Marketplace,
    sender: String,
    funds: Seq<Coin>,
    msg: CancelMsg,
    r: Result<Response, ContractError>,
)
    requires
        pre.wf(),
        cancel_post(pre, post, sender, funds, msg, r),
        r is Ok,
    ensures
        !has_id(post.swaps@, msg.id@),
{
    let idx = idx_of(pre.swaps@, msg.id@);
    assert(has_id(pre.swaps@, msg.id@)) by {
        if cancel_error(pre, sender, msg) is Some {
            assert(!(r is Ok));
        }
    }
    assert forall|j: int| 0 <= j < post.swaps@.len() implies (#[trigger] post.swaps@[j]).id@
        != msg.id@ by {
        let k = if j < idx {
            j
        } else {
            j + 1
        };
        assert(post.swaps@[j] == pre.swaps@[k]);
        if pre.swaps@[k].id@ == msg.id@ {
            crate::state::lemma_sorted_unique(pre.swaps@, k, idx);
        }
    }
}

/// A successful Finish removes the record: its id resolves to nothing
/// afterwards.
pub proof fn law_finish_removes_record(
    pre: Marketplace,
    post: Marketplace,
    block: BlockInfo,
    sender: String,
    funds: Seq<Coin>,
    id: Seq<char>,
    token_owner: Option<String>,
    r: Result<Response, ContractError>,
)
    requires
        pre.wf(),
        finish_post(pre, post, block, sender, funds, id, token_owner, r),
        r is Ok,
    ensures
        !has_id(post.swaps@, id),
{
    let swap = get_swap(pre.swaps@, id);
    assert(has_id(pre.swaps@, id)) by {
        if finish_error(pre, block, sender, funds, id, token_owner) is Some {
            assert(!(r is Ok));
        }
    }
    let idx = idx_of(pre.swaps@, id);
    let kp = keep_pred(swap.token_id@);
    assert forall|j: int| 0 <= j < post.swaps@.len() implies (#[trigger] post.swaps@[j]).id@
        != id by {
        if post.swaps@[j].id@ == id {
            let e = post.swaps@[j];
            assert(pre.swaps@.filter(kp).contains(e)) by {
                assert(pre.swaps@.filter(kp)[j] == e);
            }
            pre.swaps@.lemma_filter_contains_rev(kp, e);
            let k = choose|k: int| 0 <= k < pre.swaps@.len() && pre.swaps@[k] == e;
            crate::state::lemma_sorted_unique(pre.swaps@, k, idx);
            pre.swaps@.lemma_filter_pred(kp, j);
        }
    }
}


/// At-least payment for finishing a native Sale: attached native funds
/// under the price fail as unauthorized; funds reaching the price succeed
/// (under the escrow invariant), and the payment instruction hands the
/// creator everything the finisher attached, surplus included.
pub proof fn law_finish_native_sale_at_least_payment(
    pre: Marketplace,
    post: Marketplace,
    block: BlockInfo,
    sender: String,
    funds: Seq<Coin>,
    id: Seq<char>,
    token_owner: Option<String>,
    r: Result<Response, ContractError>,
)
    requires
        finish_post(pre, post, block, sender, funds, id, token_owner, r),
        pre.escrow_ok(),
        has_id(pre.swaps@, id),
        get_swap(pre.swaps@, id).payment_token is None,
        get_swap(pre.swaps@, id).swap_type is Sale,
        !get_swap(pre.swaps@, id).expires.spec_is_expired(block),
    ensures
        r is Ok <==> crate::execute::native_payment_ok(funds, get_swap(pre.swaps@, id).price),
        !crate::execute::native_payment_ok(funds, get_swap(pre.swaps@, id).price) ==> r
            == Result::<Response, ContractError>::Err(ContractError::Unauthorized) && post == pre,
        r is Ok ==> crate::execute::is_finish_payment(
            r->Ok_0.messages@[1],
            get_swap(pre.swaps@, id),
            sender@,
            get_swap(pre.swaps@, id).creator@,
            funds,
        ),
{
    let swap = get_swap(pre.swaps@, id);
    law_escrow_covers_refunds(pre, swap.token_id@, id);
}

/// Idempotent non-existence: once a swap's id resolves to nothing — as
/// after a Finish or a Cancel — a further Update, Cancel or Finish on that
/// id fails as not found and changes nothing.
pub proof fn law_closed_swap_stays_closed(
    state: Marketplace,
    block: BlockInfo,
    sender: String,
    funds: Seq<Coin>,
    id: Seq<char>,
    token_owner: Option<String>,
)
    requires
        !has_id(state.swaps@, id),
    ensures
        forall|msg: UpdateMsg|
            msg.id@ == id ==> update_error(state, sender, funds, msg) == Some(
                ContractError::NotFound,
            ),
        forall|msg: CancelMsg|
            msg.id@ == id ==> cancel_error(state, sender, msg) == Some(ContractError::NotFound),
        finish_error(state, block, sender, funds, id, token_owner) == Some(
            ContractError::NotFound,
        ),
{
}

/// The escrow ledger never exceeds the balance: under the escrow invariant
/// the refunds any Finish owes are covered, because each refunded offer's
/// escrow is part of the sum the balance equals.
pub proof fn law_escrow_covers_refunds(state: Marketplace, token: Seq<char>, fid: Seq<char>)
    requires
        state.escrow_ok(),
    ensures
        crate::execute::refund_sum(state.swaps@, token, fid) <= state.balance as int,
{
    let w = offer_weight_fn();
    let p = refund_pred(token, fid);
    assert(forall|e: crate::state::SwapEntry| #[trigger] w(e) >= 0);
    crate::sums::lemma_seq_sum_partition(state.swaps@, w, p);
    crate::sums::lemma_seq_sum_nonneg(
        state.swaps@.filter(|x: crate::state::SwapEntry| !p(x)),
        w,
    );
}

} // verus!
