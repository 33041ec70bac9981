//! Shared validation helpers.

use vstd::prelude::*;
use vstd::utf8::encode_utf8;
use crate::error::ContractError;
use crate::keys::bytes_lt;
use crate::msg::Response;
use crate::state::Coin;

verus! {

/// The attached coins satisfy `required`: nothing is required, or some
/// attached coin of the required denomination reaches the required amount.
pub open spec fn payment_ok(sent: Seq<Coin>, required: Option<Coin>) -> bool {
    match required {
        Some(req) => req.amount == 0 || exists|i: int|
            0 <= i < sent.len() && (#[trigger] sent[i]).denom@ == req.denom@
                && sent[i].amount >= req.amount,
        None => true,
    }
}

/// Checks that the caller attached sufficient funds of the required
/// denomination; the policy for finishing a native sale, where overpayment
/// is accepted.
pub fn check_sent_required_payment(sent: &Vec<Coin>, required: Option<Coin>) -> (r: Result<
    (),
    ContractError,
>)
    ensures
        r is Ok <==> payment_ok(sent@, required),
        r is Err ==> r->Err_0 == ContractError::Unauthorized,
{
    match &required {
        Some(req) => {
            if req.amount == 0 {
                return Ok(());
            }
            let n = sent.len();
            let mut i: usize = 0;
            while i < n
                invariant
                    0 <= i <= n,
                    n == sent@.len(),
                    forall|k: int|
                        0 <= k < i ==> !((#[trigger] sent@[k]).denom@ == req.denom@
                            && sent@[k].amount >= req.amount),
                decreases n - i,
            {
                let c = &sent[i];
                if c.denom == req.denom && c.amount >= req.amount {
                    proof {
                        assert(sent@[i as int].denom@ == req.denom@
                            && sent@[i as int].amount >= req.amount);
                        assert(payment_ok(sent@, required));
                    }
                    return Ok(());
                }
                i = i + 1;
            }
            Err(ContractError::Unauthorized)
        },
        None => Ok(()),
    }
}

/// Whether every identifier in `v` occurs once.
pub open spec fn all_unique(v: Seq<String>) -> bool {
    forall|i: int, j: int| 0 <= i < j < v.len() ==> (#[trigger] v[i])@ != (#[trigger] v[j])@
}

/// Decides [`all_unique`].
pub fn has_unique_elements(v: &Vec<String>) -> (r: bool)
    ensures
        r == all_unique(v@),
{
    let n = v.len();
    let mut i: usize = 0;
    while i < n
        invariant
            0 <= i <= n,
            n == v@.len(),
            forall|a: int, b: int| 0 <= a < i && a < b < n ==> (#[trigger] v@[a])@ != (#[trigger] v@[b])@,
        decreases n - i,
    {
        let mut j: usize = i + 1;
        while j < n
            invariant
                i < j <= n,
                n == v@.len(),
                forall|b: int| i < b < j ==> v@[i as int]@ != (#[trigger] v@[b])@,
            decreases n - j,
        {
            if v[i] == v[j] {
                proof {
                    assert(v@[i as int]@ == v@[j as int]@);
                }
                return false;
            }
            j = j + 1;
        }
        i = i + 1;
    }
    true
}

/// The host's callback after a sub-message ran: pass success through,
/// refuse failure.
pub fn reply(success: bool) -> (r: Result<Response, ContractError>)
    ensures
        success <==> r is Ok,
        r matches Ok(resp) ==> resp.attributes@.len() == 0 && resp.messages@.len() == 0,
        r matches Err(e) ==> e == ContractError::Unauthorized,
{
    if success {
        Ok(Response { attributes: Vec::new(), messages: Vec::new() })
    } else {
        Err(ContractError::Unauthorized)
    }
}

/// Version bookkeeping: a migration is allowed only onto the same contract
/// name and a strictly newer version string (byte-lexicographic order).
pub fn migrate_check(
    stored_contract: &String,
    stored_version: &String,
    contract: &String,
    version: &String,
) -> (r: Result<(), ContractError>)
    ensures
        r is Ok <==> (stored_contract@ == contract@ && bytes_lt(
            encode_utf8(stored_version@),
            encode_utf8(version@),
        )),
        r is Err ==> r->Err_0 == ContractError::InvalidInput,
{
    if !(*stored_contract == *contract) {
        return Err(ContractError::InvalidInput);
    }
    if !crate::keys::str_key_lt(stored_version, version) {
        return Err(ContractError::InvalidInput);
    }
    Ok(())
}

} // verus!
