//! The contract state: configuration, the swap record store, and the
//! contract's own native-coin balance.
//!
//! The store is a vector of records kept in strictly ascending key order, so
//! every scan sees the records in the same order the queries promise. The
//! balance field models the coins the chain's bank module holds for this
//! contract: operations credit the attached native coins and debit the native
//! send instructions they emit.

use vstd::prelude::*;
use crate::error::ContractError;
use crate::keys::key_lt;
use crate::keys::lemma_key_lt_ne;
use crate::sums::seq_sum;

verus! {

/// The denomination of the chain's native coin.
pub open spec fn spec_native_denom() -> Seq<char> {
    "aconst"@
}

/// The native denomination as an owned string.
pub fn native_denom() -> (r: String)
    ensures
        r@ == spec_native_denom(),
{
    "aconst".to_owned()
}

/// The chain position at which an operation runs.
#[derive(Clone, Copy, Debug, PartialEq, Eq, Structural)]
pub struct BlockInfo {
    pub height: u64,
    /// Block time in nanoseconds since the epoch.
    pub time: u64,
}

/// A condition after which a swap can no longer be created or finished.
#[derive(Clone, Copy, Debug, PartialEq, Eq, Structural)]
pub enum Expiration {
    AtHeight(u64),
    AtTime(u64),
    Never,
}

impl Expiration {
    /// Whether the condition has elapsed at `block`.
    pub open spec fn spec_is_expired(self, block: BlockInfo) -> bool {
        match self {
            Expiration::AtHeight(h) => block.height >= h,
            Expiration::AtTime(t) => block.time >= t,
            Expiration::Never => false,
        }
    }

    pub fn is_expired(&self, block: &BlockInfo) -> (r: bool)
        ensures
            r == self.spec_is_expired(*block),
    {
        match self {
            Expiration::AtHeight(h) => block.height >= *h,
            Expiration::AtTime(t) => block.time >= *t,
            Expiration::Never => false,
        }
    }
}

/// Whether a swap is an ask posted by the NFT's owner or a bid posted by a
/// would-be buyer.
#[derive(Clone, Copy, Debug, PartialEq, Eq, Structural)]
pub enum SwapType {
    Sale,
    Offer,
}

/// An amount of one denomination, as attached to a request or emitted in a
/// payment instruction.
#[derive(Debug, PartialEq)]
pub struct Coin {
    pub denom: String,
    pub amount: u128,
}

/// The singleton configuration: the admin and the bound NFT collection.
#[derive(Debug, PartialEq)]
pub struct Config {
    pub admin: String,
    pub cw721: String,
}

/// One swap record. `payment_token` names a fungible-token contract; `None`
/// means the price is in the native coin.
#[derive(Debug, PartialEq)]
pub struct CW721Swap {
    pub creator: String,
    pub nft_contract: String,
    pub payment_token: Option<String>,
    pub token_id: String,
    pub expires: Expiration,
    pub price: u128,
    pub swap_type: SwapType,
}

impl Clone for Coin {
    fn clone(&self) -> (res: Self)
        ensures
            res == *self,
    {
        Coin { denom: self.denom.clone(), amount: self.amount }
    }
}

impl Clone for Config {
    fn clone(&self) -> (res: Self)
        ensures
            res == *self,
    {
        Config { admin: self.admin.clone(), cw721: self.cw721.clone() }
    }
}

impl Clone for CW721Swap {
    fn clone(&self) -> (res: Self)
        ensures
            res == *self,
    {
        CW721Swap {
            creator: self.creator.clone(),
            nft_contract: self.nft_contract.clone(),
            payment_token: match &self.payment_token {
                Some(t) => Some(t.clone()),
                None => None,
            },
            token_id: self.token_id.clone(),
            expires: self.expires,
            price: self.price,
            swap_type: self.swap_type,
        }
    }
}

impl CW721Swap {
    pub fn is_expired(&self, block: &BlockInfo) -> (r: bool)
        ensures
            r == self.expires.spec_is_expired(*block),
    {
        self.expires.is_expired(block)
    }
}

/// A stored swap under its identifier.
#[derive(Debug, PartialEq)]
pub struct SwapEntry {
    pub id: String,
    pub swap: CW721Swap,
}

impl Clone for SwapEntry {
    fn clone(&self) -> (res: Self)
        ensures
            res == *self,
    {
        SwapEntry { id: self.id.clone(), swap: self.swap.clone() }
    }
}

/// A swap that escrows native coins while it is open.
pub open spec fn is_native_offer(s: CW721Swap) -> bool {
    s.payment_token is None && s.swap_type is Offer
}

/// The escrow weight of one stored record.
pub open spec fn offer_weight(e: SwapEntry) -> int {
    if is_native_offer(e.swap) {
        e.swap.price as int
    } else {
        0
    }
}

/// The escrow weight as a function value, the single term every sum uses.
pub open spec fn offer_weight_fn() -> spec_fn(SwapEntry) -> int {
    |e: SwapEntry| offer_weight(e)
}

/// The native coins escrowed by the stored records.
pub open spec fn native_offer_sum(s: Seq<SwapEntry>) -> int {
    seq_sum(s, offer_weight_fn())
}

/// The native weight of one attached coin.
pub open spec fn native_weight(c: Coin) -> int {
    if c.denom@ == spec_native_denom() {
        c.amount as int
    } else {
        0
    }
}

/// The native weight as a function value, the single term every sum uses.
pub open spec fn native_weight_fn() -> spec_fn(Coin) -> int {
    |c: Coin| native_weight(c)
}

/// The native amount attached to a request.
pub open spec fn native_attached(funds: Seq<Coin>) -> int {
    seq_sum(funds, native_weight_fn())
}

/// The records are in strictly ascending key order; in particular no
/// identifier occurs twice.
pub open spec fn entries_sorted(s: Seq<SwapEntry>) -> bool {
    forall|i: int, j: int|
        0 <= i < j < s.len() ==> key_lt(#[trigger] s[i].id@, #[trigger] s[j].id@)
}

/// Some record is stored under `id`.
pub open spec fn has_id(s: Seq<SwapEntry>, id: Seq<char>) -> bool {
    exists|i: int| 0 <= i < s.len() && (#[trigger] s[i].id@) == id
}

/// The position of the record stored under `id`; meaningful under
/// [`has_id`], unique under [`entries_sorted`].
pub open spec fn idx_of(s: Seq<SwapEntry>, id: Seq<char>) -> int {
    choose|i: int| 0 <= i < s.len() && (#[trigger] s[i].id@) == id
}

/// The record stored under `id`; meaningful under [`has_id`].
pub open spec fn get_swap(s: Seq<SwapEntry>, id: Seq<char>) -> CW721Swap {
    s[idx_of(s, id)].swap
}

/// Where a new record with key `id` belongs in the ascending order: the
/// first position whose key is above `id`.
pub open spec fn sorted_pos(s: Seq<SwapEntry>, id: Seq<char>) -> int
    decreases s.len(),
{
    if s.len() == 0 {
        0
    } else if key_lt(id, s[0].id@) {
        0
    } else {
        1 + sorted_pos(s.drop_first(), id)
    }
}

/// In a sorted store, positions are ordered as their keys.
pub proof fn lemma_sorted_unique(s: Seq<SwapEntry>, i: int, j: int)
    requires
        entries_sorted(s),
        0 <= i < s.len(),
        0 <= j < s.len(),
        s[i].id@ == s[j].id@,
    ensures
        i == j,
{
    if i < j {
        lemma_key_lt_ne(s[i].id@, s[j].id@);
    }
    if j < i {
        lemma_key_lt_ne(s[j].id@, s[i].id@);
    }
}


/// Summing is compatible with inserting one record.
pub proof fn lemma_native_offer_sum_insert(s: Seq<SwapEntry>, i: int, e: SwapEntry)
    requires
        0 <= i <= s.len(),
    ensures
        native_offer_sum(s.insert(i, e)) == native_offer_sum(s) + offer_weight(e),
{
    let w = offer_weight_fn();
    assert(s.insert(i, e) =~= s.take(i) + seq![e] + s.skip(i));
    crate::sums::lemma_seq_sum_concat(s.take(i) + seq![e], s.skip(i), w);
    crate::sums::lemma_seq_sum_concat(s.take(i), seq![e], w);
    crate::sums::lemma_seq_sum_singleton(e, w);
    assert(s =~= s.take(i) + s.skip(i));
    crate::sums::lemma_seq_sum_concat(s.take(i), s.skip(i), w);
}

/// Summing is compatible with overwriting one record.
pub proof fn lemma_native_offer_sum_update(s: Seq<SwapEntry>, i: int, e: SwapEntry)
    requires
        0 <= i < s.len(),
    ensures
        native_offer_sum(s.update(i, e)) == native_offer_sum(s) - offer_weight(s[i])
            + offer_weight(e),
{
    let w = offer_weight_fn();
    assert(s.update(i, e) =~= s.take(i) + seq![e] + s.skip(i + 1));
    assert(s =~= s.take(i) + seq![s[i]] + s.skip(i + 1));
    crate::sums::lemma_seq_sum_concat(s.take(i) + seq![e], s.skip(i + 1), w);
    crate::sums::lemma_seq_sum_concat(s.take(i), seq![e], w);
    crate::sums::lemma_seq_sum_concat(s.take(i) + seq![s[i]], s.skip(i + 1), w);
    crate::sums::lemma_seq_sum_concat(s.take(i), seq![s[i]], w);
    crate::sums::lemma_seq_sum_singleton(e, w);
    crate::sums::lemma_seq_sum_singleton(s[i], w);
}

/// Summing is compatible with removing one record.
pub proof fn lemma_native_offer_sum_remove(s: Seq<SwapEntry>, i: int)
    requires
        0 <= i < s.len(),
    ensures
        native_offer_sum(s.remove(i)) == native_offer_sum(s) - offer_weight(s[i]),
{
    let w = offer_weight_fn();
    assert(s.remove(i) =~= s.take(i) + s.skip(i + 1));
    assert(s =~= s.take(i) + seq![s[i]] + s.skip(i + 1));
    crate::sums::lemma_seq_sum_concat(s.take(i), s.skip(i + 1), w);
    crate::sums::lemma_seq_sum_concat(s.take(i) + seq![s[i]], s.skip(i + 1), w);
    crate::sums::lemma_seq_sum_concat(s.take(i), seq![s[i]], w);
    crate::sums::lemma_seq_sum_singleton(s[i], w);
}

/// A filter of a sorted store is sorted.
pub proof fn lemma_filter_sorted(s: Seq<SwapEntry>, p: spec_fn(SwapEntry) -> bool)
    requires
        entries_sorted(s),
    ensures
        entries_sorted(s.filter(p)),
    decreases s.len(),
{
    reveal(Seq::filter);
    if s.len() > 0 {
        let dl = s.drop_last();
        assert(entries_sorted(dl));
        lemma_filter_sorted(dl, p);
        let f = dl.filter(p);
        if p(s.last()) {
            assert forall|i: int, j: int|
                0 <= i < j < f.push(s.last()).len() implies key_lt(
                #[trigger] f.push(s.last())[i].id@,
                #[trigger] f.push(s.last())[j].id@,
            ) by {
                if j < f.len() {
                    assert(key_lt(f[i].id@, f[j].id@));
                } else {
                    assert(f.push(s.last())[j] == s.last());
                    dl.lemma_filter_contains_rev(p, f[i]);
                    let k = choose|k: int| 0 <= k < dl.len() && dl[k] == f[i];
                    assert(key_lt(s[k].id@, s.last().id@));
                }
            }
        }
    }
}

/// Adds up the native coins in an attached fund list.
pub fn native_attached_amount(funds: &Vec<Coin>) -> (r: u128)
    requires
        native_attached(funds@) <= u128::MAX as int,
    ensures
        r as int == native_attached(funds@),
{
    let w = Ghost(native_weight_fn());
    proof {
        assert(forall|c: Coin| #[trigger] w@(c) >= 0);
    }
    let dnm = native_denom();
    let n = funds.len();
    let mut total: u128 = 0;
    let mut i: usize = 0;
    proof {
        assert(funds@.take(0) =~= Seq::<Coin>::empty());
    }
    while i < n
        invariant
            0 <= i <= n,
            total as int == native_attached(funds@.take(i as int)),
        decreases n - i,
    {
        proof {
            assert(funds@.take(i + 1).drop_last() =~= funds@.take(i as int));
            assert(funds@.take(i + 1).last() == funds@[i as int]);
            crate::sums::lemma_seq_sum_take(funds@, w@, i + 1);
        }
        let c = &funds[i];
        if c.denom == dnm {
            total = total + c.amount;
        }
        i = i + 1;
    }
    proof {
        assert(funds@.take(n as int) =~= funds@);
    }
    total
}


/// A prefix's filtered escrow sum is at most the whole sequence's.
pub proof fn lemma_filtered_sum_prefix(
    s: Seq<SwapEntry>,
    p: spec_fn(SwapEntry) -> bool,
    j: int,
)
    requires
        0 <= j <= s.len(),
    ensures
        native_offer_sum(s.take(j).filter(p)) <= native_offer_sum(s.filter(p)),
{
    let w = offer_weight_fn();
    assert(forall|e: SwapEntry| #[trigger] w(e) >= 0);
    assert(s =~= s.take(j) + s.skip(j));
    Seq::filter_distributes_over_add(s.take(j), s.skip(j), p);
    crate::sums::lemma_seq_sum_concat(s.take(j).filter(p), s.skip(j).filter(p), w);
    crate::sums::lemma_seq_sum_nonneg(s.skip(j).filter(p), w);
}

/// The whole contract state.
pub struct Marketplace {
    pub config: Config,
    pub swaps: Vec<SwapEntry>,
    /// The native coins the chain's bank module holds for this contract.
    pub balance: u128,
}


impl Clone for Marketplace {
    fn clone(&self) -> (res: Self)
        ensures
            res.config == self.config,
            res.swaps@ == self.swaps@,
            res.balance == self.balance,
    {
        let n = self.swaps.len();
        let mut swaps: Vec<SwapEntry> = Vec::new();
        let mut i: usize = 0;
        while i < n
            invariant
                0 <= i <= n,
                swaps@ == self.swaps@.take(i as int),
            decreases n - i,
        {
            proof {
                assert(self.swaps@.take(i + 1) =~= self.swaps@.take(i as int).push(
                    self.swaps@[i as int],
                ));
            }
            swaps.push(self.swaps[i].clone());
            i = i + 1;
        }
        proof {
            assert(self.swaps@.take(n as int) =~= self.swaps@);
        }
        let res = Marketplace { config: self.config.clone(), swaps, balance: self.balance };
        proof {
            assert(res.swaps@ =~= self.swaps@);
        }
        res
    }
}

impl Marketplace {
    /// Structural well-formedness: the store is strictly sorted by key.
    pub open spec fn wf(self) -> bool {
        entries_sorted(self.swaps@)
    }

    /// The escrow invariant: the contract's native balance is exactly the
    /// sum of the prices of the open native-coin offers. It holds as long as
    /// no coins reach the contract outside the lifecycle operations.
    pub open spec fn escrow_ok(self) -> bool {
        self.balance as int == native_offer_sum(self.swaps@)
    }


    /// The position where a fresh key belongs: after every smaller key,
    /// before every larger one.
    fn find_insert_pos(&self, id: &String) -> (pos: usize)
        requires
            self.wf(),
            !has_id(self.swaps@, id@),
        ensures
            pos <= self.swaps@.len(),
            forall|k: int| 0 <= k < pos ==> key_lt(#[trigger] self.swaps@[k].id@, id@),
            forall|k: int|
                pos <= k < self.swaps@.len() ==> key_lt(id@, #[trigger] self.swaps@[k].id@),
    {
        let n = self.swaps.len();
        let mut i: usize = 0;
        while i < n
            invariant
                0 <= i <= n,
                forall|k: int| 0 <= k < i ==> key_lt(#[trigger] self.swaps@[k].id@, id@),
            decreases n - i,
        {
            let e = &self.swaps[i];
            if crate::keys::str_key_lt(id, &e.id) {
                proof {
                    assert forall|k: int|
                        i <= k < self.swaps@.len() implies key_lt(
                        id@,
                        #[trigger] self.swaps@[k].id@,
                    ) by {
                        if k > i {
                            crate::keys::lemma_key_lt_trans(
                                id@,
                                self.swaps@[i as int].id@,
                                self.swaps@[k].id@,
                            );
                        }
                    }
                }
                return i;
            }
            proof {
                assert(self.swaps@[i as int].id@ != id@);
                crate::keys::lemma_key_connex(id@, self.swaps@[i as int].id@);
            }
            i = i + 1;
        }
        n
    }

    /// Inserts a record under a fresh key, keeping the ascending order.
    pub fn insert_sorted(&mut self, entry: SwapEntry)
        requires
            old(self).wf(),
            !has_id(old(self).swaps@, entry.id@),
        ensures
            final(self).wf(),
            final(self).config == old(self).config,
            final(self).balance == old(self).balance,
            exists|i: int|
                0 <= i <= old(self).swaps@.len() && final(self).swaps@ == old(
                    self,
                ).swaps@.insert(i, entry),
            native_offer_sum(final(self).swaps@) == native_offer_sum(old(self).swaps@)
                + offer_weight(entry),
            has_id(final(self).swaps@, entry.id@),
            get_swap(final(self).swaps@, entry.id@) == entry.swap,
    {
        let pos = self.find_insert_pos(&entry.id);
        let ghost pre = self.swaps@;
        let ghost eid = entry.id@;
        let ghost eswap = entry.swap;
        self.swaps.insert(pos, entry);
        proof {
            let post = self.swaps@;
            assert(post == pre.insert(pos as int, entry));
            assert(post =~= pre.take(pos as int) + seq![entry] + pre.skip(pos as int));
            assert forall|i: int, j: int| 0 <= i < j < post.len() implies key_lt(
                #[trigger] post[i].id@,
                #[trigger] post[j].id@,
            ) by {
                if i < pos && j == pos {
                    assert(post[i] == pre[i]);
                } else if i == pos && j > pos {
                    assert(post[j] == pre[j - 1]);
                } else if i < pos && j > pos {
                    assert(post[i] == pre[i] && post[j] == pre[j - 1]);
                    if j - 1 == pos as int {
                        assert(key_lt(pre[i].id@, eid));
                    } else {
                        assert(key_lt(pre[i].id@, pre[j - 1].id@));
                    }
                } else if j < pos {
                    assert(post[i] == pre[i] && post[j] == pre[j]);
                } else {
                    assert(i > pos && j > pos);
                    assert(post[i] == pre[i - 1] && post[j] == pre[j - 1]);
                }
            }
            lemma_native_offer_sum_insert(pre, pos as int, entry);
            assert(post[pos as int].id@ == eid);
            assert(has_id(post, eid));
            lemma_sorted_unique(post, idx_of(post, eid), pos as int);
        }
    }


    /// Checks that the contract's own balance can cover a required native
    /// payout; any other denomination cannot be covered.
    pub fn check_contract_balance_ok(&self, required: &Coin) -> (r: Result<(), ContractError>)
        ensures
            r is Ok <==> (required.denom@ == spec_native_denom() && required.amount
                <= self.balance),
            r is Err ==> r->Err_0 == ContractError::InsufficientBalance,
    {
        let dnm = native_denom();
        if !(required.denom == dnm) {
            return Err(ContractError::InsufficientBalance);
        }
        if self.balance < required.amount {
            return Err(ContractError::InsufficientBalance);
        }
        Ok(())
    }

    /// Finds the position of the record stored under `id`.
    pub fn find_index(&self, id: &String) -> (r: Option<usize>)
        ensures
            match r {
                Some(i) => i < self.swaps@.len() && self.swaps@[i as int].id@ == id@,
                None => !has_id(self.swaps@, id@),
            },
    {
        let n = self.swaps.len();
        let mut i: usize = 0;
        while i < n
            invariant
                0 <= i <= n,
                n == self.swaps@.len(),
                forall|k: int| 0 <= k < i ==> (#[trigger] self.swaps@[k].id@) != id@,
            decreases n - i,
        {
            let e = &self.swaps[i];
            if e.id == *id {
                return Some(i);
            }
            i = i + 1;
        }
        None
    }
}

} // verus!
