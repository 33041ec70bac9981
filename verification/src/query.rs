//! The query engine: filtered, paginated read-only projections over the
//! swap store.
//!
//! Every listing query scans the whole store in key order, keeps the records
//! one filter accepts, and serves one page of the result. Two pagination
//! idioms coexist deliberately: the id listing resumes strictly after a
//! cursor, every other listing takes a 0-based page number with a limit
//! clamped to `[10, 100]` (default 10).

use vstd::prelude::*;
use crate::error::ContractError;
use crate::keys::key_lt;
use crate::msg::DetailsResponse;
use crate::msg::ListResponse;
use crate::msg::QueryAnswer;
use crate::msg::QueryMsg;
use crate::paging::page_of;
use crate::state::CW721Swap;
use crate::state::Marketplace;
use crate::state::SwapEntry;
use crate::state::SwapType;
use crate::state::get_swap;
use crate::state::has_id;
use crate::state::idx_of;

verus! {

/// One filter dimension over the stored records; every variant also binds
/// the result to the configured NFT collection.
pub enum SwapFilter {
    /// All records of one type.
    All(SwapType),
    /// The records for one NFT; both types when `side` is `None`.
    OfToken { token_id: String, side: Option<SwapType> },
    /// The records created by one address.
    ByCreator { address: String, side: SwapType },
    /// The records in an inclusive price range; `max` unbounded when `None`.
    ByPrice { min: u128, max: Option<u128>, side: SwapType },
    /// The records of one payment denomination; `None` means the native coin.
    ByDenom { payment_token: Option<String>, side: SwapType },
    /// Fungible-token records (`cw20` true) or native-coin records.
    ByPaymentType { cw20: bool, side: SwapType },
}

impl SwapFilter {
    /// Whether a record passes the filter for the collection `cw721`.
    pub open spec fn spec_matches(self, swap: CW721Swap, cw721: Seq<char>) -> bool {
        swap.nft_contract@ == cw721 && match self {
            SwapFilter::All(side) => swap.swap_type == side,
            SwapFilter::OfToken { token_id, side } => swap.token_id@ == token_id@ && match side {
                Some(t) => swap.swap_type == t,
                None => true,
            },
            SwapFilter::ByCreator { address, side } => swap.creator@ == address@
                && swap.swap_type == side,
            SwapFilter::ByPrice { min, max, side } => min <= swap.price && (match max {
                Some(m) => swap.price <= m,
                None => true,
            }) && swap.swap_type == side,
            SwapFilter::ByDenom { payment_token, side } => (match payment_token {
                Some(t) => swap.payment_token matches Some(pt) && pt@ == t@,
                None => swap.payment_token is None,
            }) && swap.swap_type == side,
            SwapFilter::ByPaymentType { cw20, side } => (cw20 <==> swap.payment_token is Some)
                && swap.swap_type == side,
        }
    }

    /// Decides [`SwapFilter::spec_matches`].
    fn matches(&self, swap: &CW721Swap, cw721: &String) -> (r: bool)
        ensures
            r == self.spec_matches(*swap, cw721@),
    {
        if !(swap.nft_contract == *cw721) {
            return false;
        }
        match self {
            SwapFilter::All(side) => swap.swap_type == *side,
            SwapFilter::OfToken { token_id, side } => swap.token_id == *token_id && (match side {
                Some(t) => swap.swap_type == *t,
                None => true,
            }),
            SwapFilter::ByCreator { address, side } => swap.creator == *address && swap.swap_type
                == *side,
            SwapFilter::ByPrice { min, max, side } => *min <= swap.price && (match max {
                Some(m) => swap.price <= *m,
                None => true,
            }) && swap.swap_type == *side,
            SwapFilter::ByDenom { payment_token, side } => (match payment_token {
                Some(t) => match &swap.payment_token {
                    Some(pt) => *pt == *t,
                    None => false,
                },
                None => swap.payment_token.is_none(),
            }) && swap.swap_type == *side,
            SwapFilter::ByPaymentType { cw20, side } => (*cw20 == swap.payment_token.is_some())
                && swap.swap_type == *side,
        }
    }
}

/// The filter as a predicate on stored entries.
pub open spec fn entry_pred(f: SwapFilter, cw721: Seq<char>) -> spec_fn(SwapEntry) -> bool {
    |e: SwapEntry| f.spec_matches(e.swap, cw721)
}

/// Projects a stored entry to its record.
pub open spec fn swap_of_entry() -> spec_fn(SwapEntry) -> CW721Swap {
    |e: SwapEntry| e.swap
}

/// Projects a stored entry to its identifier.
pub open spec fn id_of_entry() -> spec_fn(SwapEntry) -> String {
    |e: SwapEntry| e.id
}

/// The cursor filter of the id listing: strictly after `start_after`.
pub open spec fn cursor_pred(start_after: Option<String>) -> spec_fn(SwapEntry) -> bool {
    |e: SwapEntry| match start_after {
        Some(c) => key_lt(c@, e.id@),
        None => true,
    }
}

/// The page a query serves when none is asked for.
pub open spec fn spec_page(page: Option<u32>) -> int {
    match page {
        Some(p) => p as int,
        None => 0,
    }
}

/// The effective page size: default 10, clamped to `[10, 100]`.
pub open spec fn spec_limit(limit: Option<u32>) -> int {
    let l = match limit {
        Some(v) => v as int,
        None => 10,
    };
    if l < 10 {
        10
    } else if l > 100 {
        100
    } else {
        l
    }
}

/// The record type a query filters by when none is asked for.
pub open spec fn spec_side(side: Option<SwapType>) -> SwapType {
    match side {
        Some(t) => t,
        None => SwapType::Sale,
    }
}

/// The id listing's effective limit: default 10, capped at 100.
pub open spec fn list_limit(limit: Option<u32>) -> int {
    match limit {
        Some(v) => if v > 100 {
            100 as int
        } else {
            v as int
        },
        None => 10,
    }
}

/// What the id listing returns: the ids strictly after the cursor, in
/// ascending key order, at most `limit` of them.
pub open spec fn list_ids(state: Marketplace, start_after: Option<String>, limit: int) -> Seq<
    String,
> {
    let ids = state.swaps@.filter(cursor_pred(start_after)).map_values(id_of_entry());
    ids.take(
        if limit <= ids.len() {
            limit
        } else {
            ids.len() as int
        },
    )
}

/// What a page-number listing returns: one page of the records the filter
/// accepts.
pub open spec fn swaps_page(
    state: Marketplace,
    f: SwapFilter,
    page: Option<u32>,
    limit: Option<u32>,
) -> Seq<CW721Swap> {
    page_of(state.matching(f), spec_page(page), spec_limit(limit))
}

/// The details answer mirrors one stored record.
pub open spec fn details_match(d: DetailsResponse, swap: CW721Swap) -> bool {
    &&& d.creator == swap.creator
    &&& d.contract == swap.nft_contract
    &&& d.payment_token == swap.payment_token
    &&& d.token_id == swap.token_id
    &&& d.expires == swap.expires
    &&& d.price == swap.price
    &&& d.swap_type == swap.swap_type
}

fn effective_page(page: Option<u32>) -> (p: u32)
    ensures
        p as int == spec_page(page),
{
    match page {
        Some(p) => p,
        None => 0,
    }
}

fn effective_limit(limit: Option<u32>) -> (l: u32)
    ensures
        l as int == spec_limit(limit),
        1 <= l,
{
    let l = match limit {
        Some(v) => v,
        None => 10,
    };
    if l < 10 {
        10
    } else if l > 100 {
        100
    } else {
        l
    }
}

fn effective_side(side: Option<SwapType>) -> (s: SwapType)
    ensures
        s == spec_side(side),
{
    match side {
        Some(t) => t,
        None => SwapType::Sale,
    }
}

/// One page of a result list: the slice `[page*limit, page*limit + limit)`,
/// and an empty page rather than a failure past the end.
fn page_slice(results: &Vec<CW721Swap>, page: u32, limit: u32) -> (r: Vec<CW721Swap>)
    requires
        1 <= limit,
    ensures
        r@ == page_of(results@, page as int, limit as int),
{
    let len = results.len();
    proof {
        assert(page as int * limit as int + limit as int <= u64::MAX as int) by (nonlinear_arith)
            requires
                0 <= page as int <= u32::MAX as int,
                0 <= limit as int <= u32::MAX as int,
        ;
    }
    let start64: u64 = (page as u64) * (limit as u64);
    let end64: u64 = start64 + (limit as u64);
    let ghost s0: int = if page as int * limit as int <= results@.len() {
        page as int * limit as int
    } else {
        results@.len() as int
    };
    let ghost e0: int = if page as int * limit as int + limit as int <= results@.len() {
        page as int * limit as int + limit as int
    } else {
        results@.len() as int
    };
    let mut out: Vec<CW721Swap> = Vec::new();
    let mut i: usize = 0;
    proof {
        assert(results@.subrange(s0, s0) =~= Seq::<CW721Swap>::empty());
    }
    while i < len
        invariant
            0 <= i <= len,
            len == results@.len(),
            out@ == results@.subrange(
                s0,
                if i <= s0 {
                    s0
                } else if i <= e0 {
                    i as int
                } else {
                    e0
                },
            ),
        decreases len - i,
    {
        if (i as u64) >= start64 && (i as u64) < end64 {
            out.push(results[i].clone());
            proof {
                assert(results@.subrange(s0, i + 1) =~= results@.subrange(s0, i as int).push(
                    results@[i as int],
                ));
            }
        } else {
            proof {
                if (i as u64) < start64 {
                    assert(i + 1 <= s0);
                } else {
                    assert(i >= e0);
                    assert(results@.subrange(
                        s0,
                        if i + 1 <= s0 {
                            s0
                        } else if i + 1 <= e0 {
                            i + 1
                        } else {
                            e0
                        },
                    ) =~= results@.subrange(s0, e0));
                }
            }
        }
        i = i + 1;
    }
    out
}

impl Marketplace {
    /// The records the filter accepts, in store order.
    pub open spec fn matching(self, f: SwapFilter) -> Seq<CW721Swap> {
        self.swaps@.filter(entry_pred(f, self.config.cw721@)).map_values(swap_of_entry())
    }

    /// Scans the store and keeps the records the filter accepts.
    fn scan(&self, f: &SwapFilter) -> (r: Vec<CW721Swap>)
        ensures
            r@ == self.matching(*f),
    {
        let ghost p = entry_pred(*f, self.config.cw721@);
        let n = self.swaps.len();
        let mut out: Vec<CW721Swap> = Vec::new();
        let mut i: usize = 0;
        proof {
            assert(self.swaps@.take(0) =~= Seq::<SwapEntry>::empty());
            assert(Seq::<SwapEntry>::empty().filter(p) =~= Seq::<SwapEntry>::empty()) by {
                reveal(Seq::filter);
            }
        }
        while i < n
            invariant
                0 <= i <= n,
                n == self.swaps@.len(),
                out@ == self.swaps@.take(i as int).filter(p).map_values(swap_of_entry()),
            decreases n - i,
        {
            proof {
                assert(self.swaps@.take(i + 1) =~= self.swaps@.take(i as int).push(
                    self.swaps@[i as int],
                ));
                self.swaps@.take(i as int).lemma_filter_push(self.swaps@[i as int], p);
                let base = self.swaps@.take(i as int).filter(p);
                if p(self.swaps@[i as int]) {
                    assert(base.push(self.swaps@[i as int]).map_values(swap_of_entry())
                        =~= base.map_values(swap_of_entry()).push(self.swaps@[i as int].swap));
                }
            }
            let e = &self.swaps[i];
            if f.matches(&e.swap, &self.config.cw721) {
                out.push(e.swap.clone());
            }
            i = i + 1;
        }
        proof {
            assert(self.swaps@.take(n as int) =~= self.swaps@);
        }
        out
    }

    /// One page of the records the filter accepts.
    fn scan_page(&self, f: &SwapFilter, page: Option<u32>, limit: Option<u32>) -> (r: Vec<
        CW721Swap,
    >)
        ensures
            r@ == page_of(self.matching(*f), spec_page(page), spec_limit(limit)),
    {
        let results = self.scan(f);
        let p = effective_page(page);
        let l = effective_limit(limit);
        page_slice(&results, p, l)
    }

    /// The details of one swap; `NotFound` when no record holds the id.
    pub fn query_details(&self, id: &String) -> (r: Result<DetailsResponse, ContractError>)
        requires
            self.wf(),
        ensures
            match r {
                Ok(d) => has_id(self.swaps@, id@) && details_match(d, get_swap(self.swaps@, id@)),
                Err(e) => !has_id(self.swaps@, id@) && e == ContractError::NotFound,
            },
    {
        let idx = match self.find_index(id) {
            None => {
                return Err(ContractError::NotFound);
            },
            Some(i) => i,
        };
        proof {
            crate::state::lemma_sorted_unique(self.swaps@, idx_of(self.swaps@, id@), idx as int);
        }
        let e = &self.swaps[idx];
        let swap = e.swap.clone();
        Ok(
            DetailsResponse {
                creator: swap.creator,
                contract: swap.nft_contract,
                payment_token: swap.payment_token,
                token_id: swap.token_id,
                expires: swap.expires,
                price: swap.price,
                swap_type: swap.swap_type,
            },
        )
    }

    /// The stored ids strictly after the cursor, at most `limit` of them,
    /// in ascending key order.
    pub fn all_swap_ids(&self, start_after: &Option<String>, limit: usize) -> (r: Vec<String>)
        ensures
            r@ == list_ids(*self, *start_after, limit as int),
    {
        let ghost cp = cursor_pred(*start_after);
        let n = self.swaps.len();
        let mut out: Vec<String> = Vec::new();
        let mut i: usize = 0;
        proof {
            assert(self.swaps@.take(0) =~= Seq::<SwapEntry>::empty());
            assert(Seq::<SwapEntry>::empty().filter(cp) =~= Seq::<SwapEntry>::empty()) by {
                reveal(Seq::filter);
            }
        }
        while i < n
            invariant
                0 <= i <= n,
                n == self.swaps@.len(),
                ({
                    let ids = self.swaps@.take(i as int).filter(cp).map_values(id_of_entry());
                    out@ == ids.take(
                        if limit <= ids.len() {
                            limit as int
                        } else {
                            ids.len() as int
                        },
                    )
                }),
                out@.len() <= limit,
            decreases n - i,
        {
            proof {
                assert(self.swaps@.take(i + 1) =~= self.swaps@.take(i as int).push(
                    self.swaps@[i as int],
                ));
                self.swaps@.take(i as int).lemma_filter_push(self.swaps@[i as int], cp);
                let base = self.swaps@.take(i as int).filter(cp);
                if cp(self.swaps@[i as int]) {
                    assert(base.push(self.swaps@[i as int]).map_values(id_of_entry())
                        =~= base.map_values(id_of_entry()).push(self.swaps@[i as int].id));
                }
            }
            let e = &self.swaps[i];
            let after_cursor = match start_after {
                Some(c) => crate::keys::str_key_lt(c, &e.id),
                None => true,
            };
            if after_cursor && out.len() < limit {
                out.push(e.id.clone());
            }
            proof {
                let ids_new = self.swaps@.take(i + 1).filter(cp).map_values(id_of_entry());
                let ids_old = self.swaps@.take(i as int).filter(cp).map_values(id_of_entry());
                if cp(self.swaps@[i as int]) {
                    if ids_old.len() < limit {
                        assert(ids_new.take(
                            if limit <= ids_new.len() {
                                limit as int
                            } else {
                                ids_new.len() as int
                            },
                        ) =~= ids_old.take(
                            if limit <= ids_old.len() {
                                limit as int
                            } else {
                                ids_old.len() as int
                            },
                        ).push(self.swaps@[i as int].id));
                    } else {
                        assert(ids_new.take(limit as int) =~= ids_old.take(limit as int));
                    }
                }
            }
            i = i + 1;
        }
        proof {
            assert(self.swaps@.take(n as int) =~= self.swaps@);
        }
        out
    }

    /// The id listing, cursor-paginated; the limit defaults to 10 and is
    /// capped at 100.
    pub fn query_list(&self, start_after: &Option<String>, limit: Option<u32>) -> (r: ListResponse)
        ensures
            r.swaps@ == list_ids(*self, *start_after, list_limit(limit)),
    {
        let l: u32 = match limit {
            Some(v) => if v > 100 {
                100
            } else {
                v
            },
            None => 10,
        };
        ListResponse { swaps: self.all_swap_ids(start_after, l as usize) }
    }

    /// Counts the stored swaps of one type.
    pub fn query_swap_total(&self, side: SwapType) -> (r: u128)
        ensures
            r as int == self.matching(SwapFilter::All(side)).len(),
    {
        let results = self.scan(&SwapFilter::All(side));
        results.len() as u128
    }

    /// One page of all records of one type.
    pub fn query_swaps(&self, side: SwapType, page: Option<u32>, limit: Option<u32>) -> (r: Vec<
        CW721Swap,
    >)
        ensures
            r@ == swaps_page(*self, SwapFilter::All(side), page, limit),
    {
        self.scan_page(&SwapFilter::All(side), page, limit)
    }

    /// One page of the records for one NFT; both types when `side` is `None`.
    pub fn query_swaps_of_token(
        &self,
        token_id: String,
        side: Option<SwapType>,
        page: Option<u32>,
        limit: Option<u32>,
    ) -> (r: Vec<CW721Swap>)
        ensures
            r@ == swaps_page(*self, SwapFilter::OfToken { token_id, side }, page, limit),
    {
        self.scan_page(&SwapFilter::OfToken { token_id, side }, page, limit)
    }

    /// One page of the records created by one address; the type defaults to
    /// `Sale`.
    pub fn query_swaps_by_creator(
        &self,
        address: String,
        swap_type: Option<SwapType>,
        page: Option<u32>,
        limit: Option<u32>,
    ) -> (r: Vec<CW721Swap>)
        ensures
            r@ == swaps_page(
                *self,
                SwapFilter::ByCreator { address, side: spec_side(swap_type) },
                page,
                limit,
            ),
    {
        let side = effective_side(swap_type);
        self.scan_page(&SwapFilter::ByCreator { address, side }, page, limit)
    }

    /// One page of the records in an inclusive price range; the lower bound
    /// defaults to 0, the type to `Sale`.
    pub fn query_swaps_by_price(
        &self,
        min: Option<u128>,
        max: Option<u128>,
        swap_type: Option<SwapType>,
        page: Option<u32>,
        limit: Option<u32>,
    ) -> (r: Vec<CW721Swap>)
        ensures
            r@ == swaps_page(
                *self,
                SwapFilter::ByPrice {
                    min: match min {
                        Some(m) => m,
                        None => 0,
                    },
                    max,
                    side: spec_side(swap_type),
                },
                page,
                limit,
            ),
    {
        let min_eff: u128 = match min {
            Some(m) => m,
            None => 0,
        };
        let side = effective_side(swap_type);
        self.scan_page(&SwapFilter::ByPrice { min: min_eff, max, side }, page, limit)
    }

    /// One page of the records of one payment denomination; `None` means
    /// the native coin, the type defaults to `Sale`.
    pub fn query_swaps_by_denom(
        &self,
        payment_token: Option<String>,
        swap_type: Option<SwapType>,
        page: Option<u32>,
        limit: Option<u32>,
    ) -> (r: Vec<CW721Swap>)
        ensures
            r@ == swaps_page(
                *self,
                SwapFilter::ByDenom { payment_token, side: spec_side(swap_type) },
                page,
                limit,
            ),
    {
        let side = effective_side(swap_type);
        self.scan_page(&SwapFilter::ByDenom { payment_token, side }, page, limit)
    }

    /// One page of the fungible-token records, or of the native-coin ones;
    /// the type defaults to `Sale`.
    pub fn query_swaps_by_payment_type(
        &self,
        cw20: bool,
        swap_type: Option<SwapType>,
        page: Option<u32>,
        limit: Option<u32>,
    ) -> (r: Vec<CW721Swap>)
        ensures
            r@ == swaps_page(
                *self,
                SwapFilter::ByPaymentType { cw20, side: spec_side(swap_type) },
                page,
                limit,
            ),
    {
        let side = effective_side(swap_type);
        self.scan_page(&SwapFilter::ByPaymentType { cw20, side }, page, limit)
    }
}

/// Dispatches a decoded query to the engine. Only `Details` can fail.
pub fn query(state: &Marketplace, msg: QueryMsg) -> (r: Result<QueryAnswer, ContractError>)
    requires
        state.wf(),
    ensures
        match msg {
            QueryMsg::List { start_after, limit } => r matches Ok(QueryAnswer::List(lr))
                && lr.swaps@ == list_ids(*state, start_after, list_limit(limit)),
            QueryMsg::GetTotal { swap_type } => r matches Ok(QueryAnswer::Total(t)) && t as int
                == state.matching(SwapFilter::All(swap_type)).len(),
            QueryMsg::GetOffers { page, limit } => r matches Ok(QueryAnswer::Swaps(v)) && v@
                == swaps_page(*state, SwapFilter::All(SwapType::Offer), page, limit),
            QueryMsg::GetListings { page, limit } => r matches Ok(QueryAnswer::Swaps(v)) && v@
                == swaps_page(*state, SwapFilter::All(SwapType::Sale), page, limit),
            QueryMsg::ListingsOfToken { token_id, swap_type, page, limit } => r matches Ok(
                QueryAnswer::Swaps(v),
            ) && v@ == swaps_page(
                *state,
                SwapFilter::OfToken { token_id, side: swap_type },
                page,
                limit,
            ),
            QueryMsg::SwapsOf { address, swap_type, page, limit } => r matches Ok(
                QueryAnswer::Swaps(v),
            ) && v@ == swaps_page(
                *state,
                SwapFilter::ByCreator { address, side: spec_side(swap_type) },
                page,
                limit,
            ),
            QueryMsg::SwapsByPrice { min, max, swap_type, page, limit } => r matches Ok(
                QueryAnswer::Swaps(v),
            ) && v@ == swaps_page(
                *state,
                SwapFilter::ByPrice {
                    min: match min {
                        Some(m) => m,
                        None => 0,
                    },
                    max,
                    side: spec_side(swap_type),
                },
                page,
                limit,
            ),
            QueryMsg::SwapsByDenom { payment_token, swap_type, page, limit } => r matches Ok(
                QueryAnswer::Swaps(v),
            ) && v@ == swaps_page(
                *state,
                SwapFilter::ByDenom { payment_token, side: spec_side(swap_type) },
                page,
                limit,
            ),
            QueryMsg::SwapsByPaymentType { cw20, swap_type, page, limit } => r matches Ok(
                QueryAnswer::Swaps(v),
            ) && v@ == swaps_page(
                *state,
                SwapFilter::ByPaymentType { cw20, side: spec_side(swap_type) },
                page,
                limit,
            ),
            QueryMsg::Details { id } => match r {
                Ok(a) => a matches QueryAnswer::Details(d) && has_id(state.swaps@, id@)
                    && details_match(d, get_swap(state.swaps@, id@)),
                Err(e) => !has_id(state.swaps@, id@) && e == ContractError::NotFound,
            },
        },
{
    match msg {
        QueryMsg::List { start_after, limit } => Ok(
            QueryAnswer::List(state.query_list(&start_after, limit)),
        ),
        QueryMsg::GetTotal { swap_type } => Ok(
            QueryAnswer::Total(state.query_swap_total(swap_type)),
        ),
        QueryMsg::GetOffers { page, limit } => Ok(
            QueryAnswer::Swaps(state.query_swaps(SwapType::Offer, page, limit)),
        ),
        QueryMsg::GetListings { page, limit } => Ok(
            QueryAnswer::Swaps(state.query_swaps(SwapType::Sale, page, limit)),
        ),
        QueryMsg::ListingsOfToken { token_id, swap_type, page, limit } => Ok(
            QueryAnswer::Swaps(state.query_swaps_of_token(token_id, swap_type, page, limit)),
        ),
        QueryMsg::SwapsOf { address, swap_type, page, limit } => Ok(
            QueryAnswer::Swaps(state.query_swaps_by_creator(address, swap_type, page, limit)),
        ),
        QueryMsg::SwapsByPrice { min, max, swap_type, page, limit } => Ok(
            QueryAnswer::Swaps(state.query_swaps_by_price(min, max, swap_type, page, limit)),
        ),
        QueryMsg::SwapsByDenom { payment_token, swap_type, page, limit } => Ok(
            QueryAnswer::Swaps(
                state.query_swaps_by_denom(payment_token, swap_type, page, limit),
            ),
        ),
        QueryMsg::SwapsByPaymentType { cw20, swap_type, page, limit } => Ok(
            QueryAnswer::Swaps(
                state.query_swaps_by_payment_type(cw20, swap_type, page, limit),
            ),
        ),
        QueryMsg::Details { id } => match state.query_details(&id) {
            Ok(d) => Ok(QueryAnswer::Details(d)),
            Err(e) => Err(e),
        },
    }
}

} // verus!
