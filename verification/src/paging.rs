//! Page-number pagination over a filtered result sequence.
//!
//! The `i`-th page of a sequence is the slice `[i*limit, i*limit + limit)`,
//! clipped to the sequence: every page before the last holds exactly `limit`
//! elements, the last holds the remainder, and a page past the end is empty
//! rather than an error. The lemmas state the pagination laws: each element
//! appears on exactly one page at one position, concatenating all pages in
//! order reproduces the sequence, and the page sizes are as promised.

use vstd::prelude::*;
use vstd::arithmetic::div_mod::lemma_fundamental_div_mod;
use vstd::arithmetic::div_mod::lemma_mod_bound;

verus! {

/// The `page`-th page of `s` with page size `limit`.
pub open spec fn page_of<A>(s: Seq<A>, page: int, limit: int) -> Seq<A> {
    let start = if page * limit <= s.len() {
        page * limit
    } else {
        s.len() as int
    };
    let end = if page * limit + limit <= s.len() {
        page * limit + limit
    } else {
        s.len() as int
    };
    s.subrange(start, end)
}

/// How many pages `s` spans: the last may be partial, and an empty sequence
/// has no page.
pub open spec fn num_pages<A>(s: Seq<A>, limit: int) -> int {
    (s.len() + limit - 1) / limit
}

/// The pages `0 .. k`, concatenated in order.
pub open spec fn pages_concat<A>(s: Seq<A>, limit: int, k: int) -> Seq<A>
    decreases k,
{
    if k <= 0 {
        Seq::empty()
    } else {
        pages_concat(s, limit, k - 1) + page_of(s, k - 1, limit)
    }
}

/// Where each page element comes from: position `i` of page `page` is the
/// sequence's element `page * limit + i`. Since the global positions
/// `page * limit + i` of distinct `(page, i)` pairs within these bounds are
/// distinct, no element is shared between pages or repeated on one.
pub proof fn lemma_page_of_index<A>(s: Seq<A>, page: int, limit: int, i: int)
    requires
        limit >= 1,
        page >= 0,
        0 <= i < page_of(s, page, limit).len(),
    ensures
        page * limit + i < s.len(),
        page_of(s, page, limit)[i] == s[page * limit + i],
{
    assert(page * limit >= 0) by (nonlinear_arith)
        requires
            page >= 0,
            limit >= 1,
    ;
}

/// Every page before the last is full, the last holds the remainder, and
/// pages past the end are empty.
pub proof fn lemma_page_sizes<A>(s: Seq<A>, page: int, limit: int)
    requires
        limit >= 1,
        page >= 0,
    ensures
        page < num_pages(s, limit) - 1 ==> page_of(s, page, limit).len() == limit,
        page == num_pages(s, limit) - 1 ==> page_of(s, page, limit).len() == s.len() - (num_pages(
            s,
            limit,
        ) - 1) * limit && 1 <= page_of(s, page, limit).len() <= limit,
        page >= num_pages(s, limit) ==> page_of(s, page, limit).len() == 0,
{
    let n = s.len() as int;
    let np = num_pages(s, limit);
    let x = n + limit - 1;
    lemma_fundamental_div_mod(x, limit);
    lemma_mod_bound(x, limit);
    let r = x % limit;
    assert(np * limit == limit * np) by (nonlinear_arith);
    assert(np * limit == n + limit - 1 - r);
    assert((np - 1) * limit == np * limit - limit) by (nonlinear_arith);
    if page < np - 1 {
        assert((page + 1) * limit <= (np - 1) * limit) by (nonlinear_arith)
            requires
                page + 1 <= np - 1,
                limit >= 1,
        ;
        assert((page + 1) * limit == page * limit + limit) by (nonlinear_arith);
        assert(page * limit >= 0) by (nonlinear_arith)
            requires
                page >= 0,
                limit >= 1,
        ;
    }
    if page == np - 1 && page >= 0 {
        assert(page * limit == n - 1 - r);
        assert(page * limit + limit == n - 1 - r + limit);
    }
    if page >= np {
        assert(page * limit >= np * limit) by (nonlinear_arith)
            requires
                page >= np,
                limit >= 1,
        ;
    }
}

/// Concatenating the first `k` pages gives the first `k * limit` elements.
proof fn lemma_pages_concat_take<A>(s: Seq<A>, limit: int, k: int)
    requires
        limit >= 1,
        k >= 0,
    ensures
        pages_concat(s, limit, k) =~= s.take(
            if k * limit <= s.len() {
                k * limit
            } else {
                s.len() as int
            },
        ),
    decreases k,
{
    let n = s.len() as int;
    if k == 0 {
        assert(k * limit == 0) by (nonlinear_arith)
            requires
                k == 0,
        ;
        assert(s.take(0) =~= Seq::<A>::empty());
    }
    if k > 0 {
        lemma_pages_concat_take(s, limit, k - 1);
        assert((k - 1) * limit == k * limit - limit) by (nonlinear_arith);
        assert(k * limit >= limit) by (nonlinear_arith)
            requires
                k >= 1,
                limit >= 1,
        ;
        let m1 = if (k - 1) * limit <= n {
            (k - 1) * limit
        } else {
            n
        };
        let m2 = if k * limit <= n {
            k * limit
        } else {
            n
        };
        assert(page_of(s, k - 1, limit) =~= s.subrange(m1, m2));
        assert(pages_concat(s, limit, k - 1) =~= s.take(m1));
        assert(s.take(m1) + s.subrange(m1, m2) =~= s.take(m2));
        assert(pages_concat(s, limit, k) == pages_concat(s, limit, k - 1) + page_of(
            s,
            k - 1,
            limit,
        ));
        assert(pages_concat(s, limit, k) =~= s.take(m2));
    }
}

/// Pagination is complete: the pages `0 .. num_pages`, concatenated in
/// order, are exactly the sequence — nothing missing, nothing repeated.
pub proof fn lemma_pages_cover<A>(s: Seq<A>, limit: int)
    requires
        limit >= 1,
    ensures
        pages_concat(s, limit, num_pages(s, limit)) =~= s,
{
    let n = s.len() as int;
    let np = num_pages(s, limit);
    assert(np >= 0 && np * limit >= n) by (nonlinear_arith)
        requires
            limit >= 1,
            np == (n + limit - 1) / limit,
            n >= 0,
    ;
    lemma_pages_concat_take(s, limit, np);
    assert(s.take(n) =~= s);
}

} // verus!
