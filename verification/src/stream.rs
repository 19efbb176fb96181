//! Cursor-based pagination.
//!
//! A paginated listing is driven as a small state machine: [`Paginator`]
//! hands out the cursor for the next page ([`Paginator::next_request`]),
//! and each fetched page is folded in ([`Paginator::accept_page`]), which
//! emits the items to keep, advances the cursor to the last emitted item's
//! identifier, and decides whether the sequence is exhausted.  The sequence
//! ends when a page is shorter than the page size (an empty page included)
//! or when the emitted count reaches the optional total-item limit; excess
//! items of an over-full final page are truncated.  The embedding
//! application performs each fetch only when the machine asks for one, so
//! the sequence is lazy and single-pass; restarting requires a new
//! [`Paginator`] with an explicit starting identifier.

use vstd::prelude::*;

use vstd::math::min;

verus! {

/// A typed resource that can appear in a paginated listing: it exposes the
/// identifier that a page cursor carries.
pub trait PaginatedResource: Sized {
    /// The identifier, abstractly.  An implementation whose `key` is
    /// verified overrides this to say what the identifier is.
    open spec fn key_spec(&self) -> Seq<char> {
        Seq::empty()
    }

    /// The identifier marking this item in a page cursor.
    fn key(&self) -> (r: String)
        ensures
            r@ == self.key_spec(),
    ;
}

/// The abstract value of a [`Paginator`].
pub struct PaginatorView {
    pub page_size: int,
    pub limit: Option<int>,
    pub marker: Option<Seq<char>>,
    pub emitted: int,
    pub done: bool,
}

/// Well-formedness of a paginator state: the page size is positive, the
/// emitted count never exceeds the limit, and a reached limit means the
/// sequence is exhausted.
pub open spec fn pag_inv(p: PaginatorView) -> bool {
    &&& p.page_size >= 1
    &&& match p.limit {
        Some(l) => p.emitted <= l && (p.emitted == l ==> p.done),
        None => true,
    }
}

/// How many items of a page of `n` items are emitted: all of them, or just
/// enough to reach the limit.
pub open spec fn take_count(p: PaginatorView, n: int) -> int {
    match p.limit {
        None => n,
        Some(l) => min(n, l - p.emitted),
    }
}

/// Whether the sequence is exhausted after a page of `n` items: the page
/// was short (or empty), or the limit is reached.
pub open spec fn step_done(p: PaginatorView, n: int) -> bool {
    ||| n < p.page_size
    ||| match p.limit {
        Some(l) => p.emitted + take_count(p, n) == l,
        None => false,
    }
}

/// The cursor request for one page fetch: the identifier to resume after,
/// and how many items to ask for.
#[derive(Debug)]
pub struct PageRequest {
    pub marker: Option<String>,
    pub limit: usize,
}

/// The pagination state machine.
#[derive(Debug)]
pub struct Paginator {
    page_size: usize,
    limit: Option<usize>,
    marker: Option<String>,
    emitted: usize,
    done: bool,
}

impl View for Paginator {
    type V = PaginatorView;

    closed spec fn view(&self) -> PaginatorView {
        PaginatorView {
            page_size: self.page_size as int,
            limit: match self.limit {
                Some(l) => Some(l as int),
                None => None,
            },
            marker: match self.marker {
                Some(ref m) => Some(m@),
                None => None,
            },
            emitted: self.emitted as int,
            done: self.done,
        }
    }
}

impl Paginator {
    /// Start a paginated listing: pages of `page_size` items, an optional
    /// total-item limit, and an optional identifier to resume after.  With
    /// a limit of zero the sequence is exhausted from the start.
    pub fn new(page_size: usize, limit: Option<usize>, starting_with: Option<String>) -> (r:
        Paginator)
        requires
            page_size >= 1,
        ensures
            pag_inv(r@),
            r@ == (PaginatorView {
                page_size: page_size as int,
                limit: match limit {
                    Some(l) => Some(l as int),
                    None => None::<int>,
                },
                marker: starting_with.deep_view(),
                emitted: 0,
                done: limit == Some(0usize),
            }),
    {
        let done = match limit {
            Some(0) => true,
            _ => false,
        };
        Paginator { page_size, limit, marker: starting_with, emitted: 0, done }
    }

    /// The cursor for the next page, or `None` when the sequence is
    /// exhausted and no further fetch may be made.
    pub fn next_request(&self) -> (r: Option<PageRequest>)
        ensures
            match r {
                Some(req) => !self@.done && req.marker.deep_view() == self@.marker
                    && req.limit as int == self@.page_size,
                None => self@.done,
            },
    {
        if self.done {
            None
        } else {
            Some(
                PageRequest {
                    marker: match &self.marker {
                        Some(m) => Some(m.clone()),
                        None => None,
                    },
                    limit: self.page_size,
                },
            )
        }
    }

    /// Fold one fetched page in: emit the items to keep (truncating an
    /// over-full final page at the limit), advance the cursor to the last
    /// emitted item's identifier, and record whether the sequence is
    /// exhausted.
    pub fn accept_page<T: PaginatedResource>(&mut self, page: Vec<T>) -> (out: Vec<T>)
        requires
            !old(self)@.done,
            pag_inv(old(self)@),
            old(self)@.emitted + page@.len() <= usize::MAX,
        ensures
            pag_inv(final(self)@),
            ({
                let take = take_count(old(self)@, page@.len() as int);
                &&& out@ == page@.take(take)
                &&& final(self)@ == (PaginatorView {
                    marker: if take > 0 {
                        Some(page@[take - 1].key_spec())
                    } else {
                        old(self)@.marker
                    },
                    emitted: old(self)@.emitted + take,
                    done: step_done(old(self)@, page@.len() as int),
                    ..old(self)@
                })
            }),
    {
        let n = page.len();
        let take: usize = match self.limit {
            None => n,
            Some(l) => {
                let rem = l - self.emitted;
                if n < rem {
                    n
                } else {
                    rem
                }
            },
        };
        let mut out = page;
        out.truncate(take);
        proof {
            assert(out@ =~= out@.take(take as int));
        }
        if take > 0 {
            self.marker = Some(out[take - 1].key());
        }
        let limit_reached = match self.limit {
            Some(l) => self.emitted + take == l,
            None => false,
        };
        self.emitted = self.emitted + take;
        self.done = n < self.page_size || limit_reached;
        out
    }
}

/// The number of items the server hands out for a fetch at cursor position
/// `c`, with `n` items in all and pages of `p`.
pub open spec fn page_len(n: int, p: int, c: int) -> int {
    if n - c < p {
        n - c
    } else {
        p
    }
}

/// The items that driving the paginator to exhaustion emits, fetching from
/// position `c` of `items` in pages of `p` with remaining budget `rem`.
/// Each unfolding is one fetch-and-fold step of the machine: the served
/// page is `page_len` items, `min` of page and budget are kept, and the
/// drive stops on a short page or an exhausted budget.
pub open spec fn run_emitted<T>(items: Seq<T>, p: int, c: int, rem: Option<int>) -> Seq<T>
    decreases items.len() - c,
    when 0 <= c <= items.len() && p >= 1
{
    let n = items.len() as int;
    let page = page_len(n, p, c);
    let take = match rem {
        None => page,
        Some(b) => min(page, b),
    };
    let out = items.subrange(c, c + take);
    let stop = page < p || (rem matches Some(b) && take == b);
    if stop {
        out
    } else {
        out + run_emitted(
            items,
            p,
            c + page,
            match rem {
                None => None,
                Some(b) => Some(b - take),
            },
        )
    }
}

/// The number of fetches that driving the paginator to exhaustion makes,
/// from position `c` with pages of `p` and remaining budget `rem`.
pub open spec fn run_fetches<T>(items: Seq<T>, p: int, c: int, rem: Option<int>) -> int
    decreases items.len() - c,
    when 0 <= c <= items.len() && p >= 1
{
    let n = items.len() as int;
    let page = page_len(n, p, c);
    let take = match rem {
        None => page,
        Some(b) => min(page, b),
    };
    let stop = page < p || (rem matches Some(b) && take == b);
    if stop {
        1
    } else {
        1 + run_fetches(
            items,
            p,
            c + page,
            match rem {
                None => None,
                Some(b) => Some(b - take),
            },
        )
    }
}

/// One unfolding of the drive computes exactly the machine's per-page
/// arithmetic: with the drive's remaining budget standing for
/// `limit - emitted`, the emitted count and the stop decision of
/// [`Paginator::accept_page`] on the page served at the drive's cursor are
/// those of one [`run_emitted`] / [`run_fetches`] unfolding.
pub proof fn lemma_drive_step_is_machine_step<T>(items: Seq<T>, st: PaginatorView, c: int)
    requires
        pag_inv(st),
        0 <= c <= items.len(),
    ensures
        ({
            let n = items.len() as int;
            let page = page_len(n, st.page_size, c);
            let rem = match st.limit {
                None => None,
                Some(l) => Some(l - st.emitted),
            };
            &&& take_count(st, page) == (match rem {
                None => page,
                Some(b) => min(page, b),
            })
            &&& step_done(st, page) == (page < st.page_size || (rem matches Some(b)
                && take_count(st, page) == b))
        }),
{
}

proof fn lemma_run_no_limit<T>(items: Seq<T>, p: int, c: int)
    requires
        p >= 1,
        0 <= c <= items.len(),
        (items.len() - c) % p != 0,
    ensures
        run_emitted(items, p, c, None::<int>) == items.subrange(c, items.len() as int),
        run_fetches(items, p, c, None::<int>) == (items.len() - c + p - 1) / p,
    decreases items.len() - c,
{
    let n = items.len() as int;
    let page = page_len(n, p, c);
    if n - c < p {
        assert(run_emitted(items, p, c, None::<int>) == items.subrange(c, c + page));
        assert((n - c + p - 1) / p == 1) by (nonlinear_arith)
            requires
                p >= 1,
                0 <= n - c < p,
                (n - c) % p != 0,
        ;
    } else {
        assert(page == p);
        assert(((n - (c + p)) % p) == ((n - c) % p)) by (nonlinear_arith)
            requires
                p >= 1,
                c + p <= n,
        ;
        lemma_run_no_limit(items, p, c + p);
        assert(items.subrange(c, c + p) + items.subrange(c + p, n) =~= items.subrange(c, n));
        assert((n - c + p - 1) / p == 1 + (n - (c + p) + p - 1) / p) by (nonlinear_arith)
            requires
                p >= 1,
                c + p <= n,
        ;
    }
}

proof fn lemma_run_limited<T>(items: Seq<T>, p: int, c: int, b: int)
    requires
        p >= 1,
        1 <= b,
        0 <= c,
        c + b < items.len(),
    ensures
        run_emitted(items, p, c, Some(b)) == items.subrange(c, c + b),
        run_fetches(items, p, c, Some(b)) == (b + p - 1) / p,
    decreases b,
{
    let n = items.len() as int;
    let page = page_len(n, p, c);
    if b <= page {
        assert(run_emitted(items, p, c, Some(b)) == items.subrange(c, c + b));
        assert((b + p - 1) / p == 1) by (nonlinear_arith)
            requires
                p >= 1,
                1 <= b <= p,
        ;
    } else {
        assert(page == p);
        lemma_run_limited(items, p, c + p, b - p);
        assert(items.subrange(c, c + p) + items.subrange(c + p, c + b) =~= items.subrange(
            c,
            c + b,
        ));
        assert((b + p - 1) / p == 1 + (b - p + p - 1) / p) by (nonlinear_arith)
            requires
                p >= 1,
                p < b,
        ;
    }
}

proof fn lemma_run_no_limit_full_pages<T>(items: Seq<T>, p: int, c: int)
    requires
        p >= 1,
        0 <= c <= items.len(),
        (items.len() - c) % p == 0,
    ensures
        run_emitted(items, p, c, None::<int>) == items.subrange(c, items.len() as int),
        run_fetches(items, p, c, None::<int>) == (items.len() - c) / p + 1,
    decreases items.len() - c,
{
    let n = items.len() as int;
    if n - c < p {
        assert(n - c == 0) by (nonlinear_arith)
            requires
                p >= 1,
                0 <= n - c < p,
                (n - c) % p == 0,
        ;
        assert(run_emitted(items, p, c, None::<int>) == items.subrange(c, c));
        assert((n - c) / p + 1 == 1) by (nonlinear_arith)
            requires
                p >= 1,
                n - c == 0,
        ;
    } else {
        assert(((n - (c + p)) % p) == ((n - c) % p)) by (nonlinear_arith)
            requires
                p >= 1,
                c + p <= n,
        ;
        lemma_run_no_limit_full_pages(items, p, c + p);
        assert(items.subrange(c, c + p) + items.subrange(c + p, n) =~= items.subrange(c, n));
        assert((n - c) / p + 1 == 1 + ((n - (c + p)) / p + 1)) by (nonlinear_arith)
            requires
                p >= 1,
                c + p <= n,
        ;
    }
}

/// Pagination over `n` items in pages of `p` with no limit yields every
/// item exactly once, in the original order, in `⌈n/p⌉` fetches.  The
/// count holds whenever the final page is short, that is, whenever `p`
/// does not divide `n`; the case where `p` divides `n` is
/// [`lemma_pagination_no_limit_divides`].
pub proof fn lemma_pagination_no_limit<T>(items: Seq<T>, p: int)
    requires
        p >= 1,
        (items.len() as int) % p != 0,
    ensures
        run_emitted(items, p, 0, None::<int>) == items,
        run_fetches(items, p, 0, None::<int>) == (items.len() + p - 1) / p,
{
    lemma_run_no_limit(items, p, 0);
    assert(items.subrange(0, items.len() as int) =~= items);
}

/// Pagination over `n` items in pages of `p` with no limit, where `p`
/// divides `n`: every served page is full, so the drive needs one further
/// (empty) fetch to observe the end of the listing — every item is
/// emitted exactly once, in the original order, in `n/p + 1` fetches.
/// Together with [`lemma_pagination_no_limit`] this covers every item
/// count.
pub proof fn lemma_pagination_no_limit_divides<T>(items: Seq<T>, p: int)
    requires
        p >= 1,
        (items.len() as int) % p == 0,
    ensures
        run_emitted(items, p, 0, None::<int>) == items,
        run_fetches(items, p, 0, None::<int>) == (items.len() as int) / p + 1,
{
    lemma_run_no_limit_full_pages(items, p, 0);
    assert(items.subrange(0, items.len() as int) =~= items);
}

/// With a total-item limit of zero the machine itself never fetches:
/// [`Paginator::new`] marks the sequence exhausted, so
/// [`Paginator::next_request`] yields `None` from the start.  The abstract
/// drive models only a machine that is still live; on its one probe it
/// would emit nothing.
pub proof fn lemma_pagination_zero_limit<T>(items: Seq<T>, p: int)
    requires
        p >= 1,
    ensures
        run_emitted(items, p, 0, Some(0)) == Seq::<T>::empty(),
        run_fetches(items, p, 0, Some(0)) == 1,
{
    assert(items.subrange(0, 0) =~= Seq::<T>::empty());
}

/// Pagination over more than `l` items in pages of `p` with total-item
/// limit `l` yields exactly the first `l` items, in order, and stops
/// fetching once the limit is reached: `⌈l/p⌉` fetches in all.
pub proof fn lemma_pagination_limited<T>(items: Seq<T>, p: int, l: int)
    requires
        p >= 1,
        1 <= l < items.len(),
    ensures
        run_emitted(items, p, 0, Some(l)) == items.subrange(0, l),
        run_fetches(items, p, 0, Some(l)) == (l + p - 1) / p,
{
    lemma_run_limited(items, p, 0, l);
}

} // verus!
