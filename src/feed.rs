//! The feed: pages of posts, newest first, strictly older than a cursor.
use vstd::prelude::*;
use crate::drafts::Image;
use crate::clock::{now_micros, parse_rfc3339_micros, rfc3339_micros};

verus! {

/// A post joined with its author's identity. Timestamps count microseconds
/// since the Unix epoch, in UTC.
pub struct Post {
    pub username: String,
    pub post_id: i64,
    pub name: String,
    pub user_id: i64,
    pub content: String,
    pub posted_timestamp: i64,
    pub images: Vec<Image>,
}

/// Feed order: `a` comes after `b` (is older), by timestamp and then by id.
pub open spec fn older(a: Post, b: Post) -> bool {
    a.posted_timestamp < b.posted_timestamp || (a.posted_timestamp == b.posted_timestamp
        && a.post_id < b.post_id)
}

/// Whether `p` is strictly older than the cursor `before`.
pub open spec fn before_cursor(p: Post, before: int) -> bool {
    p.posted_timestamp < before
}

/// The store hands out each id once.
pub open spec fn unique_ids(posts: Seq<Post>) -> bool {
    forall|i: int, j: int|
        0 <= i < j < posts.len() ==> #[trigger] posts[i].post_id != #[trigger] posts[j].post_id
}

/// No two posts share a timestamp.
pub open spec fn distinct_timestamps(posts: Seq<Post>) -> bool {
    forall|i: int, j: int|
        0 <= i < j < posts.len() ==> #[trigger] posts[i].posted_timestamp
            != #[trigger] posts[j].posted_timestamp
}

/// `page` is the feed page of `posts` before `before`: at most `limit` posts,
/// all strictly older than the cursor, newest first, and no post skipped: a
/// post left out is older than the whole page, which is then full.
pub open spec fn is_page(posts: Seq<Post>, before: int, limit: nat, page: Seq<Post>) -> bool {
    &&& page.len() <= limit
    &&& forall|i: int|
        0 <= i < page.len() ==> posts.contains(#[trigger] page[i]) && before_cursor(page[i], before)
    &&& forall|i: int, j: int| 0 <= i < j < page.len() ==> older(#[trigger] page[j], #[trigger] page[i])
    &&& forall|p: Post|
        #![trigger posts.contains(p)]
        posts.contains(p) && before_cursor(p, before) && !page.contains(p) ==> page.len() == limit
            && (limit > 0 ==> older(p, page.last()))
}

/// Up to `limit` posts strictly older than `before`, newest first; of two
/// posts with one timestamp the higher id comes first.
pub fn fetch_page(posts: Vec<Post>, before: i64, limit: u64) -> (r: Vec<Post>)
    requires
        unique_ids(posts@),
    ensures
        is_page(posts@, before as int, limit as nat, r@),
{
    let ghost all = posts@;
    let mut rest = posts;
    let mut out: Vec<Post> = Vec::new();
    let mut done = false;
    while !done && (out.len() as u64) < limit
        invariant
            done ==> forall|i: int|
                0 <= i < rest@.len() ==> !before_cursor(#[trigger] rest@[i], before as int),
            out@.len() <= limit,
            unique_ids(rest@),
            forall|p: Post| #[trigger] all.contains(p) ==> out@.contains(p) || rest@.contains(p),
            forall|i: int| 0 <= i < rest@.len() ==> all.contains(#[trigger] rest@[i]),
            forall|i: int|
                0 <= i < out@.len() ==> all.contains(#[trigger] out@[i]) && before_cursor(
                    out@[i],
                    before as int,
                ),
            forall|i: int, j: int|
                0 <= i < j < out@.len() ==> older(#[trigger] out@[j], #[trigger] out@[i]),
            out@.len() > 0 ==> forall|i: int|
                0 <= i < rest@.len() && before_cursor(#[trigger] rest@[i], before as int) ==> older(
                    rest@[i],
                    out@.last(),
                ),
        decreases rest@.len() + if done { 0int } else { 1int },
    {
        let mut found = false;
        let mut best: usize = 0;
        let mut k: usize = 0;
        while k < rest.len()
            invariant
                k <= rest@.len(),
                found ==> best < k && before_cursor(rest@[best as int], before as int),
                found ==> forall|t: int|
                    0 <= t < k && before_cursor(#[trigger] rest@[t], before as int) ==> !older(
                        rest@[best as int],
                        rest@[t],
                    ),
                !found ==> forall|t: int|
                    0 <= t < k ==> !before_cursor(#[trigger] rest@[t], before as int),
            decreases rest@.len() - k,
        {
            let p = &rest[k];
            if p.posted_timestamp < before {
                if !found {
                    found = true;
                    best = k;
                } else {
                    let b = &rest[best];
                    if b.posted_timestamp < p.posted_timestamp || (b.posted_timestamp
                        == p.posted_timestamp && b.post_id < p.post_id) {
                        best = k;
                    }
                }
            }
            k = k + 1;
        }
        if !found {
            done = true;
        } else {
            let ghost old_rest = rest@;
            let ghost old_out = out@;
            let m = rest.remove(best);
            out.push(m);
            proof {
                assert forall|p: Post| #[trigger] all.contains(p) implies out@.contains(p)
                    || rest@.contains(p) by {
                    if old_rest.contains(p) {
                        let t = choose|t: int| 0 <= t < old_rest.len() && old_rest[t] == p;
                        if t == best as int {
                            assert(out@[out@.len() - 1] == p);
                        } else if t < best as int {
                            assert(rest@[t] == p);
                        } else {
                            assert(rest@[t - 1] == p);
                        }
                    } else {
                        let t = choose|t: int| 0 <= t < old_out.len() && old_out[t] == p;
                        assert(out@[t] == p);
                    }
                }
                assert forall|i: int, j: int| 0 <= i < j < rest@.len() implies #[trigger] rest@[i].post_id
                    != #[trigger] rest@[j].post_id by {
                    let oi = if i < best as int { i } else { i + 1 };
                    let oj = if j < best as int { j } else { j + 1 };
                    assert(rest@[i] == old_rest[oi]);
                    assert(rest@[j] == old_rest[oj]);
                }
                assert forall|i: int|
                    0 <= i < rest@.len() && before_cursor(#[trigger] rest@[i], before as int) implies older(
                    rest@[i],
                    out@.last(),
                ) by {
                    let oi = if i < best as int { i } else { i + 1 };
                    assert(rest@[i] == old_rest[oi]);
                    assert(old_rest[oi].post_id != old_rest[best as int].post_id);
                }
                assert forall|i: int, j: int| 0 <= i < j < out@.len() implies older(
                    #[trigger] out@[j],
                    #[trigger] out@[i],
                ) by {
                    if j == out@.len() - 1 {
                        assert(before_cursor(old_rest[best as int], before as int));
                        assert(older(m, old_out.last()));
                        if i < old_out.len() - 1 {
                            assert(older(old_out[old_out.len() - 1], old_out[i]));
                        }
                    } else {
                        assert(out@[i] == old_out[i]);
                        assert(out@[j] == old_out[j]);
                    }
                }
            }
        }
    }
    proof {
        assert forall|p: Post|
            #![trigger all.contains(p)]
            all.contains(p) && before_cursor(p, before as int) && !out@.contains(p) implies out@.len()
            == limit && (limit > 0 ==> older(p, out@.last())) by {
            assert(rest@.contains(p));
            let t = choose|t: int| 0 <= t < rest@.len() && rest@[t] == p;
            assert(before_cursor(rest@[t], before as int));
        }
    }
    out
}

/// Paging by the oldest timestamp seen enumerates the feed once, when no two
/// posts share a timestamp: a page shorter than its limit holds every post
/// before its cursor; otherwise the posts before the cursor are exactly those
/// of the page together with those before the page's oldest timestamp, no post
/// is in both, and that next cursor lies strictly below the first, so that
/// repeated pages shrink what is left until it is empty.
pub proof fn lemma_cursor_paging(posts: Seq<Post>, before: int, limit: nat, page: Seq<Post>)
    requires
        distinct_timestamps(posts),
        is_page(posts, before, limit, page),
    ensures
        forall|i: int| 0 <= i < page.len() ==> !(before <= #[trigger] page[i].posted_timestamp),
        page.len() < limit ==> forall|p: Post|
            #![trigger posts.contains(p)]
            posts.contains(p) && before_cursor(p, before) ==> page.contains(p),
        page.len() > 0 ==> page.last().posted_timestamp < before,
        page.len() > 0 ==> forall|p: Post|
            #![trigger posts.contains(p)]
            posts.contains(p) ==> (before_cursor(p, before) <==> (page.contains(p) || before_cursor(
                p,
                page.last().posted_timestamp as int,
            ))),
        page.len() > 0 ==> forall|p: Post|
            #![trigger page.contains(p)]
            page.contains(p) ==> !before_cursor(p, page.last().posted_timestamp as int),
{
    if page.len() > 0 {
        let last = page.last();
        let next = last.posted_timestamp as int;
        assert(posts.contains(page[page.len() - 1]));
        assert forall|p: Post| #[trigger] page.contains(p) implies !before_cursor(p, next) by {
            let i = choose|i: int| 0 <= i < page.len() && page[i] == p;
            if i < page.len() - 1 {
                assert(older(page[page.len() - 1], page[i]));
            }
        }
        assert forall|p: Post| #[trigger] posts.contains(p) implies (before_cursor(p, before) <==> (
        page.contains(p) || before_cursor(p, next))) by {
            if page.contains(p) {
                let i = choose|i: int| 0 <= i < page.len() && page[i] == p;
                assert(before_cursor(page[i], before));
            }
            if before_cursor(p, before) && !page.contains(p) {
                assert(older(p, last));
                if p.posted_timestamp == last.posted_timestamp {
                    let a = choose|a: int| 0 <= a < posts.len() && posts[a] == p;
                    let b = choose|b: int| 0 <= b < posts.len() && posts[b] == last;
                    if a < b {
                        assert(posts[a].posted_timestamp != posts[b].posted_timestamp);
                    } else if b < a {
                        assert(posts[b].posted_timestamp != posts[a].posted_timestamp);
                    }
                    assert(page.contains(last));
                }
            }
        }
    }
}

/// `pages` is a run of feed pages: the first before `before`, each next one
/// before the oldest timestamp of the page it follows, until one comes back
/// shorter than `limit`.
pub open spec fn is_page_run(posts: Seq<Post>, before: int, limit: nat, pages: Seq<Seq<Post>>) -> bool
    decreases pages.len(),
{
    &&& pages.len() > 0
    &&& is_page(posts, before, limit, pages[0])
    &&& if pages.len() == 1 {
        pages[0].len() < limit
    } else {
        &&& pages[0].len() > 0
        &&& is_page_run(posts, pages[0].last().posted_timestamp as int, limit, pages.drop_first())
    }
}

/// A run of pages enumerates the feed when no two posts share a timestamp:
/// together the pages hold every post older than the first cursor, and only
/// those, each exactly once.
pub proof fn lemma_page_run_enumerates(
    posts: Seq<Post>,
    before: int,
    limit: nat,
    pages: Seq<Seq<Post>>,
)
    requires
        distinct_timestamps(posts),
        is_page_run(posts, before, limit, pages),
    ensures
        forall|p: Post|
            #![trigger posts.contains(p)]
            posts.contains(p) ==> (before_cursor(p, before) <==> pages.flatten().contains(p)),
        forall|p: Post|
            #![trigger pages.flatten().contains(p)]
            pages.flatten().contains(p) ==> posts.contains(p),
        pages.flatten().no_duplicates(),
    decreases pages.len(),
{
    let page = pages[0];
    let rest = pages.drop_first();
    let flat = pages.flatten();
    assert(flat == page + rest.flatten());
    lemma_cursor_paging(posts, before, limit, page);
    assert forall|i: int, j: int|
        0 <= i < page.len() && 0 <= j < page.len() && i != j implies page[i] != page[j] by {
        if i < j {
            assert(older(page[j], page[i]));
        } else {
            assert(older(page[i], page[j]));
        }
    }
    if pages.len() == 1 {
        assert(rest.flatten() =~= Seq::<Post>::empty());
        assert(flat =~= page);
        assert forall|p: Post| #[trigger] flat.contains(p) implies posts.contains(p) by {
            let i = choose|i: int| 0 <= i < flat.len() && flat[i] == p;
            assert(posts.contains(page[i]));
        }
        assert forall|p: Post| #[trigger] posts.contains(p) implies (before_cursor(p, before)
            <==> flat.contains(p)) by {
            if flat.contains(p) {
                let i = choose|i: int| 0 <= i < flat.len() && flat[i] == p;
                assert(before_cursor(page[i], before));
            }
        }
    } else {
        let next = page.last().posted_timestamp as int;
        lemma_page_run_enumerates(posts, next, limit, rest);
        let tail = rest.flatten();
        assert forall|p: Post| #[trigger] flat.contains(p) implies posts.contains(p) by {
            let i = choose|i: int| 0 <= i < flat.len() && flat[i] == p;
            if i < page.len() {
                assert(posts.contains(page[i]));
            } else {
                assert(tail[i - page.len()] == p);
                assert(tail.contains(p));
            }
        }
        assert forall|p: Post| #[trigger] posts.contains(p) implies (before_cursor(p, before)
            <==> flat.contains(p)) by {
            if page.contains(p) {
                let i = choose|i: int| 0 <= i < page.len() && page[i] == p;
                assert(flat[i] == p);
            } else if tail.contains(p) {
                let i = choose|i: int| 0 <= i < tail.len() && tail[i] == p;
                assert(flat[i + page.len()] == p);
            }
            if flat.contains(p) {
                let i = choose|i: int| 0 <= i < flat.len() && flat[i] == p;
                if i < page.len() {
                    assert(page.contains(p));
                } else {
                    assert(tail[i - page.len()] == p);
                    assert(tail.contains(p));
                }
            }
        }
        assert forall|i: int, j: int|
            0 <= i < flat.len() && 0 <= j < flat.len() && i != j implies flat[i] != flat[j] by {
            if i >= page.len() && j >= page.len() {
                assert(tail[i - page.len()] == flat[i]);
                assert(tail[j - page.len()] == flat[j]);
            } else if i < page.len() && j >= page.len() {
                let q = tail[j - page.len()];
                assert(tail.contains(q));
                assert(posts.contains(q));
                assert(page.contains(page[i]));
                assert(!before_cursor(page[i], next));
            } else if j < page.len() && i >= page.len() {
                let q = tail[i - page.len()];
                assert(tail.contains(q));
                assert(posts.contains(q));
                assert(page.contains(page[j]));
                assert(!before_cursor(page[j], next));
            }
        }
    }
}

/// Why an index request is refused.
pub enum FeedError {
    /// The cursor is not an RFC 3339 timestamp.
    InvalidCursor,
}

/// The cursor of an index request: the instant a given timestamp names, or
/// the present when none is given.
pub fn index_cursor(query: Option<&str>) -> (r: Result<i64, FeedError>)
    ensures
        query is None ==> r is Ok,
        query is Some ==> r == match rfc3339_micros(query->0@) {
            Some(t) => Ok::<i64, FeedError>(t),
            None => Err(FeedError::InvalidCursor),
        },
{
    match query {
        None => Ok(now_micros()),
        Some(s) => match parse_rfc3339_micros(s) {
            Some(t) => Ok(t),
            None => Err(FeedError::InvalidCursor),
        },
    }
}

/// Whether to offer an older page: a full page suggests that more posts
/// remain (a guess that misses when exactly `limit` posts were left).
pub fn view_more(returned: usize, limit: u64) -> (r: bool)
    ensures
        r == (returned as int >= limit as int),
{
    returned as u64 >= limit
}

} // verus!
