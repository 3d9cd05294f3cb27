//! The hybrid retriever's relational half: joining vector-search hits
//! with metadata rows, stamping distances, filtering locally-binding
//! law by region, and truncating to the requested result count.
//!
//! The vector index hands back `(fragment id, distance)` pairs in
//! ascending-distance order; that order is authoritative and preserved
//! through the join, the filter and the truncation.

use vstd::prelude::*;

use crate::fragment::{is_local_regulation, local_regulation, local_regulation_str, LawChunk};
use crate::text::{contains_substring, is_substring};

verus! {

/// One nearest-neighbor hit from the vector index: a fragment id and
/// its similarity distance (scaled by 1000).
pub struct VectorHit {
    pub id: String,
    pub distance_milli: u32,
}

/// The row with the hit's distance stamped on it.
pub open spec fn with_distance(row: LawChunk, d: u32) -> LawChunk {
    LawChunk { distance_milli: d, ..row }
}

/// The first metadata row carrying the given fragment id, if any.
pub open spec fn find_row(rows: Seq<LawChunk>, id: Seq<char>) -> Option<LawChunk>
    decreases rows.len(),
{
    if rows.len() == 0 {
        None
    } else if rows[0].id@ == id {
        Some(rows[0])
    } else {
        find_row(rows.drop_first(), id)
    }
}

/// The region-filter policy: nationally-binding law is always kept;
/// locally-binding law is kept only when a region filter is present and
/// occurs in the fragment's region.
pub open spec fn keeps(c: LawChunk, filter: Option<Seq<char>>) -> bool {
    !is_local_regulation(c) || (filter matches Some(f) && is_substring(c.region@, f))
}

/// What one vector hit adds to the joined list: its metadata row with
/// the distance stamped, if the row exists and passes the filter.
pub open spec fn hit_contribution(
    h: VectorHit,
    rows: Seq<LawChunk>,
    filter: Option<Seq<char>>,
) -> Seq<LawChunk> {
    match find_row(rows, h.id@) {
        Some(row) => if keeps(with_distance(row, h.distance_milli), filter) {
            seq![with_distance(row, h.distance_milli)]
        } else {
            Seq::empty()
        },
        None => Seq::empty(),
    }
}

/// The joined, filtered fragment list, in hit order. Hits whose id has
/// no metadata row are silently dropped (store/index skew tolerance).
pub open spec fn join_filter(
    hits: Seq<VectorHit>,
    rows: Seq<LawChunk>,
    filter: Option<Seq<char>>,
) -> Seq<LawChunk>
    decreases hits.len(),
{
    if hits.len() == 0 {
        Seq::empty()
    } else {
        hit_contribution(hits[0], rows, filter) + join_filter(hits.drop_first(), rows, filter)
    }
}

/// The retriever's full answer: the joined, filtered list truncated to
/// the first `top_k` fragments.
pub open spec fn retrieve_spec(
    hits: Seq<VectorHit>,
    rows: Seq<LawChunk>,
    filter: Option<Seq<char>>,
    top_k: int,
) -> Seq<LawChunk> {
    let joined = join_filter(hits, rows, filter);
    joined.take(
        if top_k < joined.len() {
            top_k
        } else {
            joined.len() as int
        },
    )
}

proof fn lemma_join_filter_push(
    hits: Seq<VectorHit>,
    rows: Seq<LawChunk>,
    filter: Option<Seq<char>>,
    h: VectorHit,
)
    ensures
        join_filter(hits.push(h), rows, filter) == join_filter(hits, rows, filter)
            + hit_contribution(h, rows, filter),
    decreases hits.len(),
{
    assert(hits.push(h).len() == hits.len() + 1);
    if hits.len() == 0 {
        assert(hits.push(h)[0] == h);
        assert(hits.push(h).drop_first() =~= Seq::<VectorHit>::empty());
        assert(join_filter(hits.push(h), rows, filter) == hit_contribution(h, rows, filter)
            + join_filter(Seq::<VectorHit>::empty(), rows, filter));
        assert(join_filter(hits.push(h), rows, filter) =~= join_filter(hits, rows, filter)
            + hit_contribution(h, rows, filter));
    } else {
        assert(hits.push(h)[0] == hits[0]);
        assert(hits.push(h).drop_first() =~= hits.drop_first().push(h));
        lemma_join_filter_push(hits.drop_first(), rows, filter, h);
        assert(join_filter(hits.push(h), rows, filter) == hit_contribution(hits[0], rows, filter)
            + join_filter(hits.drop_first().push(h), rows, filter));
        assert(join_filter(hits.push(h), rows, filter) =~= join_filter(hits, rows, filter)
            + hit_contribution(h, rows, filter));
    }
}

proof fn lemma_find_row_skip(rows: Seq<LawChunk>, id: Seq<char>, i: int)
    requires
        0 <= i <= rows.len(),
        forall|m: int| 0 <= m < i ==> (#[trigger] rows[m]).id@ != id,
    ensures
        find_row(rows, id) == find_row(rows.skip(i), id),
    decreases i,
{
    if i > 0 {
        assert(rows.drop_first() =~= rows.skip(1));
        assert(forall|m: int|
            0 <= m < i - 1 ==> (#[trigger] rows.skip(1)[m]).id@ == rows[m + 1].id@);
        lemma_find_row_skip(rows.skip(1), id, i - 1);
        assert(rows.skip(1).skip(i - 1) =~= rows.skip(i));
    } else {
        assert(rows.skip(0) =~= rows);
    }
}

/// Index of the first metadata row carrying `id`, if any.
fn find_row_index(rows: &Vec<LawChunk>, id: &String) -> (r: Option<usize>)
    ensures
        match r {
            Some(j) => j < rows@.len() && rows@[j as int].id@ == id@ && find_row(rows@, id@)
                == Some(rows@[j as int]),
            None => find_row(rows@, id@) is None,
        },
{
    let mut j: usize = 0;
    while j < rows.len()
        invariant
            0 <= j <= rows@.len(),
            forall|m: int| 0 <= m < j ==> (#[trigger] rows@[m]).id@ != id@,
        decreases rows@.len() - j,
    {
        if rows[j].id == *id {
            proof {
                lemma_find_row_skip(rows@, id@, j as int);
                assert(rows@.skip(j as int)[0] == rows@[j as int]);
            }
            return Some(j);
        }
        j = j + 1;
    }
    proof {
        lemma_find_row_skip(rows@, id@, rows@.len() as int);
    }
    None
}

/// Joins vector hits with their metadata rows (in hit order, dropping
/// hits without a row), stamps each hit's distance, applies the region
/// policy for locally-binding law, and truncates to `top_k` fragments.
pub fn search_law_logic(
    hits: &Vec<VectorHit>,
    rows: &Vec<LawChunk>,
    filter_region: &Option<String>,
    top_k: usize,
) -> (r: Vec<LawChunk>)
    ensures
        r@ == retrieve_spec(hits@, rows@, filter_region.deep_view(), top_k as int),
        r@.len() <= top_k,
{
    let local_cat = String::from_str(local_regulation_str());
    let mut out: Vec<LawChunk> = Vec::new();
    let mut i: usize = 0;
    while i < hits.len()
        invariant
            0 <= i <= hits@.len(),
            local_cat@ == local_regulation(),
            out@ == join_filter(hits@.take(i as int), rows@, filter_region.deep_view()),
        decreases hits@.len() - i,
    {
        let ghost pre = out@;
        match find_row_index(rows, &hits[i].id) {
            Some(j) => {
                let mut c = rows[j].clone();
                c.distance_milli = hits[i].distance_milli;
                assert(c == with_distance(rows@[j as int], hits@[i as int].distance_milli));
                let keep: bool;
                if !(c.category == local_cat) {
                    keep = true;
                } else {
                    match filter_region {
                        Some(t) => {
                            keep = contains_substring(c.region.as_str(), t.as_str());
                        },
                        None => {
                            keep = false;
                        },
                    }
                }
                assert(keep == keeps(c, filter_region.deep_view()));
                if keep {
                    out.push(c);
                }
            },
            None => {},
        }
        proof {
            lemma_join_filter_push(
                hits@.take(i as int),
                rows@,
                filter_region.deep_view(),
                hits@[i as int],
            );
            assert(hits@.take(i as int).push(hits@[i as int]) =~= hits@.take(i + 1));
            assert(out@ =~= pre + hit_contribution(
                hits@[i as int],
                rows@,
                filter_region.deep_view(),
            ));
        }
        i = i + 1;
    }
    proof {
        assert(hits@.take(hits@.len() as int) =~= hits@);
    }
    out.truncate(top_k);
    out
}

/// Distances never decrease along the list.
pub open spec fn distances_ascending(s: Seq<LawChunk>) -> bool {
    forall|i: int, j: int|
        0 <= i < j < s.len() ==> (#[trigger] s[i]).distance_milli <= (#[trigger] s[j]).distance_milli
}

/// Hit distances never decrease along the list, as the vector index
/// returns them.
pub open spec fn hits_ascending(hits: Seq<VectorHit>) -> bool {
    forall|i: int, j: int|
        0 <= i < j < hits.len() ==> (#[trigger] hits[i]).distance_milli
            <= (#[trigger] hits[j]).distance_milli
}

proof fn lemma_join_filter_ascending(
    hits: Seq<VectorHit>,
    rows: Seq<LawChunk>,
    filter: Option<Seq<char>>,
)
    requires
        hits_ascending(hits),
    ensures
        distances_ascending(join_filter(hits, rows, filter)),
        hits.len() > 0 ==> forall|m: int|
            0 <= m < join_filter(hits, rows, filter).len() ==> (#[trigger] join_filter(
                hits,
                rows,
                filter,
            )[m]).distance_milli >= hits[0].distance_milli,
    decreases hits.len(),
{
    if hits.len() > 0 {
        let rest_hits = hits.drop_first();
        let d0 = hits[0].distance_milli;
        assert(forall|i: int| 0 <= i < rest_hits.len() ==> #[trigger] rest_hits[i] == hits[i + 1]);
        assert(forall|i: int, j: int|
            0 <= i < j < rest_hits.len() ==> (#[trigger] rest_hits[i]).distance_milli
                <= (#[trigger] rest_hits[j]).distance_milli);
        lemma_join_filter_ascending(rest_hits, rows, filter);
        let head = hit_contribution(hits[0], rows, filter);
        let rest = join_filter(rest_hits, rows, filter);
        assert(join_filter(hits, rows, filter) == head + rest);
        assert(forall|m: int|
            0 <= m < head.len() ==> (#[trigger] head[m]).distance_milli == d0);
        if rest_hits.len() > 0 {
            assert(rest_hits[0] == hits[1]);
            assert(d0 <= rest_hits[0].distance_milli);
        }
        assert(forall|m: int|
            0 <= m < rest.len() ==> (#[trigger] rest[m]).distance_milli >= d0);
        assert(forall|m: int|
            0 <= m < (head + rest).len() ==> (#[trigger] (head + rest)[m]).distance_milli >= d0);
    }
}

/// Order preservation: if the vector index returns ascending distances,
/// every fragment the retriever returns has a distance no smaller than
/// the one before it.
pub proof fn lemma_retrieve_order(
    hits: Seq<VectorHit>,
    rows: Seq<LawChunk>,
    filter: Option<Seq<char>>,
    top_k: int,
)
    requires
        0 <= top_k,
        hits_ascending(hits),
    ensures
        distances_ascending(retrieve_spec(hits, rows, filter, top_k)),
{
    lemma_join_filter_ascending(hits, rows, filter);
    let joined = join_filter(hits, rows, filter);
    let r = retrieve_spec(hits, rows, filter, top_k);
    assert(forall|m: int| 0 <= m < r.len() ==> #[trigger] r[m] == joined[m]);
}

proof fn lemma_join_filter_keeps(
    hits: Seq<VectorHit>,
    rows: Seq<LawChunk>,
    filter: Option<Seq<char>>,
)
    ensures
        forall|m: int|
            0 <= m < join_filter(hits, rows, filter).len() ==> keeps(
                #[trigger] join_filter(hits, rows, filter)[m],
                filter,
            ),
    decreases hits.len(),
{
    if hits.len() > 0 {
        lemma_join_filter_keeps(hits.drop_first(), rows, filter);
        let head = hit_contribution(hits[0], rows, filter);
        let rest = join_filter(hits.drop_first(), rows, filter);
        assert(join_filter(hits, rows, filter) == head + rest);
        assert(forall|m: int|
            0 <= m < (head + rest).len() ==> keeps(#[trigger] (head + rest)[m], filter));
    }
}

/// Region policy: a locally-binding fragment appears in the result only
/// if a region filter was given and occurs in the fragment's region.
pub proof fn lemma_retrieve_region(
    hits: Seq<VectorHit>,
    rows: Seq<LawChunk>,
    filter: Option<Seq<char>>,
    top_k: int,
)
    requires
        0 <= top_k,
    ensures
        forall|m: int|
            0 <= m < retrieve_spec(hits, rows, filter, top_k).len() && is_local_regulation(
                #[trigger] retrieve_spec(hits, rows, filter, top_k)[m],
            ) ==> (filter matches Some(f) && is_substring(
                retrieve_spec(hits, rows, filter, top_k)[m].region@,
                f,
            )),
{
    lemma_join_filter_keeps(hits, rows, filter);
    let joined = join_filter(hits, rows, filter);
    let r = retrieve_spec(hits, rows, filter, top_k);
    assert(forall|m: int| 0 <= m < r.len() ==> #[trigger] r[m] == joined[m]);
}

/// Idempotence: two retrievals over identical hits, rows, filter and
/// `top_k` return the same fragment list, in the same order.
pub proof fn lemma_retrieve_deterministic(
    r1: Seq<LawChunk>,
    r2: Seq<LawChunk>,
    hits: Seq<VectorHit>,
    rows: Seq<LawChunk>,
    filter: Option<Seq<char>>,
    top_k: int,
)
    requires
        r1 == retrieve_spec(hits, rows, filter, top_k),
        r2 == retrieve_spec(hits, rows, filter, top_k),
    ensures
        r1 == r2,
{
}

/// Over-fetch size for the vector search: three times the requested
/// count, compensating for hits the join and the region filter drop.
pub fn fetch_limit(top_k: usize) -> (r: usize)
    requires
        top_k <= usize::MAX / 3,
    ensures
        r == top_k * 3,
{
    top_k * 3
}

} // verus!
