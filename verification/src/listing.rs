//! The order of the folder listing: the children of the current folder,
//! sorted by size, name or file count, in either direction.

use vstd::prelude::*;
use crate::model::{Metric, NodeId, SortKey};
use crate::text::{chars_of, lowercase, to_lowercase};

verus! {

/// What the listing needs to know of one child of the current folder.
pub struct ListEntry {
    pub id: NodeId,
    pub allocated: u64,
    pub logical: u64,
    pub files: u64,
    /// The lower-cased name, by which the Name column sorts.
    pub key: Vec<char>,
}

impl ListEntry {
    /// The entry of a child named `name`: it sorts by the lower-cased name.
    pub fn new(id: NodeId, allocated: u64, logical: u64, files: u64, name: &str) -> (e: Self)
        ensures
            e.id == id,
            e.allocated == allocated,
            e.logical == logical,
            e.files == files,
            e.key@ == lowercase(name@),
    {
        let low = to_lowercase(name);
        let key = chars_of(low.as_str());
        ListEntry { id, allocated, logical, files, key }
    }
}

/// The size of an entry under a metric.
pub open spec fn entry_size(e: ListEntry, m: Metric) -> u64 {
    match m {
        Metric::Allocated => e.allocated,
        Metric::Logical => e.logical,
    }
}

/// Strict lexicographic order on character sequences, character by code
/// point: the order of `String`s, whose bytes are UTF-8.
pub open spec fn lex_lt(a: Seq<char>, b: Seq<char>) -> bool
    decreases a.len(),
{
    if a.len() == 0 {
        b.len() > 0
    } else if b.len() == 0 {
        false
    } else if (a[0] as int) < (b[0] as int) {
        true
    } else if a[0] == b[0] {
        lex_lt(a.drop_first(), b.drop_first())
    } else {
        false
    }
}

/// The order of the sort step, before the direction is applied: entry `i`
/// comes no later than entry `j`. Size and file count sort largest first,
/// ties broken by node id; names sort alphabetically, ties keeping the order
/// in which the children came.
pub open spec fn sorted_before(
    es: Seq<ListEntry>,
    sort: SortKey,
    m: Metric,
    i: usize,
    j: usize,
) -> bool {
    let a = es[i as int];
    let b = es[j as int];
    match sort {
        SortKey::Size => entry_size(a, m) > entry_size(b, m) || (entry_size(a, m) == entry_size(b, m)
            && (a.id < b.id || (a.id == b.id && i <= j))),
        SortKey::Files => a.files > b.files || (a.files == b.files && (a.id < b.id || (a.id
            == b.id && i <= j))),
        SortKey::Name => lex_lt(a.key@, b.key@) || (a.key@ == b.key@ && i <= j),
    }
}

/// Whether the listing shows the sorted order reversed. Names are sorted
/// ascending and then reversed once for a descending listing; sizes and file
/// counts are sorted largest first and reversed for an ascending listing.
pub open spec fn reversed(sort: SortKey, desc: bool) -> bool {
    if sort == SortKey::Name {
        desc
    } else {
        !desc
    }
}

/// Entry `i` is shown no later than entry `j`.
pub open spec fn shown_before(
    es: Seq<ListEntry>,
    sort: SortKey,
    m: Metric,
    desc: bool,
    i: usize,
    j: usize,
) -> bool {
    if reversed(sort, desc) {
        sorted_before(es, sort, m, j, i)
    } else {
        sorted_before(es, sort, m, i, j)
    }
}

/// The positions `0..n`.
pub open spec fn positions(n: nat) -> Seq<usize> {
    Seq::new(n, |i: int| i as usize)
}

/// Every position in `p` is below `n`.
pub open spec fn below(p: Seq<usize>, n: nat) -> bool {
    forall|k: int| 0 <= k < p.len() ==> #[trigger] p[k] < n
}

/// `p` is in the shown order.
pub open spec fn ordered(es: Seq<ListEntry>, sort: SortKey, m: Metric, desc: bool, p: Seq<usize>) -> bool {
    forall|a: int, b: int|
        0 <= a < b < p.len() ==> #[trigger] shown_before(es, sort, m, desc, p[a], p[b])
}

/// `p` lists every position of `es` once, in the shown order.
pub open spec fn is_listing(
    es: Seq<ListEntry>,
    sort: SortKey,
    m: Metric,
    desc: bool,
    p: Seq<usize>,
) -> bool {
    &&& p.to_multiset() == positions(es.len()).to_multiset()
    &&& ordered(es, sort, m, desc, p)
}

/// The node ids at the positions `p`.
pub open spec fn ids_at(es: Seq<ListEntry>, p: Seq<usize>) -> Seq<NodeId> {
    p.map_values(|k: usize| es[k as int].id)
}

// ----- the character order ------------------------------------------------

proof fn lemma_lex_irreflexive(a: Seq<char>)
    ensures
        !lex_lt(a, a),
    decreases a.len(),
{
    if a.len() > 0 {
        lemma_lex_irreflexive(a.drop_first());
    }
}

proof fn lemma_lex_transitive(a: Seq<char>, b: Seq<char>, c: Seq<char>)
    requires
        lex_lt(a, b),
        lex_lt(b, c),
    ensures
        lex_lt(a, c),
    decreases a.len(),
{
    if a.len() > 0 && b.len() > 0 && c.len() > 0 {
        if a[0] == b[0] && b[0] == c[0] {
            lemma_lex_transitive(a.drop_first(), b.drop_first(), c.drop_first());
        }
    }
}

proof fn lemma_lex_total(a: Seq<char>, b: Seq<char>)
    ensures
        a == b || lex_lt(a, b) || lex_lt(b, a),
    decreases a.len(),
{
    if a.len() > 0 && b.len() > 0 && a[0] == b[0] {
        lemma_lex_total(a.drop_first(), b.drop_first());
        if a.drop_first() == b.drop_first() {
            assert(a =~= b) by {
                assert(a.drop_first().len() == b.drop_first().len());
                assert forall|k: int| 0 <= k < a.len() implies a[k] == b[k] by {
                    if k > 0 {
                        assert(a[k] == a.drop_first()[k - 1]);
                        assert(b[k] == b.drop_first()[k - 1]);
                    }
                }
            }
        }
    } else if a.len() == 0 && b.len() == 0 {
        assert(a =~= b);
    }
}

proof fn lemma_lex_asymmetric(a: Seq<char>, b: Seq<char>)
    requires
        lex_lt(a, b),
    ensures
        !lex_lt(b, a),
{
    if lex_lt(b, a) {
        lemma_lex_transitive(a, b, a);
        lemma_lex_irreflexive(a);
    }
}

// ----- properties of the listing order ------------------------------------

proof fn lemma_sorted_total(es: Seq<ListEntry>, sort: SortKey, m: Metric, i: usize, j: usize)
    ensures
        sorted_before(es, sort, m, i, j) || sorted_before(es, sort, m, j, i),
{
    if sort == SortKey::Name {
        lemma_lex_total(es[i as int].key@, es[j as int].key@);
    }
}

proof fn lemma_sorted_transitive(
    es: Seq<ListEntry>,
    sort: SortKey,
    m: Metric,
    i: usize,
    j: usize,
    k: usize,
)
    requires
        sorted_before(es, sort, m, i, j),
        sorted_before(es, sort, m, j, k),
    ensures
        sorted_before(es, sort, m, i, k),
{
    if sort == SortKey::Name {
        let (a, b, c) = (es[i as int].key@, es[j as int].key@, es[k as int].key@);
        if lex_lt(a, b) && lex_lt(b, c) {
            lemma_lex_transitive(a, b, c);
        }
    }
}

proof fn lemma_sorted_antisymmetric(es: Seq<ListEntry>, sort: SortKey, m: Metric, i: usize, j: usize)
    requires
        sorted_before(es, sort, m, i, j),
        sorted_before(es, sort, m, j, i),
    ensures
        i == j,
{
    if sort == SortKey::Name {
        let (a, b) = (es[i as int].key@, es[j as int].key@);
        lemma_lex_irreflexive(a);
        if lex_lt(a, b) {
            lemma_lex_asymmetric(a, b);
        }
    }
}

proof fn lemma_shown_total(es: Seq<ListEntry>, sort: SortKey, m: Metric, desc: bool, i: usize, j: usize)
    ensures
        shown_before(es, sort, m, desc, i, j) || shown_before(es, sort, m, desc, j, i),
{
    lemma_sorted_total(es, sort, m, i, j);
}

proof fn lemma_shown_transitive(
    es: Seq<ListEntry>,
    sort: SortKey,
    m: Metric,
    desc: bool,
    i: usize,
    j: usize,
    k: usize,
)
    requires
        shown_before(es, sort, m, desc, i, j),
        shown_before(es, sort, m, desc, j, k),
    ensures
        shown_before(es, sort, m, desc, i, k),
{
    if reversed(sort, desc) {
        lemma_sorted_transitive(es, sort, m, k, j, i);
    } else {
        lemma_sorted_transitive(es, sort, m, i, j, k);
    }
}

proof fn lemma_shown_antisymmetric(
    es: Seq<ListEntry>,
    sort: SortKey,
    m: Metric,
    desc: bool,
    i: usize,
    j: usize,
)
    requires
        shown_before(es, sort, m, desc, i, j),
        shown_before(es, sort, m, desc, j, i),
    ensures
        i == j,
{
    lemma_sorted_antisymmetric(es, sort, m, i, j);
}

// ----- comparing and sorting ------------------------------------------------

fn lex_less(a: &Vec<char>, b: &Vec<char>) -> (r: bool)
    ensures
        r == lex_lt(a@, b@),
{
    let mut k: usize = 0;
    assert(a@.skip(0) =~= a@);
    assert(b@.skip(0) =~= b@);
    while k < a.len() && k < b.len()
        invariant
            k <= a.len(),
            k <= b.len(),
            lex_lt(a@, b@) == lex_lt(a@.skip(k as int), b@.skip(k as int)),
        decreases a.len() - k,
    {
        let x: char = a[k];
        let y: char = b[k];
        if x < y {
            return true;
        }
        if x != y {
            return false;
        }
        assert(a@.skip(k as int).drop_first() =~= a@.skip(k + 1));
        assert(b@.skip(k as int).drop_first() =~= b@.skip(k + 1));
        k = k + 1;
    }
    k < b.len()
}

fn entry_size_of(e: &ListEntry, m: Metric) -> (s: u64)
    ensures
        s == entry_size(*e, m),
{
    match m {
        Metric::Allocated => e.allocated,
        Metric::Logical => e.logical,
    }
}

fn shown_first(
    es: &Vec<ListEntry>,
    sort: SortKey,
    m: Metric,
    desc: bool,
    i: usize,
    j: usize,
) -> (r: bool)
    requires
        i < es.len(),
        j < es.len(),
    ensures
        r == shown_before(es@, sort, m, desc, i, j),
{
    let rev = match sort {
        SortKey::Name => desc,
        _ => !desc,
    };
    let (x, y) = if rev {
        (j, i)
    } else {
        (i, j)
    };
    let a = &es[x];
    let b = &es[y];
    match sort {
        SortKey::Size => {
            let sa = entry_size_of(a, m);
            let sb = entry_size_of(b, m);
            sa > sb || (sa == sb && (a.id < b.id || (a.id == b.id && x <= y)))
        },
        SortKey::Files => a.files > b.files || (a.files == b.files && (a.id < b.id || (a.id
            == b.id && x <= y))),
        SortKey::Name => {
            let lt = lex_less(&a.key, &b.key);
            let gt = lex_less(&b.key, &a.key);
            proof {
                lemma_lex_total(a.key@, b.key@);
                if lt {
                    lemma_lex_asymmetric(a.key@, b.key@);
                }
                if a.key@ == b.key@ {
                    lemma_lex_irreflexive(a.key@);
                }
            }
            lt || (!gt && x <= y)
        },
    }
}

fn merge(
    es: &Vec<ListEntry>,
    sort: SortKey,
    m: Metric,
    desc: bool,
    a: Vec<usize>,
    b: Vec<usize>,
) -> (r: Vec<usize>)
    requires
        ordered(es@, sort, m, desc, a@),
        ordered(es@, sort, m, desc, b@),
        below(a@, es.len() as nat),
        below(b@, es.len() as nat),
    ensures
        r@.to_multiset() == a@.to_multiset().add(b@.to_multiset()),
        ordered(es@, sort, m, desc, r@),
        below(r@, es.len() as nat),
{
    broadcast use vstd::seq_lib::group_to_multiset_ensures;
    broadcast use vstd::multiset::group_multiset_axioms;

    let mut r: Vec<usize> = Vec::new();
    let mut i: usize = 0;
    let mut j: usize = 0;
    while i < a.len() || j < b.len()
        invariant
            i <= a.len(),
            j <= b.len(),
            r.len() == i + j,
            r@.to_multiset() == a@.take(i as int).to_multiset().add(b@.take(j as int).to_multiset()),
            ordered(es@, sort, m, desc, a@),
            ordered(es@, sort, m, desc, b@),
            ordered(es@, sort, m, desc, r@),
            below(a@, es.len() as nat),
            below(b@, es.len() as nat),
            below(r@, es.len() as nat),
            forall|k: int|
                0 <= k < r.len() ==> (i < a.len() ==> shown_before(
                    es@,
                    sort,
                    m,
                    desc,
                    #[trigger] r@[k],
                    a@[i as int],
                )) && (j < b.len() ==> shown_before(es@, sort, m, desc, r@[k], b@[j as int])),
        decreases a.len() + b.len() - i - j,
    {
        let take_a = if i < a.len() && j < b.len() {
            shown_first(es, sort, m, desc, a[i], b[j])
        } else {
            i < a.len()
        };
        let ghost old_r = r@;
        if take_a {
            let x = a[i];
            proof {
                if j < b.len() {
                    assert(shown_before(es@, sort, m, desc, x, b@[j as int]));
                }
                assert(a@.take(i + 1) =~= a@.take(i as int).push(x));
            }
            r.push(x);
            i = i + 1;
            proof {
                assert(r@ =~= old_r.push(x));
                vstd::seq_lib::to_multiset_build(old_r, x);
                vstd::seq_lib::to_multiset_build(a@.take(i - 1), x);
                assert(r@.to_multiset() =~= a@.take(i as int).to_multiset().add(
                    b@.take(j as int).to_multiset(),
                ));
                assert forall|k: int| 0 <= k < r.len() implies (i < a.len() ==> shown_before(
                    es@,
                    sort,
                    m,
                    desc,
                    #[trigger] r@[k],
                    a@[i as int],
                )) && (j < b.len() ==> shown_before(es@, sort, m, desc, r@[k], b@[j as int])) by {
                    if i < a.len() {
                        assert(shown_before(es@, sort, m, desc, a@[i - 1], a@[i as int]));
                        if k < old_r.len() {
                            lemma_shown_transitive(es@, sort, m, desc, r@[k], x, a@[i as int]);
                        }
                    }
                }
                assert forall|p: int, q: int| 0 <= p < q < r@.len() implies #[trigger] shown_before(
                    es@,
                    sort,
                    m,
                    desc,
                    r@[p],
                    r@[q],
                ) by {
                    if q == old_r.len() {
                        assert(r@[p] == old_r[p]);
                    } else {
                        assert(r@[p] == old_r[p] && r@[q] == old_r[q]);
                    }
                }
            }
        } else {
            let y = b[j];
            proof {
                if i < a.len() {
                    lemma_shown_total(es@, sort, m, desc, a@[i as int], y);
                }
                assert(b@.take(j + 1) =~= b@.take(j as int).push(y));
            }
            r.push(y);
            j = j + 1;
            proof {
                assert(r@ =~= old_r.push(y));
                vstd::seq_lib::to_multiset_build(old_r, y);
                vstd::seq_lib::to_multiset_build(b@.take(j - 1), y);
                assert(r@.to_multiset() =~= a@.take(i as int).to_multiset().add(
                    b@.take(j as int).to_multiset(),
                ));
                assert forall|k: int| 0 <= k < r.len() implies (i < a.len() ==> shown_before(
                    es@,
                    sort,
                    m,
                    desc,
                    #[trigger] r@[k],
                    a@[i as int],
                )) && (j < b.len() ==> shown_before(es@, sort, m, desc, r@[k], b@[j as int])) by {
                    if j < b.len() {
                        assert(shown_before(es@, sort, m, desc, b@[j - 1], b@[j as int]));
                        if k < old_r.len() {
                            lemma_shown_transitive(es@, sort, m, desc, r@[k], y, b@[j as int]);
                        }
                    }
                }
                assert forall|p: int, q: int| 0 <= p < q < r@.len() implies #[trigger] shown_before(
                    es@,
                    sort,
                    m,
                    desc,
                    r@[p],
                    r@[q],
                ) by {
                    if q == old_r.len() {
                        assert(r@[p] == old_r[p]);
                    } else {
                        assert(r@[p] == old_r[p] && r@[q] == old_r[q]);
                    }
                }
            }
        }
    }
    assert(a@.take(a.len() as int) =~= a@);
    assert(b@.take(b.len() as int) =~= b@);
    r
}

fn sort_positions(
    es: &Vec<ListEntry>,
    sort: SortKey,
    m: Metric,
    desc: bool,
    items: Vec<usize>,
) -> (r: Vec<usize>)
    requires
        below(items@, es.len() as nat),
    ensures
        r@.to_multiset() == items@.to_multiset(),
        ordered(es@, sort, m, desc, r@),
        below(r@, es.len() as nat),
    decreases items.len(),
{
    broadcast use vstd::seq_lib::lemma_multiset_commutative;

    if items.len() <= 1 {
        return items;
    }
    let ghost all = items@;
    let mid = items.len() / 2;
    let mut left = items;
    let right = left.split_off(mid);
    assert(all =~= left@ + right@);
    let l = sort_positions(es, sort, m, desc, left);
    let r = sort_positions(es, sort, m, desc, right);
    merge(es, sort, m, desc, l, r)
}

/// The positions of `es` in the order the listing shows them: every position
/// once, sorted by `sort` under `metric`, descending or not.
pub fn order_positions(es: &Vec<ListEntry>, sort: SortKey, metric: Metric, desc: bool) -> (r: Vec<
    usize,
>)
    ensures
        is_listing(es@, sort, metric, desc, r@),
{
    let mut items: Vec<usize> = Vec::new();
    let mut i: usize = 0;
    while i < es.len()
        invariant
            i <= es.len(),
            items@ =~= positions(i as nat),
        decreases es.len() - i,
    {
        items.push(i);
        i = i + 1;
    }
    assert(items@ =~= positions(es.len() as nat));
    sort_positions(es, sort, metric, desc, items)
}

/// The node ids of the children in the order the listing shows them.
pub fn listing(es: &Vec<ListEntry>, sort: SortKey, metric: Metric, desc: bool) -> (r: Vec<NodeId>)
    ensures
        exists|p: Seq<usize>| is_listing(es@, sort, metric, desc, p) && r@ == ids_at(es@, p),
{
    broadcast use vstd::seq_lib::group_to_multiset_ensures;

    let order = order_positions(es, sort, metric, desc);
    let mut r: Vec<NodeId> = Vec::new();
    let mut k: usize = 0;
    while k < order.len()
        invariant
            k <= order.len(),
            is_listing(es@, sort, metric, desc, order@),
            r@ =~= ids_at(es@, order@.take(k as int)),
        decreases order.len() - k,
    {
        let pos = order[k];
        proof {
            assert(order@[k as int] == pos);
            assert(order@.contains(pos));
            vstd::seq_lib::to_multiset_contains(order@, pos);
            vstd::seq_lib::to_multiset_contains(positions(es.len() as nat), pos);
            assert(positions(es.len() as nat).contains(pos));
            let w = choose|w: int| 0 <= w < es.len() && positions(es.len() as nat)[w] == pos;
            assert(pos < es.len());
        }
        r.push(es[pos].id);
        k = k + 1;
        assert(order@.take(k as int) =~= order@.take(k - 1).push(pos));
    }
    assert(order@.take(order.len() as int) =~= order@);
    r
}

// ----- laws of the listing ------------------------------------------------------

proof fn lemma_listing_below(es: Seq<ListEntry>, p: Seq<usize>)
    requires
        p.to_multiset() == positions(es.len()).to_multiset(),
    ensures
        below(p, es.len()),
{
    assert forall|k: int| 0 <= k < p.len() implies #[trigger] p[k] < es.len() by {
        let x = p[k];
        assert(p.contains(x));
        vstd::seq_lib::to_multiset_contains(p, x);
        vstd::seq_lib::to_multiset_contains(positions(es.len()), x);
        let w = choose|w: int| 0 <= w < es.len() && positions(es.len())[w] == x;
    }
}

proof fn lemma_ordered_unique(
    es: Seq<ListEntry>,
    sort: SortKey,
    m: Metric,
    desc: bool,
    p: Seq<usize>,
    q: Seq<usize>,
)
    requires
        ordered(es, sort, m, desc, p),
        ordered(es, sort, m, desc, q),
        p.to_multiset() == q.to_multiset(),
    ensures
        p == q,
    decreases p.len(),
{
    vstd::seq_lib::to_multiset_len(p);
    vstd::seq_lib::to_multiset_len(q);
    if p.len() == 0 {
        assert(p =~= q);
    } else {
        let x = p[0];
        let y = q[0];
        assert(p.contains(x));
        vstd::seq_lib::to_multiset_contains(p, x);
        vstd::seq_lib::to_multiset_contains(q, x);
        let k = choose|k: int| 0 <= k < q.len() && q[k] == x;
        if k > 0 {
            assert(shown_before(es, sort, m, desc, q[0], q[k]));
        }
        assert(q.contains(y));
        vstd::seq_lib::to_multiset_contains(q, y);
        vstd::seq_lib::to_multiset_contains(p, y);
        let l = choose|l: int| 0 <= l < p.len() && p[l] == y;
        if l > 0 {
            assert(shown_before(es, sort, m, desc, p[0], p[l]));
        }
        if x != y {
            lemma_shown_antisymmetric(es, sort, m, desc, x, y);
        }
        let p1 = p.drop_first();
        let q1 = q.drop_first();
        assert(p.remove(0) =~= p1);
        assert(q.remove(0) =~= q1);
        vstd::seq_lib::to_multiset_remove(p, 0);
        vstd::seq_lib::to_multiset_remove(q, 0);
        assert forall|a: int, b: int| 0 <= a < b < p1.len() implies #[trigger] shown_before(
            es,
            sort,
            m,
            desc,
            p1[a],
            p1[b],
        ) by {
            assert(shown_before(es, sort, m, desc, p[a + 1], p[b + 1]));
        }
        assert forall|a: int, b: int| 0 <= a < b < q1.len() implies #[trigger] shown_before(
            es,
            sort,
            m,
            desc,
            q1[a],
            q1[b],
        ) by {
            assert(shown_before(es, sort, m, desc, q[a + 1], q[b + 1]));
        }
        lemma_ordered_unique(es, sort, m, desc, p1, q1);
        assert(p =~= q) by {
            assert forall|a: int| 0 <= a < p.len() implies p[a] == q[a] by {
                if a > 0 {
                    assert(p[a] == p1[a - 1]);
                    assert(q[a] == q1[a - 1]);
                }
            }
        }
    }
}

/// The listing is determined by the entries, the sort key, the metric and the
/// direction: two listings of the same children agree position by position.
pub proof fn lemma_listing_unique(
    es: Seq<ListEntry>,
    sort: SortKey,
    m: Metric,
    desc: bool,
    p: Seq<usize>,
    q: Seq<usize>,
)
    requires
        is_listing(es, sort, m, desc, p),
        is_listing(es, sort, m, desc, q),
    ensures
        p == q,
{
    lemma_ordered_unique(es, sort, m, desc, p, q);
}

/// Switching the direction of a column reverses the listing.
pub proof fn lemma_listing_reverse(
    es: Seq<ListEntry>,
    sort: SortKey,
    m: Metric,
    desc: bool,
    p: Seq<usize>,
    q: Seq<usize>,
)
    requires
        is_listing(es, sort, m, desc, p),
        is_listing(es, sort, m, !desc, q),
    ensures
        q == p.reverse(),
{
    let r = p.reverse();
    let flipped = !desc;
    p.lemma_reverse_to_multiset();
    assert forall|a: int, b: int| 0 <= a < b < r.len() implies #[trigger] shown_before(
        es,
        sort,
        m,
        flipped,
        r[a],
        r[b],
    ) by {
        let n = p.len() as int;
        assert(r[a] == p[n - 1 - a]);
        assert(r[b] == p[n - 1 - b]);
        assert(shown_before(es, sort, m, desc, p[n - 1 - b], p[n - 1 - a]));
    }
    lemma_listing_unique(es, sort, m, !desc, q, r);
}

/// The listing shows every child: as many rows as children, and every
/// child's id among them.
pub proof fn lemma_listing_shows_every_child(
    es: Seq<ListEntry>,
    sort: SortKey,
    m: Metric,
    desc: bool,
    p: Seq<usize>,
)
    requires
        es.len() <= usize::MAX,
        is_listing(es, sort, m, desc, p),
    ensures
        ids_at(es, p).len() == es.len(),
        forall|k: int| 0 <= k < es.len() ==> #[trigger] ids_at(es, p).contains(es[k].id),
{
    vstd::seq_lib::to_multiset_len(p);
    vstd::seq_lib::to_multiset_len(positions(es.len()));
    assert forall|k: int| 0 <= k < es.len() implies #[trigger] ids_at(es, p).contains(es[k].id) by {
        let x = k as usize;
        assert(positions(es.len())[k] == x);
        assert(positions(es.len()).contains(x));
        vstd::seq_lib::to_multiset_contains(positions(es.len()), x);
        vstd::seq_lib::to_multiset_contains(p, x);
        let j = choose|j: int| 0 <= j < p.len() && p[j] == x;
        assert(p[j] as int == k);
        assert(ids_at(es, p)[j] == es[p[j] as int].id);
    }
}


/// A listing by file count runs from most files to fewest when descending
/// and the other way when ascending, equal counts ordered by node id
/// (ascending, resp. descending); the size metric plays no part.
pub proof fn lemma_files_listing_order(
    es: Seq<ListEntry>,
    m: Metric,
    desc: bool,
    p: Seq<usize>,
    a: int,
    b: int,
)
    requires
        is_listing(es, SortKey::Files, m, desc, p),
        0 <= a < b < p.len(),
    ensures
        desc ==> es[p[a] as int].files >= es[p[b] as int].files,
        desc && es[p[a] as int].files == es[p[b] as int].files ==> es[p[a] as int].id <= es[p[b] as int].id,
        !desc ==> es[p[a] as int].files <= es[p[b] as int].files,
        !desc && es[p[a] as int].files == es[p[b] as int].files ==> es[p[a] as int].id >= es[p[b] as int].id,
{
    assert(shown_before(es, SortKey::Files, m, desc, p[a], p[b]));
}

/// Whether a list is in file-count order does not depend on the metric.
pub proof fn lemma_files_listing_ignores_metric(es: Seq<ListEntry>, desc: bool, p: Seq<usize>)
    ensures
        is_listing(es, SortKey::Files, Metric::Allocated, desc, p) == is_listing(
            es,
            SortKey::Files,
            Metric::Logical,
            desc,
            p,
        ),
{
    assert forall|a: int, b: int| 0 <= a < b < p.len() implies shown_before(
        es,
        SortKey::Files,
        Metric::Allocated,
        desc,
        p[a],
        p[b],
    ) == shown_before(es, SortKey::Files, Metric::Logical, desc, p[a], p[b]) by {}
    if is_listing(es, SortKey::Files, Metric::Allocated, desc, p) {
        assert forall|a: int, b: int| 0 <= a < b < p.len() implies #[trigger] shown_before(
            es,
            SortKey::Files,
            Metric::Logical,
            desc,
            p[a],
            p[b],
        ) by {
            assert(shown_before(es, SortKey::Files, Metric::Allocated, desc, p[a], p[b]));
        }
    }
    if is_listing(es, SortKey::Files, Metric::Logical, desc, p) {
        assert forall|a: int, b: int| 0 <= a < b < p.len() implies #[trigger] shown_before(
            es,
            SortKey::Files,
            Metric::Allocated,
            desc,
            p[a],
            p[b],
        ) by {
            assert(shown_before(es, SortKey::Files, Metric::Logical, desc, p[a], p[b]));
        }
    }
}

/// A listing by size runs from largest to smallest under the chosen metric
/// (allocated or logical) when descending and the other way when ascending,
/// equal sizes ordered by node id (ascending, resp. descending).
pub proof fn lemma_size_listing_order(
    es: Seq<ListEntry>,
    m: Metric,
    desc: bool,
    p: Seq<usize>,
    a: int,
    b: int,
)
    requires
        is_listing(es, SortKey::Size, m, desc, p),
        0 <= a < b < p.len(),
    ensures
        ({
            let x = es[p[a] as int];
            let y = es[p[b] as int];
            let (sx, sy) = if m == Metric::Allocated {
                (x.allocated, y.allocated)
            } else {
                (x.logical, y.logical)
            };
            &&& desc ==> sx >= sy
            &&& desc && sx == sy ==> x.id <= y.id
            &&& !desc ==> sx <= sy
            &&& !desc && sx == sy ==> x.id >= y.id
        }),
{
    assert(shown_before(es, SortKey::Size, m, desc, p[a], p[b]));
}

/// A listing by name runs alphabetically by lower-cased name when ascending
/// and backwards when descending; the size metric plays no part.
pub proof fn lemma_name_listing_order(
    es: Seq<ListEntry>,
    m: Metric,
    desc: bool,
    p: Seq<usize>,
    a: int,
    b: int,
)
    requires
        is_listing(es, SortKey::Name, m, desc, p),
        0 <= a < b < p.len(),
    ensures
        !desc ==> !lex_lt(es[p[b] as int].key@, es[p[a] as int].key@),
        desc ==> !lex_lt(es[p[a] as int].key@, es[p[b] as int].key@),
{
    assert(shown_before(es, SortKey::Name, m, desc, p[a], p[b]));
    let (x, y) = (es[p[a] as int].key@, es[p[b] as int].key@);
    lemma_lex_irreflexive(x);
    if lex_lt(x, y) {
        lemma_lex_asymmetric(x, y);
    }
    if lex_lt(y, x) {
        lemma_lex_asymmetric(y, x);
    }
}

} // verus!
