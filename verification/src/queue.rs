//! The draw queue: the objects of one frame and the order of their
//! submission.
//!
//! Objects that are not blended come first, the nearest of them at the front,
//! so that what they cover is rejected by the depth test. Blended objects
//! follow, the farthest first, so that each is laid over what lies behind it.
//! Objects that tie keep the order in which they were queued.

use vstd::prelude::*;
use std::cmp::Ordering;
use vstd::seq_lib::{to_multiset_contains, to_multiset_update};
use vstd::set_lib::{lemma_int_range, lemma_len_subset, lemma_subset_equality, set_int_range};
use crate::view::DepthKey;

verus! {

/// What the order of submission depends on.
#[derive(Clone, Copy, Debug, PartialEq, Eq, Hash, Structural)]
pub struct SortKey {
    /// Whether the object is blended with what lies behind it.
    pub blended: bool,
    /// The key of the object's depth; smaller is nearer.
    pub depth: DepthKey,
}

impl SortKey {
    /// Whether an object with this key has to be drawn before one with the
    /// other key.
    pub open spec fn before(self, other: SortKey) -> bool {
        if self.blended != other.blended {
            !self.blended
        } else if self.blended {
            self.depth > other.depth
        } else {
            self.depth < other.depth
        }
    }

    /// Tells whether an object with this key has to be drawn before one with
    /// the other key.
    pub fn draws_before(&self, other: &SortKey) -> (b: bool)
        ensures
            b == self.before(*other),
    {
        if self.blended != other.blended {
            !self.blended
        } else if self.blended {
            self.depth > other.depth
        } else {
            self.depth < other.depth
        }
    }
}

/// How two keys stand to each other in the order of submission.
pub open spec fn ranking(a: SortKey, b: SortKey) -> Ordering {
    if a.before(b) {
        Ordering::Less
    } else if b.before(a) {
        Ordering::Greater
    } else {
        Ordering::Equal
    }
}

/// The ranking of two keys turns round when the objects change
/// places, and two keys rank equal only where they are the same key.
pub proof fn lemma_ranking_turns_round(a: SortKey, b: SortKey)
    ensures
        ranking(a, b) == Ordering::Less <==> ranking(b, a) == Ordering::Greater,
        ranking(a, b) == Ordering::Equal <==> a == b,
{
}

/// The ranking carries over a third object.
pub proof fn lemma_ranking_carries_over(a: SortKey, b: SortKey, c: SortKey)
    requires
        ranking(a, b) != Ordering::Greater,
        ranking(b, c) != Ordering::Greater,
    ensures
        ranking(a, c) != Ordering::Greater,
{
}

/// A blended object comes after one that is not blended, whatever their
/// depths are.
pub proof fn lemma_blended_comes_last(a: SortKey, b: SortKey)
    requires
        a.blended,
        !b.blended,
    ensures
        ranking(a, b) == Ordering::Greater,
        ranking(b, a) == Ordering::Less,
{
}

/// An object that can be queued.
pub trait Keyed {
    /// The key by which the object is ordered.
    spec fn key(&self) -> SortKey;

    /// Computes the key by which the object is ordered.
    fn sort_key(&self) -> (k: SortKey)
        ensures
            k == self.key(),
    ;
}

/// No object has to be drawn before one that stands in front of it.
pub open spec fn sorted<T: Keyed>(s: Seq<T>) -> bool {
    forall|i: int, j: int| 0 <= i < j < s.len() ==> !(#[trigger] s[j]).key().before((#[trigger] s[i]).key())
}

/// No blended object stands in front of one that is not blended.
pub open spec fn opaque_first<T: Keyed>(s: Seq<T>) -> bool {
    forall|i: int, j: int|
        0 <= i < j < s.len() ==> !((#[trigger] s[i]).key().blended && !(#[trigger] s[j]).key().blended)
}

/// `to` holds the objects of `from`, each once: the object at `i` is the one
/// that stood at `p[i]`.
pub open spec fn arranges<T>(p: Seq<int>, from: Seq<T>, to: Seq<T>) -> bool {
    &&& p.len() == from.len()
    &&& to.len() == from.len()
    &&& forall|i: int| 0 <= i < p.len() ==> 0 <= #[trigger] p[i] < p.len() && to[i] == from[p[i]]
    &&& forall|i: int, j: int| 0 <= i < j < p.len() ==> #[trigger] p[i] != #[trigger] p[j]
}

/// Objects with the same key stand in `to` as they stood in `from`.
pub open spec fn keeps_ties<T: Keyed>(p: Seq<int>, to: Seq<T>) -> bool {
    forall|i: int, j: int|
        0 <= i < j < p.len() && to[i].key() == to[j].key() ==> #[trigger] p[i] < #[trigger] p[j]
}

/// `to` is `from` in the order of submission.
pub open spec fn draw_order<T: Keyed>(from: Seq<T>, to: Seq<T>) -> bool {
    &&& sorted(to)
    &&& to.to_multiset() == from.to_multiset()
    &&& exists|p: Seq<int>| arranges(p, from, to) && keeps_ties(p, to)
}

/// Of two keys one stands before the other, or they are the same key.
pub proof fn lemma_before_is_total(a: SortKey, b: SortKey)
    ensures
        a.before(b) || b.before(a) || a == b,
        !(a.before(b) && b.before(a)),
        !a.before(a),
{
}

/// What stands before a key stands before everything after that key.
pub proof fn lemma_before_is_transitive(a: SortKey, b: SortKey, c: SortKey)
    ensures
        a.before(b) && b.before(c) ==> a.before(c),
        !b.before(a) && !c.before(b) ==> !c.before(a),
{
}

/// In a sorted queue every object that is not blended stands in front of
/// every blended one.
pub proof fn lemma_sorted_is_opaque_first<T: Keyed>(s: Seq<T>)
    requires
        sorted(s),
    ensures
        opaque_first(s),
{
    assert forall|i: int, j: int| 0 <= i < j < s.len() implies !((#[trigger] s[i]).key().blended && !(
    #[trigger] s[j]).key().blended) by {
        assert(!s[j].key().before(s[i].key()));
    }
}

/// Where every place of a list is given a place of the same list, and no
/// place is given twice, every place is given.
proof fn lemma_every_place_is_given(p: Seq<int>, v: int)
    requires
        forall|i: int| 0 <= i < p.len() ==> 0 <= #[trigger] p[i] < p.len(),
        forall|i: int, j: int| 0 <= i < j < p.len() ==> #[trigger] p[i] != #[trigger] p[j],
        0 <= v < p.len(),
    ensures
        exists|i: int| 0 <= i < p.len() && p[i] == v,
{
    let places = set_int_range(0, p.len() as int);
    assert(p.no_duplicates()) by {
        assert forall|i: int, j: int| 0 <= i < p.len() && 0 <= j < p.len() && i != j implies p[i]
            != p[j] by {
            if i < j {
                assert(p[i] != p[j]);
            } else {
                assert(p[j] != p[i]);
            }
        }
    }
    p.unique_seq_to_set();
    lemma_int_range(0, p.len() as int);
    assert(p.to_set().subset_of(places)) by {
        assert forall|a: int| p.to_set().contains(a) implies places.contains(a) by {
            let i = choose|i: int| 0 <= i < p.len() && p[i] == a;
            assert(0 <= p[i] < p.len());
        }
    }
    lemma_len_subset(p.to_set(), places);
    lemma_subset_equality(p.to_set(), places);
    assert(places.contains(v));
    assert(p.to_set().contains(v));
    assert(p.contains(v));
}

/// Two arrangements of the same objects in the order of submission agree
/// in every place up to `k`.
proof fn lemma_same_arrangement<T: Keyed>(
    from: Seq<T>,
    a: Seq<T>,
    b: Seq<T>,
    p: Seq<int>,
    q: Seq<int>,
    k: int,
)
    requires
        arranges(p, from, a),
        keeps_ties(p, a),
        sorted(a),
        arranges(q, from, b),
        keeps_ties(q, b),
        sorted(b),
        0 <= k < from.len(),
    ensures
        forall|m: int| 0 <= m <= k ==> #[trigger] p[m] == q[m],
    decreases k,
{
    if k > 0 {
        lemma_same_arrangement(from, a, b, p, q, k - 1);
    }
    if p[k] != q[k] {
        lemma_every_place_is_given(q, p[k]);
        let m = choose|m: int| 0 <= m < q.len() && q[m] == p[k];
        lemma_every_place_is_given(p, q[k]);
        let l = choose|l: int| 0 <= l < p.len() && p[l] == q[k];
        assert(m > k) by {
            if m < k {
                assert(p[m] == q[m]);
                assert(p[m] != p[k]);
            }
        }
        assert(l > k) by {
            if l < k {
                assert(p[l] == q[l]);
                assert(q[l] != q[k]);
            }
        }
        // in `b` the object from `q[k]` stands before the one from `p[k]`,
        // and in `a` it stands behind it
        assert(b[k] == from[q[k]] && b[m] == from[p[k]]);
        assert(a[k] == from[p[k]] && a[l] == from[q[k]]);
        assert(!b[m].key().before(b[k].key()));
        assert(!a[l].key().before(a[k].key()));
        lemma_before_is_total(from[p[k]].key(), from[q[k]].key());
        assert(from[p[k]].key() == from[q[k]].key());
        assert(q[k] < q[m]);
        assert(p[k] < p[l]);
        assert(false);
    }
}

/// The order of submission is one: two arrangements of the same objects
/// that are both sorted and both keep the order of the objects that tie are
/// the same.
pub proof fn lemma_draw_order_is_one<T: Keyed>(from: Seq<T>, a: Seq<T>, b: Seq<T>)
    requires
        draw_order(from, a),
        draw_order(from, b),
    ensures
        a == b,
{
    let p = choose|p: Seq<int>| arranges(p, from, a) && keeps_ties(p, a);
    let q = choose|q: Seq<int>| arranges(q, from, b) && keeps_ties(q, b);
    if from.len() > 0 {
        lemma_same_arrangement(from, a, b, p, q, from.len() - 1);
    }
    assert forall|i: int| 0 <= i < a.len() implies a[i] == b[i] by {
        assert(p[i] == q[i]);
    }
    assert(a =~= b);
}

/// The objects up to `end` are in the order of submission but for the one at
/// `hole`, and those of them with the same key stand as they stood at first.
spec fn settled<T: Keyed>(s: Seq<T>, p: Seq<int>, end: int, hole: int) -> bool {
    forall|a: int, b: int|
        0 <= a < b < end && a != hole && b != hole ==> !(#[trigger] s[b]).key().before(
            (#[trigger] s[a]).key(),
        ) && (s[a].key() == s[b].key() ==> p[a] < p[b])
}

/// Puts the objects into the order of submission. Objects with the same key
/// keep their order. Each object is moved forward past those that have to be
/// drawn after it, so the work grows with the number of pairs that stand in
/// the wrong order.
pub fn sort<T: Keyed + Copy>(v: &mut Vec<T>)
    ensures
        draw_order(old(v)@, final(v)@),
{
    let n = v.len();
    let ghost from = v@;
    let ghost mut p: Seq<int> = Seq::new(n as nat, |k: int| k);
    let mut i: usize = 0;
    while i < n
        invariant
            i <= n,
            n == v@.len(),
            arranges(p, from, v@),
            v@.to_multiset() == from.to_multiset(),
            settled(v@, p, i as int, -1),
            forall|k: int| 0 <= k < i ==> #[trigger] p[k] < i,
            forall|k: int| i <= k < n ==> #[trigger] p[k] == k,
        decreases n - i,
    {
        let mut j: usize = i;
        while j > 0 && v[j].sort_key().draws_before(&v[j - 1].sort_key())
            invariant
                j <= i < n,
                n == v@.len(),
                arranges(p, from, v@),
                v@.to_multiset() == from.to_multiset(),
                settled(v@, p, i + 1, j as int),
                forall|b: int| j < b <= i ==> v@[j as int].key().before((#[trigger] v@[b]).key()),
                forall|k: int| 0 <= k <= i && k != j ==> #[trigger] p[k] < i,
                p[j as int] == i,
                forall|k: int| i < k < n ==> #[trigger] p[k] == k,
            decreases j,
        {
            let moved = v[j];
            let passed = v[j - 1];
            let ghost before_swap = v@;
            let ghost q = p;
            v.set(j, passed);
            v.set(j - 1, moved);
            proof {
                p = q.update(j as int, q[j - 1]).update(j - 1, q[j as int]);
                to_multiset_update(before_swap, j as int, passed);
                to_multiset_update(before_swap.update(j as int, passed), j - 1, moved);
                assert(v@ == before_swap.update(j as int, passed).update(j - 1, moved));
                assert(v@.to_multiset() =~= before_swap.to_multiset()) by {
                    broadcast use vstd::multiset::group_multiset_axioms;

                    to_multiset_contains(before_swap, moved);
                    to_multiset_contains(before_swap, passed);
                    assert(before_swap.contains(moved)) by {
                        assert(before_swap[j as int] == moved);
                    }
                    assert(before_swap.contains(passed)) by {
                        assert(before_swap[j - 1] == passed);
                    }
                }
                assert(settled(v@, p, i + 1, j - 1)) by {
                    assert forall|a: int, b: int|
                        0 <= a < b < i + 1 && a != j - 1 && b != j - 1 implies !(#[trigger] v@[b]).key().before(
                        (#[trigger] v@[a]).key()) && (v@[a].key() == v@[b].key() ==> p[a] < p[b]) by {
                        let a0 = if a == j { j - 1 } else { a };
                        let b0 = if b == j { j - 1 } else { b };
                        assert(v@[a] == before_swap[a0]);
                        assert(v@[b] == before_swap[b0]);
                        assert(p[a] == q[a0]);
                        assert(p[b] == q[b0]);
                        assert(a0 < b0);
                    }
                }
                assert forall|b: int| j - 1 < b <= i implies v@[j - 1].key().before(
                    (#[trigger] v@[b]).key(),
                ) by {
                    if b > j {
                        assert(v@[b] == before_swap[b]);
                    }
                }
            }
            j -= 1;
        }
        proof {
            let x = v@[j as int].key();
            assert(settled(v@, p, i + 1, -1)) by {
                assert forall|a: int, b: int| 0 <= a < b < i + 1 implies !(#[trigger] v@[b]).key().before(
                    (#[trigger] v@[a]).key(),
                ) && (v@[a].key() == v@[b].key() ==> p[a] < p[b]) by {
                    if b == j {
                        if a < j - 1 {
                            lemma_before_is_transitive(v@[a].key(), v@[j - 1].key(), x);
                        }
                    } else if a == j {
                        lemma_before_is_total(x, v@[b].key());
                    }
                }
            }
        }
        i += 1;
    }
    proof {
        assert(sorted(v@));
        assert(keeps_ties(p, v@));
    }
}

/// The objects of a frame, in the order in which they were queued.
pub struct Queue<T> {
    objects: Vec<T>,
}

impl<T: Keyed + Copy> Queue<T> {
    /// The queued objects, oldest first.
    pub closed spec fn view(&self) -> Seq<T> {
        self.objects@
    }

    /// Create an empty queue.
    pub fn new() -> (q: Queue<T>)
        ensures
            q@ == Seq::<T>::empty(),
    {
        Queue { objects: Vec::new() }
    }

    /// The number of queued objects.
    pub fn len(&self) -> (n: usize)
        ensures
            n == self@.len(),
    {
        self.objects.len()
    }

    /// Adds an object at the end of the queue.
    pub fn push(&mut self, object: T)
        ensures
            final(self)@ == old(self)@.push(object),
    {
        self.objects.push(object);
    }

    /// Takes all objects out of the queue, in the order of submission.
    pub fn flush(&mut self) -> (out: Vec<T>)
        ensures
            final(self)@ == Seq::<T>::empty(),
            draw_order(old(self)@, out@),
            opaque_first(out@),
    {
        let mut out: Vec<T> = Vec::new();
        std::mem::swap(&mut self.objects, &mut out);
        sort(&mut out);
        proof {
            lemma_sorted_is_opaque_first(out@);
        }
        out
    }
}

} // verus!
