use crate::geom::Vec2i;
use vstd::prelude::*;

verus! {

/// Strict "nearer to `pos`" order on shelf indices: ascending squared
/// Euclidean distance, ties broken by the lower index, that is by the
/// shelves' enumeration order.
pub open spec fn lex_before(pos: Vec2i, shelves: Seq<Vec2i>, i: usize, j: usize) -> bool {
    let di = pos.dist_sq_spec(shelves[i as int]);
    let dj = pos.dist_sq_spec(shelves[j as int]);
    di < dj || (di == dj && i < j)
}

/// The nearest candidate to `pos` among shelf indices below `m` that are
/// not in `chosen`, or `None` when every such index is already chosen.
pub open spec fn best_upto(pos: Vec2i, shelves: Seq<Vec2i>, chosen: Seq<usize>, m: int) -> Option<
    usize,
>
    decreases m,
{
    if m <= 0 {
        None
    } else {
        let prev = best_upto(pos, shelves, chosen, m - 1);
        let j = (m - 1) as usize;
        if chosen.contains(j) {
            prev
        } else {
            match prev {
                None => Some(j),
                Some(b) => if lex_before(pos, shelves, j, b) {
                    Some(j)
                } else {
                    Some(b)
                },
            }
        }
    }
}

/// The rest of the nearest-shelf answer once the indices in `chosen`
/// have already been picked: repeatedly select the nearest remaining
/// index, up to `k` of them.
pub open spec fn nearest_from(pos: Vec2i, shelves: Seq<Vec2i>, k: int, chosen: Seq<usize>) -> Seq<
    usize,
>
    decreases k,
{
    if k <= 0 {
        Seq::empty()
    } else {
        match best_upto(pos, shelves, chosen, shelves.len() as int) {
            None => Seq::empty(),
            Some(b) => seq![b] + nearest_from(pos, shelves, k - 1, chosen.push(b)),
        }
    }
}

/// The up-to-`k` nearest shelf indices to `pos`, ordered by ascending
/// squared distance with ties broken by enumeration order.
pub open spec fn nearest_spec(pos: Vec2i, shelves: Seq<Vec2i>, k: int) -> Seq<usize> {
    nearest_from(pos, shelves, k, Seq::empty())
}

/// What a correct nearest-shelf answer continued after `chosen` looks
/// like: at most `k` indices, each a valid shelf index not yet chosen,
/// strictly ordered by the nearness order, and no skipped candidate:
/// every index left out is at least as far as every index returned.
pub open spec fn nearest_result_ok(
    pos: Vec2i,
    shelves: Seq<Vec2i>,
    k: int,
    chosen: Seq<usize>,
    s: Seq<usize>,
) -> bool {
    &&& s.len() <= k
    &&& (forall|t: int|
        0 <= t < s.len() ==> ((#[trigger] s[t]) as int) < shelves.len() && !chosen.contains(s[t]))
    &&& (forall|t1: int, t2: int|
        0 <= t1 < t2 < s.len() ==> lex_before(pos, shelves, #[trigger] s[t1], #[trigger] s[t2]))
    &&& (forall|t: int, i: usize|
        #![trigger s[t], s.contains(i)]
        0 <= t < s.len() && 0 <= (i as int) < shelves.len() && !chosen.contains(i) && !s.contains(i)
            ==> lex_before(pos, shelves, s[t], i))
}

/// What `best_upto` returns: `None` only when everything below `m` is
/// chosen, otherwise the nearest unchosen index below `m`.
pub proof fn lemma_best_upto(pos: Vec2i, shelves: Seq<Vec2i>, chosen: Seq<usize>, m: int)
    ensures
        best_upto(pos, shelves, chosen, m) is None ==> (forall|i: usize|
            0 <= (i as int) < m ==> chosen.contains(i)),
        best_upto(pos, shelves, chosen, m) matches Some(b) ==> {
            &&& 0 <= (b as int) < m
            &&& !chosen.contains(b)
            &&& (forall|i: usize|
                0 <= (i as int) < m && !chosen.contains(i) && i != b ==> lex_before(
                    pos,
                    shelves,
                    b,
                    i,
                ))
        },
    decreases m,
{
    if m > 0 {
        lemma_best_upto(pos, shelves, chosen, m - 1);
    }
}

/// The canonical nearest-shelf answer is itself a correct answer.
pub proof fn lemma_nearest_from_ok(pos: Vec2i, shelves: Seq<Vec2i>, k: int, chosen: Seq<usize>)
    requires
        k >= 0,
    ensures
        nearest_result_ok(pos, shelves, k, chosen, nearest_from(pos, shelves, k, chosen)),
    decreases k,
{
    let s = nearest_from(pos, shelves, k, chosen);
    let n = shelves.len() as int;
    if k <= 0 {
    } else {
        match best_upto(pos, shelves, chosen, n) {
            None => {},
            Some(b) => {
                lemma_best_upto(pos, shelves, chosen, n);
                let chosen2 = chosen.push(b);
                let s2 = nearest_from(pos, shelves, k - 1, chosen2);
                lemma_nearest_from_ok(pos, shelves, k - 1, chosen2);
                assert(s == seq![b] + s2);
                assert(s.len() == 1 + s2.len());
                assert(s[0] == b);
                assert(forall|t: int| 1 <= t < s.len() ==> s[t] == s2[t - 1]);
                // membership in a pushed sequence
                assert forall|x: usize| #[trigger] chosen2.contains(x) implies (chosen.contains(x)
                    || x == b) by {
                    let t = choose|t: int| 0 <= t < chosen2.len() && chosen2[t] == x;
                    if t < chosen.len() {
                        assert(chosen[t] == x);
                    }
                }
                assert forall|x: usize| chosen.contains(x) implies #[trigger] chosen2.contains(
                    x,
                ) by {
                    let t = choose|t: int| 0 <= t < chosen.len() && chosen[t] == x;
                    assert(chosen2[t] == x);
                }
                assert(chosen2[chosen.len() as int] == b);
                assert(chosen2.contains(b));
                // membership in the concatenation
                assert forall|x: usize| #[trigger] s.contains(x) implies (x == b || s2.contains(
                    x,
                )) by {
                    let t = choose|t: int| 0 <= t < s.len() && s[t] == x;
                    if t > 0 {
                        assert(s2[t - 1] == x);
                    }
                }
                assert forall|x: usize| s2.contains(x) implies #[trigger] s.contains(x) by {
                    let t = choose|t: int| 0 <= t < s2.len() && s2[t] == x;
                    assert(s[t + 1] == x);
                }
                assert(s.contains(b)) by {
                    assert(s[0] == b);
                }
                // each entry is a valid, unchosen index
                assert forall|t: int| 0 <= t < s.len() implies ((#[trigger] s[t]) as int) < n
                    && !chosen.contains(s[t]) by {
                    if t > 0 {
                        assert(s2[t - 1] == s[t]);
                        assert(!chosen2.contains(s2[t - 1]));
                    }
                }
                // strictly ordered by nearness
                assert forall|t1: int, t2: int| 0 <= t1 < t2 < s.len() implies lex_before(
                    pos,
                    shelves,
                    #[trigger] s[t1],
                    #[trigger] s[t2],
                ) by {
                    if t1 == 0 {
                        let x = s2[t2 - 1];
                        assert(!chosen2.contains(x));
                        assert(x != b && !chosen.contains(x));
                    } else {
                        assert(s[t1] == s2[t1 - 1] && s[t2] == s2[t2 - 1]);
                    }
                }
                // nothing nearer was skipped
                assert forall|t: int, i: usize|
                    #![trigger s[t], s.contains(i)]
                    0 <= t < s.len() && 0 <= (i as int) < n && !chosen.contains(i) && !s.contains(
                        i,
                    ) implies lex_before(pos, shelves, s[t], i) by {
                    assert(i != b) by {
                        assert(s.contains(b));
                    }
                    if t == 0 {
                    } else {
                        assert(s[t] == s2[t - 1]);
                        assert(!chosen2.contains(i));
                        assert(!s2.contains(i)) by {
                            if s2.contains(i) {
                                assert(s.contains(i));
                            }
                        }
                    }
                }
            },
        }
    }
}

/// A run of distinct shelf indices below `n` has at most `n` entries;
/// one that also holds every index below `n` has exactly `n`.
proof fn lemma_distinct_indices_len(chosen: Seq<usize>, n: int)
    requires
        0 <= n <= usize::MAX,
        chosen.no_duplicates(),
        forall|t: int| 0 <= t < chosen.len() ==> ((#[trigger] chosen[t]) as int) < n,
    ensures
        chosen.len() <= n,
        (forall|i: usize| 0 <= (i as int) < n ==> chosen.contains(i)) ==> chosen.len() == n,
{
    broadcast use vstd::seq_lib::seq_to_set_is_finite;

    let f = |u: usize| u as int;
    let ints = chosen.map_values(f);
    assert(vstd::relations::injective(f)) by {
        assert forall|x1: usize, x2: usize| #[trigger] f(x1) == #[trigger] f(x2) implies x1
            == x2 by {}
    }
    chosen.lemma_no_duplicates_injective(f);
    ints.unique_seq_to_set();
    assert(ints.len() == chosen.len());
    assert(ints.to_set().subset_of(vstd::set_lib::set_int_range(0, n))) by {
        assert forall|x: int| ints.to_set().contains(x) implies vstd::set_lib::set_int_range(
            0,
            n,
        ).contains(x) by {
            let t = choose|t: int| 0 <= t < ints.len() && ints[t] == x;
            assert(ints[t] == chosen[t] as int);
        }
    }
    vstd::set_lib::lemma_int_range(0, n);
    vstd::set_lib::lemma_len_subset(ints.to_set(), vstd::set_lib::set_int_range(0, n));
    if forall|i: usize| 0 <= (i as int) < n ==> chosen.contains(i) {
        assert(vstd::set_lib::set_int_range(0, n).subset_of(ints.to_set())) by {
            assert forall|x: int| vstd::set_lib::set_int_range(0, n).contains(x) implies ints.to_set().contains(
                x,
            ) by {
                let u = x as usize;
                assert(u as int == x);
                assert(chosen.contains(u));
                let t = choose|t: int| 0 <= t < chosen.len() && chosen[t] == u;
                assert(ints[t] == x);
                assert(ints.contains(x));
            }
        }
        vstd::set_lib::lemma_len_subset(vstd::set_lib::set_int_range(0, n), ints.to_set());
    }
}

/// The canonical answer takes as many shelves as are to be had: `k` of
/// them, or every one not yet chosen when fewer remain.
pub proof fn lemma_nearest_from_len(pos: Vec2i, shelves: Seq<Vec2i>, k: int, chosen: Seq<usize>)
    requires
        k >= 0,
        shelves.len() <= usize::MAX,
        chosen.no_duplicates(),
        forall|t: int| 0 <= t < chosen.len() ==> ((#[trigger] chosen[t]) as int) < shelves.len(),
    ensures
        nearest_from(pos, shelves, k, chosen).len() == (if k <= shelves.len() - chosen.len() {
            k
        } else {
            shelves.len() - chosen.len()
        }),
    decreases k,
{
    let n = shelves.len() as int;
    lemma_distinct_indices_len(chosen, n);
    if k > 0 {
        lemma_best_upto(pos, shelves, chosen, n);
        match best_upto(pos, shelves, chosen, n) {
            None => {
                assert(chosen.len() == n);
            },
            Some(b) => {
                let chosen2 = chosen.push(b);
                assert(chosen2.no_duplicates()) by {
                    assert forall|i: int, j: int|
                        0 <= i < chosen2.len() && 0 <= j < chosen2.len() && i != j implies chosen2[i]
                        != chosen2[j] by {
                        if i < chosen.len() && j < chosen.len() {
                        } else if j == chosen.len() {
                            assert(chosen2[i] == chosen[i]);
                            if chosen2[i] == b {
                                assert(chosen.contains(b));
                            }
                        } else {
                            assert(chosen2[j] == chosen[j]);
                            if chosen2[j] == b {
                                assert(chosen.contains(b));
                            }
                        }
                    }
                }
                assert(forall|t: int|
                    0 <= t < chosen2.len() ==> ((#[trigger] chosen2[t]) as int) < n);
                lemma_nearest_from_len(pos, shelves, k - 1, chosen2);
            },
        }
    }
}

/// The query returns `k` shelves, or all of them when the level has
/// fewer than `k`.
pub proof fn lemma_nearest_spec_len(pos: Vec2i, shelves: Seq<Vec2i>, k: int)
    requires
        k >= 0,
        shelves.len() <= usize::MAX,
    ensures
        nearest_spec(pos, shelves, k).len() == (if k <= shelves.len() {
            k
        } else {
            shelves.len() as int
        }),
{
    lemma_nearest_from_len(pos, shelves, k, Seq::empty());
}

/// Nearest-shelf determinism: the answer is a pure function of the
/// shopper position and the shelf positions, so repeated queries over an
/// unchanged level agree exactly, element by element.
pub proof fn lemma_nearest_deterministic(
    pos: Vec2i,
    shelves: Seq<Vec2i>,
    k: int,
    r1: Seq<usize>,
    r2: Seq<usize>,
)
    requires
        r1 == nearest_spec(pos, shelves, k),
        r2 == nearest_spec(pos, shelves, k),
    ensures
        r1 == r2,
{
}

/// Whether `v` holds the index `x`.
fn contains_idx(v: &Vec<usize>, x: usize) -> (r: bool)
    ensures
        r == v@.contains(x),
{
    let mut t: usize = 0;
    while t < v.len()
        invariant
            0 <= t <= v@.len(),
            forall|s: int| 0 <= s < t ==> v@[s] != x,
        decreases v@.len() - t,
    {
        if v[t] == x {
            return true;
        }
        t = t + 1;
    }
    false
}

/// The up-to-`k` nearest shelves to `pos`, as indices into `shelves`,
/// ordered by ascending squared distance with ties broken by enumeration
/// order. With no shelves the answer is empty and the caller defers its
/// decision; it never fails.
#[verifier::loop_isolation(false)]
pub fn nearest(pos: &Vec2i, shelves: &Vec<Vec2i>, k: usize) -> (r: Vec<usize>)
    requires
        pos.in_bounds(),
        forall|i: int| 0 <= i < shelves@.len() ==> (#[trigger] shelves@[i]).in_bounds(),
    ensures
        r@ == nearest_spec(*pos, shelves@, k as int),
        nearest_result_ok(*pos, shelves@, k as int, Seq::empty(), r@),
        r@.len() == (if k as int <= shelves@.len() {
            k as int
        } else {
            shelves@.len() as int
        }),
{
    let n = shelves.len();
    let mut r: Vec<usize> = Vec::new();
    let mut done = false;
    while !done && r.len() < k
        invariant
            r@.len() <= k,
            nearest_spec(*pos, shelves@, k as int) == r@ + nearest_from(
                *pos,
                shelves@,
                k - r@.len(),
                r@,
            ),
            forall|t: int| 0 <= t < r@.len() ==> ((#[trigger] r@[t]) as int) < n,
            done ==> best_upto(*pos, shelves@, r@, n as int) is None,
        decreases k - r@.len(), (if done {
            0int
        } else {
            1int
        }),
    {
        assert(r@ + nearest_from(*pos, shelves@, k - r@.len(), r@) == nearest_spec(
            *pos,
            shelves@,
            k as int,
        ));
        let ghost chosen = r@;
        // find the nearest shelf not yet picked
        let mut best: Option<usize> = None;
        let mut j: usize = 0;
        while j < n
            invariant
                0 <= j <= n,
                r@ == chosen,
                best == best_upto(*pos, shelves@, chosen, j as int),
            decreases n - j,
        {
            proof {
                lemma_best_upto(*pos, shelves@, chosen, j as int);
            }
            if !contains_idx(&r, j) {
                let dj = pos.dist_sq(&shelves[j]);
                match best {
                    None => {
                        best = Some(j);
                    },
                    Some(b) => {
                        let db = pos.dist_sq(&shelves[b]);
                        if dj < db || (dj == db && j < b) {
                            best = Some(j);
                        }
                    },
                }
            }
            j = j + 1;
        }
        match best {
            None => {
                done = true;
            },
            Some(b) => {
                proof {
                    lemma_best_upto(*pos, shelves@, chosen, n as int);
                    let rest = nearest_from(*pos, shelves@, k - r@.len() - 1, r@.push(b));
                    assert(nearest_from(*pos, shelves@, k - r@.len(), r@) == seq![b] + rest);
                    assert(r@ + (seq![b] + rest) =~= r@.push(b) + rest);
                }
                r.push(b);
            },
        }
    }
    proof {
        assert(nearest_from(*pos, shelves@, k - r@.len(), r@) =~= Seq::<usize>::empty());
        assert(r@ + Seq::<usize>::empty() =~= r@);
        lemma_nearest_from_ok(*pos, shelves@, k as int, Seq::empty());
        lemma_nearest_spec_len(*pos, shelves@, k as int);
    }
    r
}

} // verus!
