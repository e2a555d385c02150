//! Drawing distinct indices (judges, UBI recipients) from a revealed
//! 32-byte random value.
use crate::utils::{hash_pair, sha256_hash};
use vstd::arithmetic::power::pow;
use std::collections::HashSet;
use vstd::prelude::*;

verus! {

/// The number that a byte string denotes, most significant byte first.
pub open spec fn be_value(bytes: Seq<u8>) -> nat
    decreases bytes.len(),
{
    if bytes.len() == 0 {
        0
    } else {
        be_value(bytes.drop_last()) * 256 + bytes.last() as nat
    }
}

/// The `i`-th number drawn from a random value: its bytes `6i .. 6i + 6`,
/// most significant first.
pub open spec fn drawn_number(random: Seq<u8>, i: int) -> nat {
    be_value(random.subrange(6 * i, 6 * i + 6))
}

/// The seed that salts every draw: the product of the last two bytes.
pub open spec fn drawn_seed(random: Seq<u8>) -> nat {
    random[30] as nat * random[31] as nat
}

/// The `i`-th candidate index: the hash of the `i`-th drawn number and the
/// seed, reduced modulo the population.
pub open spec fn drawn_index(random: Seq<u8>, i: int, population: u64) -> u64 {
    (hash_pair(drawn_number(random, i) as u64, drawn_seed(random) as u64) % population) as u64
}

/// The first `count` candidate indices of a random value.
pub open spec fn drawn_candidates(random: Seq<u8>, population: u64, count: nat) -> Seq<u64> {
    Seq::new(count, |i: int| drawn_index(random, i, population))
}

/// Walks `candidates` in order and appends to `chosen + fresh` each candidate
/// not yet in `fresh`, stopping as soon as the list holds exactly `limit`
/// entries. Only candidates picked in this walk count as already taken: the
/// entries of `chosen` do not.
pub open spec fn pick_fresh(chosen: Seq<u64>, fresh: Seq<u64>, candidates: Seq<u64>, limit: nat) -> Seq<u64>
    decreases candidates.len(),
{
    if candidates.len() == 0 || chosen.len() + fresh.len() == limit {
        chosen + fresh
    } else if fresh.contains(candidates[0]) {
        pick_fresh(chosen, fresh, candidates.drop_first(), limit)
    } else {
        pick_fresh(chosen, fresh.push(candidates[0]), candidates.drop_first(), limit)
    }
}

/// The indices `0, 1, ..., n - 1`.
pub open spec fn first_indices(n: nat) -> Seq<u64> {
    Seq::new(n, |i: int| i as u64)
}

/// The outcome of a draw. Without a revealed value the list stays as it is.
/// With one, a population smaller than `limit` is taken whole; otherwise
/// `limit` candidates are drawn and the fresh ones appended to `existing`.
pub open spec fn selection(existing: Seq<u64>, random: Option<[u8; 32]>, population: u64, limit: u64) -> Seq<u64> {
    match random {
        None => existing,
        Some(r) => if population < limit {
            first_indices(population as nat)
        } else {
            pick_fresh(existing, Seq::empty(), drawn_candidates(r@, population, limit as nat), limit as nat)
        },
    }
}

proof fn lemma_be_value_bound(bytes: Seq<u8>)
    ensures
        be_value(bytes) < pow(256, bytes.len()),
    decreases bytes.len(),
{
    reveal(pow);
    if bytes.len() > 0 {
        let rest = bytes.drop_last();
        lemma_be_value_bound(rest);
        let r = be_value(rest);
        let p = pow(256, rest.len());
        assert(pow(256, bytes.len()) == 256 * p);
        let b = bytes.last() as nat;
        assert(r * 256 + b < 256 * p) by (nonlinear_arith)
            requires
                b < 256,
                r < p,
        ;
    }
}

/// The `i`-th drawn number of `random` (the fold `(acc << 8) | byte` over
/// bytes `6i .. 6i + 6`).
pub fn drawn_number_at(random: &[u8; 32], i: u64) -> (number: u64)
    requires
        i < 5,
    ensures
        number as nat == drawn_number(random@, i as int),
{
    let start: usize = (i as usize) * 6;
    let mut number: u64 = 0;
    let mut j: usize = 0;
    assert(random@.subrange(start as int, start as int) =~= Seq::<u8>::empty());
    while j < 6
        invariant
            j <= 6,
            start + 6 <= 32,
            start == 6 * i,
            number as nat == be_value(random@.subrange(start as int, (start + j) as int)),
        decreases 6 - j,
    {
        let ghost head = random@.subrange(start as int, (start + j) as int);
        proof {
            lemma_be_value_bound(head);
            vstd::arithmetic::power::lemma_pow_increases(256, head.len(), 5);
            assert(pow(256, 5) == 1099511627776) by {
                reveal_with_fuel(pow, 6);
            }
        }
        let byte = random[start + j];
        assert(random@.subrange(start as int, (start + j + 1) as int).drop_last() =~= head);
        assert(number * 256 + byte < 0x1_0000_0000_0000_0000) by (nonlinear_arith)
            requires
                number < 1099511627776,
                byte < 256,
        ;
        number = number * 256 + byte as u64;
        j = j + 1;
    }
    number
}

/// Hashes the first `count` drawn numbers of `random` with its seed and
/// reduces each modulo `population`.
pub fn draw_candidates(random: &[u8; 32], population: u64, count: u64) -> (candidates: Vec<u64>)
    requires
        count <= 5,
        count == 0 || population > 0,
    ensures
        candidates@ == drawn_candidates(random@, population, count as nat),
{
    let high = random[30] as u64;
    let low = random[31] as u64;
    assert(high * low <= 255 * 255) by (nonlinear_arith)
        requires
            high <= 255,
            low <= 255,
    ;
    let seed: u64 = high * low;
    let mut candidates: Vec<u64> = Vec::new();
    let mut i: u64 = 0;
    while i < count
        invariant
            i <= count,
            count <= 5,
            count == 0 || population > 0,
            seed as nat == drawn_seed(random@),
            candidates@ =~= drawn_candidates(random@, population, i as nat),
        decreases count - i,
    {
        let number = drawn_number_at(random, i);
        let hashed = sha256_hash(number, seed);
        candidates.push(hashed % population);
        i = i + 1;
    }
    candidates
}

/// Whether `index` occurs in `list`.
pub fn contains_index(list: &Vec<u64>, index: u64) -> (found: bool)
    ensures
        found == list@.contains(index),
{
    let mut k: usize = 0;
    while k < list.len()
        invariant
            k <= list.len(),
            forall|m: int| 0 <= m < k ==> list@[m] != index,
        decreases list.len() - k,
    {
        if list[k] == index {
            assert(list@[k as int] == index);
            return true;
        }
        k = k + 1;
    }
    false
}

/// A copy of a list of indices.
pub fn copy_indices(list: &Vec<u64>) -> (copy: Vec<u64>)
    ensures
        copy@ == list@,
{
    let mut copy: Vec<u64> = Vec::new();
    let mut k: usize = 0;
    while k < list.len()
        invariant
            k <= list.len(),
            copy@ =~= list@.subrange(0, k as int),
        decreases list.len() - k,
    {
        copy.push(list[k]);
        k = k + 1;
    }
    assert(copy@ =~= list@);
    copy
}

/// Appends to `chosen` each candidate not picked before in this call,
/// stopping once the list holds exactly `limit` entries. The candidates
/// picked so far are kept in a `HashSet`.
pub fn pick_fresh_indices(chosen: Vec<u64>, candidates: &Vec<u64>, limit: u64) -> (picked: Vec<u64>)
    ensures
        picked@ == pick_fresh(chosen@, Seq::empty(), candidates@, limit as nat),
{
    let ghost base = chosen@;
    let mut picked = chosen;
    let mut unique: HashSet<u64> = HashSet::new();
    let ghost mut fresh: Seq<u64> = Seq::empty();
    let mut k: usize = 0;
    let n = candidates.len();
    assert(candidates@.subrange(0, n as int) =~= candidates@);
    while k < n && (picked.len() as u64) != limit
        invariant
            k <= n,
            n == candidates@.len(),
            picked@ == base + fresh,
            forall|x: u64| unique@.contains(x) <==> fresh.contains(x),
            pick_fresh(base, fresh, candidates@.subrange(k as int, n as int), limit as nat)
                == pick_fresh(base, Seq::empty(), candidates@, limit as nat),
        decreases n - k,
    {
        let candidate = candidates[k];
        let ghost rest = candidates@.subrange(k as int, n as int);
        assert(rest.drop_first() =~= candidates@.subrange(k + 1, n as int));
        assert(rest[0] == candidate);
        let ghost before = unique@;
        let inserted = unique.insert(candidate);
        assert(unique@ == before.insert(candidate));
        assert(inserted == !before.contains(candidate));
        if inserted {
            picked.push(candidate);
            proof {
                let grown = fresh.push(candidate);
                assert forall|x: u64| unique@.contains(x) <==> grown.contains(x) by {
                    assert(before.contains(x) <==> fresh.contains(x));
                    if x == candidate {
                        assert(grown[fresh.len() as int] == candidate);
                    } else {
                        if grown.contains(x) {
                            let m = choose|m: int| 0 <= m < grown.len() && grown[m] == x;
                            assert(m < fresh.len());
                            assert(fresh[m] == x);
                        }
                        if fresh.contains(x) {
                            let m = choose|m: int| 0 <= m < fresh.len() && fresh[m] == x;
                            assert(grown[m] == x);
                        }
                    }
                }
                fresh = grown;
            }
            assert(picked@ =~= base + fresh);
        }
        k = k + 1;
    }
    assert(candidates@.subrange(k as int, n as int).len() == 0 || base.len() + fresh.len() == limit);
    picked
}

/// Draws up to `limit` indices below `population` from a revealed random
/// value and appends them to `existing` (see `selection`).
pub fn select_indices(existing: Vec<u64>, random: Option<[u8; 32]>, population: u64, limit: u64) -> (chosen: Vec<u64>)
    requires
        limit <= 5,
    ensures
        chosen@ == selection(existing@, random, population, limit),
{
    match random {
        None => existing,
        Some(r) => {
            if population < limit {
                let mut all: Vec<u64> = Vec::new();
                let mut i: u64 = 0;
                while i < population
                    invariant
                        i <= population,
                        all@ =~= first_indices(i as nat),
                    decreases population - i,
                {
                    all.push(i);
                    i = i + 1;
                }
                all
            } else {
                let candidates = draw_candidates(&r, population, limit);
                pick_fresh_indices(existing, &candidates, limit)
            }
        },
    }
}

/// Every entry of `list` is below `bound`.
pub open spec fn all_below(list: Seq<u64>, bound: u64) -> bool {
    forall|i: int| 0 <= i < list.len() ==> list[i] < bound
}

/// What a walk of `pick_fresh` from `chosen + fresh` yields: the list it
/// started from, followed by distinct candidates, with the bounds on length.
pub open spec fn extends_with_fresh(
    chosen: Seq<u64>,
    fresh: Seq<u64>,
    candidates: Seq<u64>,
    limit: nat,
    result: Seq<u64>,
) -> bool {
    let start = chosen.len() + fresh.len();
    &&& start <= result.len() <= start + candidates.len()
    &&& result.subrange(0, start as int) == chosen + fresh
    &&& result.subrange(chosen.len() as int, result.len() as int).no_duplicates()
    &&& forall|j: int| start <= j < result.len() ==> candidates.contains(#[trigger] result[j])
    &&& start <= limit ==> result.len() <= limit
}

proof fn lemma_pick_fresh_extends(chosen: Seq<u64>, fresh: Seq<u64>, candidates: Seq<u64>, limit: nat)
    requires
        fresh.no_duplicates(),
    ensures
        extends_with_fresh(chosen, fresh, candidates, limit, pick_fresh(chosen, fresh, candidates, limit)),
    decreases candidates.len(),
{
    let result = pick_fresh(chosen, fresh, candidates, limit);
    let start = chosen.len() + fresh.len();
    if candidates.len() == 0 || start == limit {
        assert(result.subrange(0, start as int) =~= chosen + fresh);
        assert(result.subrange(chosen.len() as int, result.len() as int) =~= fresh);
    } else {
        let head = candidates[0];
        let rest = candidates.drop_first();
        assert forall|x: u64| rest.contains(x) implies candidates.contains(x) by {
            let k = choose|k: int| 0 <= k < rest.len() && rest[k] == x;
            assert(candidates[k + 1] == x);
        }
        if fresh.contains(head) {
            lemma_pick_fresh_extends(chosen, fresh, rest, limit);
        } else {
            let grown = fresh.push(head);
            assert forall|a: int, b: int| 0 <= a < grown.len() && 0 <= b < grown.len() && a != b
                implies grown[a] != grown[b] by {
                if a == fresh.len() {
                    assert(grown[b] == fresh[b]);
                } else if b == fresh.len() {
                    assert(grown[a] == fresh[a]);
                }
            }
            lemma_pick_fresh_extends(chosen, grown, rest, limit);
            assert(result.subrange(0, start + 1 as int) == chosen + grown);
            assert(result.subrange(0, start as int) =~= (chosen + grown).subrange(0, start as int));
            assert((chosen + grown).subrange(0, start as int) =~= chosen + fresh);
            assert(result[start as int] == (chosen + grown)[start as int]);
            assert(candidates.contains(head));
        }
    }
}

/// Law: indices drawn into an empty list are distinct, all below the
/// population, at most `limit` of them, and at least one whenever the
/// population and `limit` are positive.
pub proof fn lemma_fresh_draw_is_distinct_and_in_range(random: [u8; 32], population: u64, limit: u64)
    ensures
        selection(Seq::empty(), Some(random), population, limit).no_duplicates(),
        all_below(selection(Seq::empty(), Some(random), population, limit), population),
        selection(Seq::empty(), Some(random), population, limit).len() <= limit,
        population > 0 && limit > 0 ==> selection(Seq::empty(), Some(random), population, limit).len() > 0,
{
    let drawn = selection(Seq::empty(), Some(random), population, limit);
    if population >= limit {
        let candidates = drawn_candidates(random@, population, limit as nat);
        let empty = Seq::<u64>::empty();
        lemma_pick_fresh_extends(empty, empty, candidates, limit as nat);
        assert(drawn.subrange(0, drawn.len() as int) =~= drawn);
        assert forall|i: int| 0 <= i < drawn.len() implies drawn[i] < population by {
            assert(candidates.contains(drawn[i]));
        }
        if population > 0 && limit > 0 {
            assert(!empty.contains(candidates[0]));
            lemma_pick_fresh_extends(empty, empty.push(candidates[0]), candidates.drop_first(), limit as nat);
        }
    }
}

/// Law: a draw onto an existing list keeps that list as a prefix and appends
/// at most `limit` distinct indices, all below the population; a list that
/// was not longer than `limit` stays within `limit`.
pub proof fn lemma_draw_extends_existing(existing: Seq<u64>, random: [u8; 32], population: u64, limit: u64)
    requires
        population >= limit,
    ensures
        existing.len() <= selection(existing, Some(random), population, limit).len() <= existing.len() + limit,
        selection(existing, Some(random), population, limit).subrange(0, existing.len() as int) == existing,
        selection(existing, Some(random), population, limit).subrange(
            existing.len() as int,
            selection(existing, Some(random), population, limit).len() as int,
        ).no_duplicates(),
        all_below(
            selection(existing, Some(random), population, limit).subrange(
                existing.len() as int,
                selection(existing, Some(random), population, limit).len() as int,
            ),
            population,
        ),
        existing.len() <= limit ==> selection(existing, Some(random), population, limit).len() <= limit,
{
    let drawn = selection(existing, Some(random), population, limit);
    let candidates = drawn_candidates(random@, population, limit as nat);
    let empty = Seq::<u64>::empty();
    lemma_pick_fresh_extends(existing, empty, candidates, limit as nat);
    assert(existing + empty =~= existing);
    let tail = drawn.subrange(existing.len() as int, drawn.len() as int);
    assert forall|i: int| 0 <= i < tail.len() implies tail[i] < population by {
        assert(tail[i] == drawn[existing.len() + i]);
        assert(candidates.contains(drawn[existing.len() + i]));
    }
}

/// Whether `x` occurs in `all` before position `end`.
pub open spec fn occurs_before(all: Seq<u64>, x: u64, end: int) -> bool {
    exists|m: int| 0 <= m < end && all[m] == x
}

/// Whether every occurrence of `later` in `all` comes after an occurrence
/// of `earlier`.
pub open spec fn comes_up_first(all: Seq<u64>, earlier: u64, later: u64) -> bool {
    forall|m: int| 0 <= m < all.len() && #[trigger] all[m] == later ==> occurs_before(all, earlier, m)
}

/// Whether `list` keeps the order in which its entries first occur in
/// `all`.
pub open spec fn in_order_of_first_occurrence(list: Seq<u64>, all: Seq<u64>) -> bool {
    forall|j: int, k: int| 0 <= j < k < list.len() ==> comes_up_first(all, #[trigger] list[j], #[trigger] list[k])
}

/// What the walk from position `p` of `all` yields once `fresh` holds the
/// distinct entries of `all` before `p`, in order of first occurrence.
proof fn lemma_pick_fresh_takes_in_order(chosen: Seq<u64>, fresh: Seq<u64>, all: Seq<u64>, p: int, limit: nat)
    requires
        0 <= p <= all.len(),
        forall|x: u64| fresh.contains(x) <==> occurs_before(all, x, p),
        in_order_of_first_occurrence(fresh, all),
    ensures
        ({
            let result = pick_fresh(chosen, fresh, all.subrange(p, all.len() as int), limit);
            let added = result.subrange(chosen.len() as int, result.len() as int);
            &&& forall|j: int| 0 <= j < added.len() ==> all.contains(#[trigger] added[j])
            &&& in_order_of_first_occurrence(added, all)
            &&& forall|m: int| 0 <= m < all.len() && !added.contains(#[trigger] all[m]) ==> {
                &&& result.len() == limit
                &&& forall|j: int| 0 <= j < added.len() ==> occurs_before(all, #[trigger] added[j], m)
            }
        }),
    decreases all.len() - p,
{
    let candidates = all.subrange(p, all.len() as int);
    let result = pick_fresh(chosen, fresh, candidates, limit);
    if candidates.len() == 0 || chosen.len() + fresh.len() == limit {
        let added = result.subrange(chosen.len() as int, result.len() as int);
        assert(added =~= fresh);
        assert forall|j: int| 0 <= j < added.len() implies all.contains(#[trigger] added[j]) by {
            assert(fresh.contains(fresh[j]));
        }
        assert forall|m: int| 0 <= m < all.len() && !added.contains(#[trigger] all[m]) implies {
            &&& result.len() == limit
            &&& forall|j: int| 0 <= j < added.len() ==> occurs_before(all, #[trigger] added[j], m)
        } by {
            if m < p {
                assert(occurs_before(all, all[m], p));
            }
            assert forall|j: int| 0 <= j < added.len() implies occurs_before(all, #[trigger] added[j], m) by {
                assert(fresh.contains(fresh[j]));
            }
        }
    } else {
        let head = all[p];
        assert(candidates[0] == head);
        assert(candidates.drop_first() =~= all.subrange(p + 1, all.len() as int));
        if fresh.contains(head) {
            assert forall|x: u64| fresh.contains(x) <==> occurs_before(all, x, p + 1) by {
                if occurs_before(all, x, p + 1) && !occurs_before(all, x, p) {
                    let m = choose|m: int| 0 <= m < p + 1 && all[m] == x;
                    assert(m == p);
                }
            }
            lemma_pick_fresh_takes_in_order(chosen, fresh, all, p + 1, limit);
        } else {
            let grown = fresh.push(head);
            assert forall|x: u64| grown.contains(x) <==> occurs_before(all, x, p + 1) by {
                if grown.contains(x) && x != head {
                    let k = choose|k: int| 0 <= k < grown.len() && grown[k] == x;
                    assert(fresh[k] == x);
                    assert(fresh.contains(x));
                }
                if fresh.contains(x) {
                    let k = choose|k: int| 0 <= k < fresh.len() && fresh[k] == x;
                    assert(grown[k] == x);
                }
                if x == head {
                    assert(grown[fresh.len() as int] == x);
                }
                if occurs_before(all, x, p + 1) && !occurs_before(all, x, p) {
                    let m = choose|m: int| 0 <= m < p + 1 && all[m] == x;
                    assert(m == p);
                }
            }
            assert forall|j: int, k: int| 0 <= j < k < grown.len() implies comes_up_first(
                all,
                #[trigger] grown[j],
                #[trigger] grown[k],
            ) by {
                assert(grown[j] == fresh[j]);
                assert(fresh.contains(fresh[j]));
                if k < fresh.len() {
                    assert(grown[k] == fresh[k]);
                    assert(comes_up_first(all, fresh[j], fresh[k]));
                } else {
                    assert forall|m: int| 0 <= m < all.len() && #[trigger] all[m] == grown[k] implies occurs_before(
                        all,
                        grown[j],
                        m,
                    ) by {
                        if m < p {
                            assert(occurs_before(all, head, p));
                        }
                    }
                }
            }
            lemma_pick_fresh_takes_in_order(chosen, grown, all, p + 1, limit);
        }
    }
}

/// Law: the indices that a draw appends are candidates of the revealed
/// value, taken in the order in which they first come up; a candidate is
/// passed over only when the list is full and everything appended came up
/// before it.
pub proof fn lemma_draw_takes_candidates_in_order(existing: Seq<u64>, random: [u8; 32], population: u64, limit: u64)
    requires
        population >= limit,
    ensures
        ({
            let candidates = drawn_candidates(random@, population, limit as nat);
            let drawn = selection(existing, Some(random), population, limit);
            let added = drawn.subrange(existing.len() as int, drawn.len() as int);
            &&& forall|j: int| 0 <= j < added.len() ==> candidates.contains(#[trigger] added[j])
            &&& in_order_of_first_occurrence(added, candidates)
            &&& forall|m: int| 0 <= m < candidates.len() && !added.contains(#[trigger] candidates[m]) ==> {
                &&& drawn.len() == limit
                &&& forall|j: int| 0 <= j < added.len() ==> occurs_before(candidates, #[trigger] added[j], m)
            }
        }),
{
    let candidates = drawn_candidates(random@, population, limit as nat);
    let empty = Seq::<u64>::empty();
    assert(candidates.subrange(0, candidates.len() as int) =~= candidates);
    lemma_pick_fresh_takes_in_order(existing, empty, candidates, 0, limit as nat);
}

/// Law: without a revealed value a draw leaves the list as it is; with one,
/// a population smaller than `limit` is taken whole, as the indices
/// `0, 1, ..., population - 1` in that order.
pub proof fn lemma_small_population_is_taken_whole(existing: Seq<u64>, random: [u8; 32], population: u64, limit: u64)
    ensures
        selection(existing, None, population, limit) == existing,
        population < limit ==> selection(existing, Some(random), population, limit).len() == population,
        population < limit ==> forall|i: int| 0 <= i < population ==> selection(existing, Some(random), population, limit)[i] == i,
{
}

} // verus!
