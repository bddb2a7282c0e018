//! The random source behind id generation and sampling: a small PRNG from
//! an outside crate, seeded from the clock, and a verified
//! draw-without-replacement over a shrinking pool.

use tinyrand::{Rand, Seeded};
use vstd::prelude::*;

verus! {

broadcast use vstd::seq_lib::group_to_multiset_ensures, vstd::multiset::group_multiset_axioms;

/// Relies on tinyrand::Wyrand, the crate's standard generator type.
#[verifier::external_type_specification]
#[verifier::external_body]
pub struct ExWyrand(tinyrand::Wyrand);

/// Relies on std::time::SystemTime, the clock reading that seeds the
/// generator.
#[verifier::external_type_specification]
#[verifier::external_body]
pub struct ExSystemTime(std::time::SystemTime);

/// Relies on std::time::SystemTime::now: the clock's present reading. The
/// value depends on the clock, so nothing is stated of it.
#[verifier::external_body]
fn clock_now() -> std::time::SystemTime {
    std::time::SystemTime::now()
}

/// Relies on std::time::SystemTime::duration_since: the nanoseconds from
/// the Unix epoch to `t`, or zero if `t` reads earlier than the epoch. The
/// value depends on the clock, so nothing is stated of it.
#[verifier::external_body]
fn epoch_nanos(t: std::time::SystemTime) -> u128 {
    match t.duration_since(std::time::SystemTime::UNIX_EPOCH) {
        Ok(d) => d.as_nanos(),
        Err(_) => 0,
    }
}

/// Relies on tinyrand::Seeded::seed for Wyrand: builds a generator whose
/// state is the given seed. The generator is opaque, so nothing is stated.
#[verifier::external_body]
fn rand_seed(seed: u64) -> tinyrand::Wyrand {
    <tinyrand::Wyrand as Seeded>::seed(seed)
}

/// Relies on tinyrand::Rand::next_lim_usize: returns a value in
/// `[0, lim)`. It panics on a zero `lim`, which the precondition rules out;
/// which value comes back depends on the generator state, so only the bound
/// is stated.
#[verifier::external_body]
pub(crate) fn rand_below(rng: &mut tinyrand::Wyrand, lim: usize) -> (r: usize)
    requires
        lim > 0,
    ensures
        r < lim,
{
    rng.next_lim_usize(lim)
}

/// A fresh generator, seeded from the clock as the randomized operations
/// use it: every call may seed differently.
pub fn fresh_rng() -> tinyrand::Wyrand {
    let t = epoch_nanos(clock_now());
    let folded = (t >> 64) ^ t;
    let seed = #[verifier::truncate] (folded as u64);
    rand_seed(seed)
}

/// Draws one uniformly random index below `bound`.
pub fn random_index(bound: usize) -> (r: usize)
    requires
        bound > 0,
    ensures
        r < bound,
{
    let mut rng = fresh_rng();
    rand_below(&mut rng, bound)
}

/// `r` holds `idx.len()` entries of `src`, drawn at pairwise distinct
/// positions: `r[m]` is `src[idx[m]]` for every `m`.
pub open spec fn picks_from<T>(idx: Seq<int>, r: Seq<T>, src: Seq<T>) -> bool {
    &&& idx.len() == r.len()
    &&& (forall|m: int| 0 <= m < idx.len() ==> 0 <= #[trigger] idx[m] < src.len())
    &&& (forall|m1: int, m2: int| 0 <= m1 < m2 < idx.len() ==> idx[m1] != idx[m2])
    &&& (forall|m: int| 0 <= m < idx.len() ==> r[m] == src[#[trigger] idx[m]])
}

/// Draws `k` entries of `pool` without replacement: every drawn entry
/// leaves the pool, so the entries come from pairwise distinct positions,
/// the result never holds more copies of a value than the pool did, and
/// drawing the whole pool permutes it. The order of the result is the
/// (random) discovery order.
#[verifier::loop_isolation(false)]
pub fn sample_pool<T>(pool: Vec<T>, k: usize, rng: &mut tinyrand::Wyrand) -> (r: Vec<T>)
    requires
        k <= pool@.len(),
    ensures
        r@.len() == k,
        r@.to_multiset() <= pool@.to_multiset(),
        k == pool@.len() ==> r@.to_multiset() == pool@.to_multiset(),
        exists|idx: Seq<int>| picks_from(idx, r@, pool@),
{
    let ghost src = pool@;
    let ghost whole = pool@.to_multiset();
    let mut pool = pool;
    let mut out: Vec<T> = Vec::new();
    let ghost mut out_idx: Seq<int> = Seq::empty();
    let ghost mut pool_idx: Seq<int> = Seq::new(src.len(), |m: int| m);
    proof {
        assert(out@.to_multiset().len() == 0);
        assert forall|v: T| out@.to_multiset().count(v) == 0 by {}
        assert(out@.to_multiset().add(pool@.to_multiset()) =~= whole);
    }
    let mut i: usize = 0;
    while i < k
        invariant
            0 <= i <= k,
            out@.len() == i,
            out@.len() + pool@.len() == whole.len(),
            out@.to_multiset().add(pool@.to_multiset()) == whole,
            picks_from(out_idx, out@, src),
            pool_idx.len() == pool@.len(),
            forall|m: int| 0 <= m < pool_idx.len() ==> 0 <= #[trigger] pool_idx[m] < src.len(),
            forall|m: int| 0 <= m < pool_idx.len() ==> pool@[m] == src[#[trigger] pool_idx[m]],
            forall|m1: int, m2: int|
                0 <= m1 < m2 < pool_idx.len() ==> pool_idx[m1] != pool_idx[m2],
            forall|m1: int, m2: int|
                0 <= m1 < out_idx.len() && 0 <= m2 < pool_idx.len()
                    ==> out_idx[m1] != pool_idx[m2],
        decreases k - i,
    {
        let j = rand_below(rng, pool.len());
        let ghost prev_out = out@;
        let ghost prev_pool = pool@;
        let x = pool.remove(j);
        out.push(x);
        proof {
            out_idx = out_idx.push(pool_idx[j as int]);
            pool_idx = pool_idx.remove(j as int);
            assert(out@.to_multiset().add(pool@.to_multiset()) =~= whole);
        }
        i = i + 1;
    }
    proof {
        assert forall|v: T| out@.to_multiset().count(v) <= whole.count(v) by {}
        if k == whole.len() {
            assert(pool@.to_multiset().len() == 0);
            assert(out@.to_multiset() =~= whole);
        }
        assert(picks_from(out_idx, out@, src));
    }
    out
}

/// Draws `size` strings of `urls` without replacement, as [`sample_pool`]
/// does, stated over the character sequences.
pub fn sample_strs<'x>(urls: Vec<&'x str>, size: usize) -> (r: Vec<&'x str>)
    requires
        size <= urls@.len(),
    ensures
        r@.len() == size,
        exists|idx: Seq<int>| picks_from(idx, r.deep_view(), urls.deep_view()),
{
    let ghost uv = urls@;
    let ghost udv = urls.deep_view();
    let mut rng = fresh_rng();
    let picked = sample_pool(urls, size, &mut rng);
    proof {
        let idx = choose|idx: Seq<int>| picks_from(idx, picked@, uv);
        assert forall|m: int| 0 <= m < idx.len() implies picked.deep_view()[m] == udv[idx[m]] by {
            assert(picked@[m] == uv[idx[m]]);
        }
        assert(picks_from(idx, picked.deep_view(), udv));
    }
    picked
}

} // verus!
