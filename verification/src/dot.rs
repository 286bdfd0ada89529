//! The dot product of two scalar sequences.
//!
//! The product and the sum of two scalars are functions that the caller hands
//! in. What `dot` returns is stated through them: the products of the paired
//! entries, added up from the left, starting from zero.

use vstd::prelude::*;

verus! {

/// The bit pattern of positive zero: the value of an empty sum.
pub const ZERO: u64 = 0;

/// A function of two scalars that has at most one result for each pair.
pub open spec fn single_valued2<F: Fn(u64, u64) -> u64>(f: F) -> bool {
    forall|x: u64, y: u64, r1: u64, r2: u64|
        #![trigger f.ensures((x, y), r1), f.ensures((x, y), r2)]
        f.ensures((x, y), r1) && f.ensures((x, y), r2) ==> r1 == r2
}

/// `next` is a sum of `sum` and a product of `x` and `y`.
pub open spec fn adds_product<M, A>(
    times: M,
    plus: A,
    sum: u64,
    x: u64,
    y: u64,
    next: u64,
) -> bool where M: Fn(u64, u64) -> u64, A: Fn(u64, u64) -> u64 {
    exists|p: u64| #[trigger] times.ensures((x, y), p) && plus.ensures((sum, p), next)
}

/// `sums` are the running sums of the dot product of `a` and `b`, evaluated
/// from the left: the first is zero, and each following one adds the product
/// of the next pair of entries to the one before it.
pub open spec fn running_sums<M, A>(
    times: M,
    plus: A,
    a: Seq<u64>,
    b: Seq<u64>,
    sums: Seq<u64>,
) -> bool where M: Fn(u64, u64) -> u64, A: Fn(u64, u64) -> u64 {
    &&& a.len() == b.len()
    &&& sums.len() == a.len() + 1
    &&& sums[0] == ZERO
    &&& forall|i: int|
        0 <= i < a.len() ==> adds_product(times, plus, #[trigger] sums[i], a[i], b[i], sums[i + 1])
}

/// `r` is a dot product of `a` and `b` under `times` and `plus`: the sum over
/// all indices `i` of the product of `a[i]` and `b[i]`, that is, the last of
/// the running sums. Sequences of different lengths have no dot product.
pub open spec fn is_dot<M, A>(
    times: M,
    plus: A,
    a: Seq<u64>,
    b: Seq<u64>,
    r: u64,
) -> bool where M: Fn(u64, u64) -> u64, A: Fn(u64, u64) -> u64 {
    exists|sums: Seq<u64>| #[trigger] running_sums(times, plus, a, b, sums) && sums.last() == r
}

/// Sequences of different lengths have no dot product.
pub proof fn lemma_dot_needs_equal_lengths<M, A>(
    times: M,
    plus: A,
    a: Seq<u64>,
    b: Seq<u64>,
    r: u64,
) where M: Fn(u64, u64) -> u64, A: Fn(u64, u64) -> u64
    requires
        a.len() != b.len(),
    ensures
        !is_dot(times, plus, a, b, r),
{
}

/// The dot product of two empty sequences is zero, and nothing else.
pub proof fn lemma_dot_empty<M, A>(times: M, plus: A, r: u64) where
    M: Fn(u64, u64) -> u64,
    A: Fn(u64, u64) -> u64,
    ensures
        is_dot(times, plus, Seq::empty(), Seq::empty(), r) <==> r == ZERO,
{
    if r == ZERO {
        assert(running_sums(times, plus, Seq::empty(), Seq::empty(), seq![ZERO]));
    }
}

/// One more pair at the end adds its product to the sum: `r` is a dot product
/// of the longer sequences exactly if it adds the product of the last pair to
/// a dot product of the shorter ones.
pub proof fn lemma_dot_push<M, A>(
    times: M,
    plus: A,
    a: Seq<u64>,
    b: Seq<u64>,
    x: u64,
    y: u64,
    r: u64,
) where M: Fn(u64, u64) -> u64, A: Fn(u64, u64) -> u64
    requires
        a.len() == b.len(),
    ensures
        is_dot(times, plus, a.push(x), b.push(y), r) <==> exists|s: u64|
            is_dot(times, plus, a, b, s) && #[trigger] adds_product(times, plus, s, x, y, r),
{
    let n = a.len() as int;
    if is_dot(times, plus, a.push(x), b.push(y), r) {
        let sums = choose|sums: Seq<u64>| #[trigger]
            running_sums(times, plus, a.push(x), b.push(y), sums) && sums.last() == r;
        // All but the last of the running sums are those of the shorter
        // sequences, and the last step adds the product of `x` and `y`.
        assert(running_sums(times, plus, a, b, sums.drop_last()));
        assert(is_dot(times, plus, a, b, sums[n]));
    }
    if exists|s: u64|
        is_dot(times, plus, a, b, s) && #[trigger] adds_product(times, plus, s, x, y, r) {
        let s = choose|s: u64|
            is_dot(times, plus, a, b, s) && #[trigger] adds_product(times, plus, s, x, y, r);
        let sums = choose|sums: Seq<u64>| #[trigger]
            running_sums(times, plus, a, b, sums) && sums.last() == s;
        assert(running_sums(times, plus, a.push(x), b.push(y), sums.push(r)));
    }
}

/// The dot product of two sequences of one entry each adds the product of the
/// two entries to zero.
pub proof fn lemma_dot_of_one_pair<M, A>(times: M, plus: A, x: u64, y: u64, r: u64) where
    M: Fn(u64, u64) -> u64,
    A: Fn(u64, u64) -> u64,
    ensures
        is_dot(times, plus, seq![x], seq![y], r) <==> adds_product(times, plus, ZERO, x, y, r),
{
    let none: Seq<u64> = Seq::empty();
    lemma_dot_push(times, plus, none, none, x, y, r);
    if is_dot(times, plus, seq![x], seq![y], r) {
        let s = choose|s: u64|
            is_dot(times, plus, none, none, s) && #[trigger] adds_product(times, plus, s, x, y, r);
        lemma_dot_empty(times, plus, s);
    }
    if adds_product(times, plus, ZERO, x, y, r) {
        lemma_dot_empty(times, plus, ZERO);
    }
}

/// Two evaluations of one dot product under single-valued operations agree on
/// every running sum.
proof fn lemma_running_sums_agree<M, A>(
    times: M,
    plus: A,
    a: Seq<u64>,
    b: Seq<u64>,
    sums1: Seq<u64>,
    sums2: Seq<u64>,
    i: int,
) where M: Fn(u64, u64) -> u64, A: Fn(u64, u64) -> u64
    requires
        single_valued2(times),
        single_valued2(plus),
        running_sums(times, plus, a, b, sums1),
        running_sums(times, plus, a, b, sums2),
        0 <= i <= a.len(),
    ensures
        sums1[i] == sums2[i],
    decreases i,
{
    if i > 0 {
        lemma_running_sums_agree(times, plus, a, b, sums1, sums2, i - 1);
    }
}

/// Under operations that have one result for each pair of arguments, two
/// sequences have one dot product.
pub proof fn lemma_dot_single_valued<M, A>(
    times: M,
    plus: A,
    a: Seq<u64>,
    b: Seq<u64>,
    r1: u64,
    r2: u64,
) where M: Fn(u64, u64) -> u64, A: Fn(u64, u64) -> u64
    requires
        single_valued2(times),
        single_valued2(plus),
        is_dot(times, plus, a, b, r1),
        is_dot(times, plus, a, b, r2),
    ensures
        r1 == r2,
{
    let sums1 = choose|sums: Seq<u64>| #[trigger]
        running_sums(times, plus, a, b, sums) && sums.last() == r1;
    let sums2 = choose|sums: Seq<u64>| #[trigger]
        running_sums(times, plus, a, b, sums) && sums.last() == r2;
    lemma_running_sums_agree(times, plus, a, b, sums1, sums2, a.len() as int);
}

/// Computes the dot product of `a` and `b`: the sum over all indices `i` of
/// the product of `a[i]` and `b[i]`, added up from the left. For empty
/// sequences it is zero.
///
/// The two sequences must be equally long. `times` is called on each pair of
/// entries, and `plus` on each running sum and the product that comes next.
pub fn dot<M, A>(a: &[u64], b: &[u64], times: M, plus: A) -> (r: u64) where
    M: Fn(u64, u64) -> u64,
    A: Fn(u64, u64) -> u64,
    requires
        a@.len() == b@.len(),
        forall|i: int| 0 <= i < a@.len() ==> times.requires((#[trigger] a@[i], b@[i])),
        forall|s: u64, p: u64| plus.requires((s, p)),
    ensures
        is_dot(times, plus, a@, b@, r),
        a@.len() == 0 ==> r == ZERO,
{
    let mut sum: u64 = ZERO;
    let ghost mut sums: Seq<u64> = seq![ZERO];
    let mut i: usize = 0;
    while i < a.len()
        invariant
            a@.len() == b@.len(),
            i <= a@.len(),
            forall|k: int| 0 <= k < a@.len() ==> times.requires((#[trigger] a@[k], b@[k])),
            forall|s: u64, p: u64| plus.requires((s, p)),
            running_sums(times, plus, a@.take(i as int), b@.take(i as int), sums),
            sums.last() == sum,
            i == 0 ==> sum == ZERO,
        decreases a@.len() - i,
    {
        let product: u64 = times(a[i], b[i]);
        let next: u64 = plus(sum, product);
        proof {
            assert(adds_product(times, plus, sum, a@[i as int], b@[i as int], next));
            sums = sums.push(next);
        }
        sum = next;
        i = i + 1;
    }
    proof {
        assert(a@.take(i as int) == a@);
        assert(b@.take(i as int) == b@);
    }
    sum
}

} // verus!
