use core::ops::{Add, Mul};
use vstd::prelude::*;
use vstd::std_specs::ops::{AddSpec, MulSpec};

verus! {

/// The sum of the first `n` products of a row of `m1` with a column of `m2`,
/// added up from `zero` in order of the index.
pub open spec fn dot<T: Mul<Output = T> + Add<Output = T>>(
    zero: T,
    m1: Seq<Seq<T>>,
    m2: Seq<Seq<T>>,
    i: int,
    j: int,
    n: nat,
) -> T
    decreases n,
{
    if n == 0 {
        zero
    } else {
        dot(zero, m1, m2, i, j, (n - 1) as nat).add_spec(m1[i][n - 1].mul_spec(m2[n - 1][j]))
    }
}

/// Whether every product and every sum that entry `(i, j)` of the product
/// takes can be formed in `T`.
pub open spec fn dot_defined<T: Mul<Output = T> + Add<Output = T>>(
    zero: T,
    m1: Seq<Seq<T>>,
    m2: Seq<Seq<T>>,
    i: int,
    j: int,
    n: nat,
) -> bool {
    forall|k: nat|
        k < n ==> {
            &&& m1[i][k as int].mul_req(m2[k as int][j])
            &&& (#[trigger] dot(zero, m1, m2, i, j, k)).add_req(
                m1[i][k as int].mul_spec(m2[k as int][j]),
            )
        }
}

/// [`dot_defined`] for every entry of row `i`.
pub open spec fn dot_defined_row<T: Mul<Output = T> + Add<Output = T>>(
    zero: T,
    m1: Seq<Seq<T>>,
    m2: Seq<Seq<T>>,
    i: int,
    cols: int,
    n: nat,
) -> bool {
    forall|c: int| 0 <= c < cols ==> #[trigger] dot_defined(zero, m1, m2, i, c, n)
}

/// A matrix as a sequence of its rows.
pub open spec fn rows<T, const R: usize, const C: usize>(m: [[T; C]; R]) -> Seq<Seq<T>> {
    Seq::new(R as nat, |i: int| m@[i]@)
}

/// Multiplies an `I`×`K` matrix by a `K`×`J` matrix. Each entry of the
/// product starts from the default value of `T` and takes the products in
/// order of the inner index. The caller sees to it that `T` can form every
/// product and sum on the way: for machine integers, that none overflows.
pub fn matrix_mul<T, const I: usize, const J: usize, const K: usize>(
    m1: &[[T; K]; I],
    m2: &[[T; J]; K],
) -> (res: [[T; J]; I]) where T: Mul<Output = T> + Add<Output = T> + Default + Copy
    requires
        T::obeys_add_spec(),
        T::obeys_mul_spec(),
        forall|zero: T, i: int, j: int|
            call_ensures(T::default, (), zero) && 0 <= i < I && 0 <= j < J
                ==> #[trigger] dot_defined(zero, rows(*m1), rows(*m2), i, j, K as nat),
    ensures
        exists|zero: T|
            call_ensures(T::default, (), zero) && forall|i: int, j: int|
                0 <= i < I && 0 <= j < J ==> res@[i]@[j] == #[trigger] dot(
                    zero,
                    rows(*m1),
                    rows(*m2),
                    i,
                    j,
                    K as nat,
                ),
{
    let zero = T::default();
    let mut res: [[T; J]; I] = [[zero; J]; I];
    let ghost a = rows(*m1);
    let ghost b = rows(*m2);
    let mut i: usize = 0;
    while i < I
        invariant
            i <= I,
            a == rows(*m1),
            b == rows(*m2),
            T::obeys_add_spec(),
            T::obeys_mul_spec(),
            forall|r: int, c: int|
                0 <= r < I && 0 <= c < J ==> #[trigger] dot_defined(zero, a, b, r, c, K as nat),
            forall|r: int, c: int|
                0 <= r < i && 0 <= c < J ==> res@[r]@[c] == #[trigger] dot(
                    zero,
                    a,
                    b,
                    r,
                    c,
                    K as nat,
                ),
        decreases I - i,
    {
        let mut row: [T; J] = [zero; J];
        let mut j: usize = 0;
        while j < J
            invariant
                i < I,
                j <= J,
                a == rows(*m1),
                b == rows(*m2),
                T::obeys_add_spec(),
                T::obeys_mul_spec(),
                dot_defined_row(zero, a, b, i as int, J as int, K as nat),
                forall|c: int|
                    0 <= c < j ==> row@[c] == #[trigger] dot(zero, a, b, i as int, c, K as nat),
            decreases J - j,
        {
            let mut acc = zero;
            let mut k: usize = 0;
            while k < K
                invariant
                    i < I,
                    j < J,
                    k <= K,
                    a == rows(*m1),
                    b == rows(*m2),
                    T::obeys_add_spec(),
                    T::obeys_mul_spec(),
                    dot_defined(zero, a, b, i as int, j as int, K as nat),
                    acc == dot(zero, a, b, i as int, j as int, k as nat),
                decreases K - k,
            {
                assert(a[i as int][k as int] == m1@[i as int]@[k as int]);
                assert(b[k as int][j as int] == m2@[k as int]@[j as int]);
                let ghost done = k as nat;
                assert(dot(zero, a, b, i as int, j as int, done).add_req(
                    a[i as int][k as int].mul_spec(b[k as int][j as int]),
                ));
                acc = acc + m1[i][k] * m2[k][j];
                k += 1;
            }
            row[j] = acc;
            j += 1;
        }
        res[i] = row;
        i += 1;
    }
    res
}

} // verus!
