use crate::color_space::Rgb;
use vstd::prelude::*;

verus! {

/// Whether `i` is the place of the least of `keys` and, where the least
/// occurs more than once, of the first such.
pub open spec fn is_first_minimum(keys: Seq<int>, i: int) -> bool {
    &&& 0 <= i < keys.len()
    &&& forall|j: int| 0 <= j < keys.len() ==> keys[i] <= #[trigger] keys[j]
    &&& forall|j: int| 0 <= j < i ==> keys[i] < #[trigger] keys[j]
}

/// The distances from `target` to each of `candidates` under `alg`, in order.
pub open spec fn distances<T: ColorDistance + ?Sized>(
    alg: &T,
    target: Rgb,
    candidates: Seq<Rgb>,
) -> Seq<int> {
    Seq::new(candidates.len(), |i: int| alg.dist_spec(target, candidates[i]) as int)
}

/// A measure of how far apart two colours are. A smaller number means that
/// the colours look more alike; a metric gives numbers in a unit of its own,
/// so only numbers of one metric compare.
pub trait ColorDistance {
    /// The distance between two colours.
    spec fn dist_spec(&self, c1: Rgb, c2: Rgb) -> nat;

    /// Finds the distance between two colours.
    fn dist(&self, c1: Rgb, c2: Rgb) -> (d: u32)
        ensures
            d == self.dist_spec(c1, c2),
    ;

    /// The name under which the metric is reported.
    spec fn name_spec(&self) -> Seq<char>;

    /// Gives the name under which the metric is reported.
    fn name(&self) -> (res: &'static str)
        ensures
            res@ == self.name_spec(),
    ;

    /// Finds the candidate closest to `target`: the place of the first one
    /// among those at the least distance, or `None` if there is no candidate.
    fn find_closest(&self, target: Rgb, candidates: &[Rgb]) -> (res: Option<usize>)
        ensures
            res is None <==> candidates@.len() == 0,
            res matches Some(i) ==> is_first_minimum(
                Seq::new(
                    candidates@.len(),
                    |k: int| self.dist_spec(target, candidates@[k]) as int,
                ),
                i as int,
            ),
    {
        if candidates.len() == 0 {
            return None;
        }
        let mut best: usize = 0;
        let mut least: u32 = self.dist(target, candidates[0]);
        let mut idx: usize = 1;
        while idx < candidates.len()
            invariant
                1 <= idx <= candidates@.len(),
                best < idx,
                least == self.dist_spec(target, candidates@[best as int]),
                forall|j: int|
                    0 <= j < idx ==> least <= self.dist_spec(target, #[trigger] candidates@[j]),
                forall|j: int|
                    0 <= j < best ==> least < self.dist_spec(target, #[trigger] candidates@[j]),
            decreases candidates@.len() - idx,
        {
            let d = self.dist(target, candidates[idx]);
            if d < least {
                least = d;
                best = idx;
            }
            idx += 1;
        }
        Some(best)
    }
}

/// The square of the difference of two channel values.
pub open spec fn sq_diff(a: u8, b: u8) -> nat {
    ((a - b) * (a - b)) as nat
}

/// The sum over the three channels of the squared differences.
pub open spec fn euclidean(c1: Rgb, c2: Rgb) -> nat {
    sq_diff(c1.r, c2.r) + sq_diff(c1.g, c2.g) + sq_diff(c1.b, c2.b)
}

/// The number of parts into which [`EuclideanImproved`] divides one unit of
/// distance.
pub const IMPROVED_UNIT: u32 = 512;

/// The red-weighted distance, in units of one 512th. With `m` the mean of
/// the two red values it is
/// `(2 + m/256)·Δr² + 4·Δg² + (2 + (255 − m)/256)·Δb²`; times 512 that is a
/// whole number, since `512·m/256` is the sum of the two red values.
pub open spec fn redmean(c1: Rgb, c2: Rgb) -> nat {
    ((1024 + (c1.r + c2.r)) * sq_diff(c1.r, c2.r) + 2048 * sq_diff(c1.g, c2.g) + (1534 - (c1.r
        + c2.r)) * sq_diff(c1.b, c2.b)) as nat
}

/// The squared difference of two channel values, as a machine number.
fn channel_sq_diff(a: u8, b: u8) -> (res: u32)
    ensures
        res == sq_diff(a, b),
        res <= 65025,
{
    let d: u32 = if a >= b {
        (a - b) as u32
    } else {
        (b - a) as u32
    };
    assert(d * d == sq_diff(a, b) && d * d <= 65025) by (nonlinear_arith)
        requires
            d == a - b || d == b - a,
            0 <= d <= 255,
    ;
    d * d
}

/// Squared distance in the RGB cube.
#[derive(Debug, Clone, Copy)]
pub struct Euclidean;

impl ColorDistance for Euclidean {
    open spec fn dist_spec(&self, c1: Rgb, c2: Rgb) -> nat {
        euclidean(c1, c2)
    }

    fn dist(&self, c1: Rgb, c2: Rgb) -> (d: u32)
        ensures
            d == 0 <==> c1 == c2,
            d <= 3 * 255 * 255,
    {
        proof {
            lemma_euclidean_zero(c1, c2);
        }
        channel_sq_diff(c1.r, c2.r) + channel_sq_diff(c1.g, c2.g) + channel_sq_diff(c1.b, c2.b)
    }

    open spec fn name_spec(&self) -> Seq<char> {
        "Euclidean"@
    }

    fn name(&self) -> (res: &'static str) {
        "Euclidean"
    }
}

/// Squared distance in the RGB cube with weights that follow the eye: they
/// shift between red and blue with the mean red of the two colours.
#[derive(Debug, Clone, Copy)]
pub struct EuclideanImproved;

impl ColorDistance for EuclideanImproved {
    open spec fn dist_spec(&self, c1: Rgb, c2: Rgb) -> nat {
        redmean(c1, c2)
    }

    fn dist(&self, c1: Rgb, c2: Rgb) -> (d: u32)
        ensures
            d == 0 <==> c1 == c2,
    {
        proof {
            lemma_redmean_zero(c1, c2);
        }
        let red_sum: u32 = c1.r as u32 + c2.r as u32;
        let d_r = channel_sq_diff(c1.r, c2.r);
        let d_g = channel_sq_diff(c1.g, c2.g);
        let d_b = channel_sq_diff(c1.b, c2.b);
        let w_r: u32 = 1024 + red_sum;
        let w_b: u32 = 1534 - red_sum;
        assert(w_r * d_r <= 1534 * 65025 && w_b * d_b <= 1534 * 65025) by (nonlinear_arith)
            requires
                0 <= w_r <= 1534,
                0 <= w_b <= 1534,
                0 <= d_r <= 65025,
                0 <= d_b <= 65025,
        ;
        w_r * d_r + 2048 * d_g + w_b * d_b
    }

    open spec fn name_spec(&self) -> Seq<char> {
        "Euclidean Improved"@
    }

    fn name(&self) -> (res: &'static str) {
        "Euclidean Improved"
    }
}

/// The CIE94 colour difference. It is defined on CIELAB coordinates, which
/// are real numbers, so its distances are worked out by the caller and
/// ranked with [`closest_key`].
#[derive(Debug, Clone, Copy)]
#[allow(clippy::upper_case_acronyms)]
pub struct CIE94;

impl CIE94 {
    /// The name under which the metric is reported.
    pub fn name(&self) -> (res: &'static str)
        ensures
            res@ == "CIE94"@,
    {
        "CIE94"
    }
}

/// The keys as mathematical integers.
pub open spec fn keys_of(keys: Seq<u32>) -> Seq<int> {
    keys.map_values(|k: u32| k as int)
}

/// Finds the least of `keys`: the place of the first one among those that
/// are least, or `None` if there is no key. The keys stand for distances
/// that were measured elsewhere, a smaller key for a smaller distance.
pub fn closest_key(keys: &[u32]) -> (res: Option<usize>)
    ensures
        res is None <==> keys@.len() == 0,
        res matches Some(i) ==> is_first_minimum(keys_of(keys@), i as int),
{
    if keys.len() == 0 {
        return None;
    }
    let mut best: usize = 0;
    let mut idx: usize = 1;
    while idx < keys.len()
        invariant
            1 <= idx <= keys@.len(),
            best < idx,
            forall|j: int| 0 <= j < idx ==> keys@[best as int] <= #[trigger] keys@[j],
            forall|j: int| 0 <= j < best ==> keys@[best as int] < #[trigger] keys@[j],
        decreases keys@.len() - idx,
    {
        if keys[idx] < keys[best] {
            best = idx;
        }
        idx += 1;
    }
    Some(best)
}

/// A sequence has at most one first minimum: whoever finds one has found
/// the same place as anyone else.
pub proof fn lemma_first_minimum_unique(keys: Seq<int>, i: int, j: int)
    requires
        is_first_minimum(keys, i),
        is_first_minimum(keys, j),
    ensures
        i == j,
{
    assert(keys[i] <= keys[j] && keys[j] <= keys[i]);
}

/// Among several candidates at the least distance the earliest wins: no
/// key before the first minimum is as small, and none at all is smaller.
pub proof fn lemma_first_minimum_is_earliest(keys: Seq<int>, i: int, j: int)
    requires
        is_first_minimum(keys, i),
        0 <= j < keys.len(),
        keys[j] == keys[i],
    ensures
        i <= j,
{
    assert(j < i ==> keys[i] < keys[j]);
}

/// A sequence that is not empty has a first minimum.
pub proof fn lemma_first_minimum_exists(keys: Seq<int>) -> (i: int)
    requires
        keys.len() > 0,
    ensures
        is_first_minimum(keys, i),
    decreases keys.len(),
{
    if keys.len() == 1 {
        0
    } else {
        let front = keys.drop_last();
        let k = lemma_first_minimum_exists(front);
        let last = keys.len() - 1;
        if keys[last] < front[k] {
            assert forall|j: int| 0 <= j < keys.len() implies keys[last] <= #[trigger] keys[j] by {
                if j < last {
                    assert(front[j] == keys[j]);
                }
            }
            assert forall|j: int| 0 <= j < last implies keys[last] < #[trigger] keys[j] by {
                assert(front[j] == keys[j]);
            }
            last
        } else {
            assert forall|j: int| 0 <= j < keys.len() implies keys[k] <= #[trigger] keys[j] by {
                if j < last {
                    assert(front[j] == keys[j]);
                }
            }
            assert forall|j: int| 0 <= j < k implies keys[k] < #[trigger] keys[j] by {
                assert(front[j] == keys[j]);
            }
            k
        }
    }
}

/// The plain distance is zero between a colour and itself and nowhere else.
pub proof fn lemma_euclidean_zero(c1: Rgb, c2: Rgb)
    ensures
        euclidean(c1, c2) == 0 <==> c1 == c2,
{
    lemma_sq_diff_zero(c1.r, c2.r);
    lemma_sq_diff_zero(c1.g, c2.g);
    lemma_sq_diff_zero(c1.b, c2.b);
}

/// The plain distance does not depend on the order of the two colours.
pub proof fn lemma_euclidean_symmetric(c1: Rgb, c2: Rgb)
    ensures
        euclidean(c1, c2) == euclidean(c2, c1),
{
    lemma_sq_diff_symmetric(c1.r, c2.r);
    lemma_sq_diff_symmetric(c1.g, c2.g);
    lemma_sq_diff_symmetric(c1.b, c2.b);
}

/// The red-weighted distance is zero between a colour and itself and
/// nowhere else.
pub proof fn lemma_redmean_zero(c1: Rgb, c2: Rgb)
    ensures
        redmean(c1, c2) == 0 <==> c1 == c2,
{
    lemma_sq_diff_zero(c1.r, c2.r);
    lemma_sq_diff_zero(c1.g, c2.g);
    lemma_sq_diff_zero(c1.b, c2.b);
    let w_r = 1024 + (c1.r + c2.r);
    let w_b = 1534 - (c1.r + c2.r);
    let (d_r, d_g, d_b) = (sq_diff(c1.r, c2.r), sq_diff(c1.g, c2.g), sq_diff(c1.b, c2.b));
    assert(w_r * d_r >= 0 && (w_r * d_r == 0 <==> d_r == 0)) by (nonlinear_arith)
        requires
            w_r >= 1024,
            d_r >= 0,
    ;
    assert(w_b * d_b >= 0 && (w_b * d_b == 0 <==> d_b == 0)) by (nonlinear_arith)
        requires
            w_b >= 1024,
            d_b >= 0,
    ;
}

/// The red-weighted distance does not depend on the order of the two
/// colours.
pub proof fn lemma_redmean_symmetric(c1: Rgb, c2: Rgb)
    ensures
        redmean(c1, c2) == redmean(c2, c1),
{
    lemma_sq_diff_symmetric(c1.r, c2.r);
    lemma_sq_diff_symmetric(c1.g, c2.g);
    lemma_sq_diff_symmetric(c1.b, c2.b);
}

proof fn lemma_sq_diff_zero(a: u8, b: u8)
    ensures
        sq_diff(a, b) == 0 <==> a == b,
{
    let d = a - b;
    assert(d * d >= 0 && (d * d == 0 <==> d == 0)) by (nonlinear_arith);
}

proof fn lemma_sq_diff_symmetric(a: u8, b: u8)
    ensures
        sq_diff(a, b) == sq_diff(b, a),
{
    let d = a - b;
    let e = b - a;
    assert(d * d == e * e) by (nonlinear_arith)
        requires
            e == -d,
    ;
}

} // verus!
