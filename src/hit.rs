use vstd::prelude::*;

verus! {

/// Sign bit of an IEEE-754 double.
pub const SIGN_BIT: u64 = 0x8000_0000_0000_0000;

/// Ordering key of the double whose bit pattern is `bits`: negative values have
/// every bit flipped, the rest only the sign bit, so that for non-NaN values the
/// key order is the numeric order.
pub open spec fn spec_order_key(bits: u64) -> u64 {
    if bits & SIGN_BIT != 0 {
        !bits
    } else {
        bits | SIGN_BIT
    }
}

/// The ordering key of the double with bit pattern `bits`.
pub fn order_key(bits: u64) -> (r: u64)
    ensures
        r == spec_order_key(bits),
{
    if bits & SIGN_BIT != 0 {
        !bits
    } else {
        bits | SIGN_BIT
    }
}

/// Distinct bit patterns get distinct keys.
pub proof fn lemma_order_key_injective(a: u64, b: u64)
    requires
        spec_order_key(a) == spec_order_key(b),
    ensures
        a == b,
{
    if a & SIGN_BIT != 0 && b & SIGN_BIT != 0 {
        assert(!a == !b ==> a == b) by (bit_vector);
    } else if a & SIGN_BIT == 0 && b & SIGN_BIT == 0 {
        assert(a & 0x8000_0000_0000_0000u64 == 0 && b & 0x8000_0000_0000_0000u64 == 0 && a
            | 0x8000_0000_0000_0000u64 == b | 0x8000_0000_0000_0000u64 ==> a == b) by (bit_vector);
    } else if a & SIGN_BIT != 0 {
        assert(a & 0x8000_0000_0000_0000u64 != 0 && b & 0x8000_0000_0000_0000u64 == 0 ==> !a
            != b | 0x8000_0000_0000_0000u64) by (bit_vector);
    } else {
        assert(b & 0x8000_0000_0000_0000u64 != 0 && a & 0x8000_0000_0000_0000u64 == 0 ==> !b
            != a | 0x8000_0000_0000_0000u64) by (bit_vector);
    }
}

/// Which root of the sphere equation a ray meets.
#[derive(Clone, Copy, Debug, PartialEq, Eq, Structural)]
pub enum Root {
    /// `(-half_b - sqrt(discriminant)) / a`
    Near,
    /// `(-half_b + sqrt(discriminant)) / a`
    Far,
}

/// `t` lies in the closed interval `[t_min, t_max]`, all as ordering keys.
pub open spec fn in_range(t: u64, t_min: u64, t_max: u64) -> bool {
    t_min <= t && t <= t_max
}

pub open spec fn spec_select_root(
    discriminant_negative: bool,
    near: u64,
    far: u64,
    t_min: u64,
    t_max: u64,
) -> Option<Root> {
    if discriminant_negative {
        None
    } else if in_range(near, t_min, t_max) {
        Some(Root::Near)
    } else if in_range(far, t_min, t_max) {
        Some(Root::Far)
    } else {
        None
    }
}

/// Root choice of a ray-sphere query: none when the discriminant is negative,
/// else the near root when it lies in range, else the far root when it does.
pub fn select_root(discriminant_negative: bool, near: u64, far: u64, t_min: u64, t_max: u64) -> (r:
    Option<Root>)
    ensures
        r == spec_select_root(discriminant_negative, near, far, t_min, t_max),
        discriminant_negative ==> r is None,
        r == Some(Root::Near) <==> !discriminant_negative && in_range(near, t_min, t_max),
        r == Some(Root::Far) <==> !discriminant_negative && !in_range(near, t_min, t_max)
            && in_range(far, t_min, t_max),
{
    if discriminant_negative {
        None
    } else if t_min <= near && near <= t_max {
        Some(Root::Near)
    } else if t_min <= far && far <= t_max {
        Some(Root::Far)
    } else {
        None
    }
}

/// Narrowing the upper bound of a sphere query keeps its hit while that hit is
/// still in range and loses it otherwise. So a list may hand each primitive the
/// closest distance found so far, or the full range and compare afterwards.
pub proof fn lemma_select_root_narrowed(
    discriminant_negative: bool,
    near: u64,
    far: u64,
    t_min: u64,
    t_max: u64,
    bound: u64,
)
    requires
        near <= far,
        bound <= t_max,
    ensures
        spec_select_root(discriminant_negative, near, far, t_min, bound) == match spec_select_root(
            discriminant_negative,
            near,
            far,
            t_min,
            t_max,
        ) {
            Some(Root::Near) => if near <= bound {
                Some(Root::Near)
            } else {
                None
            },
            Some(Root::Far) => if far <= bound {
                Some(Root::Far)
            } else {
                None
            },
            None => None,
        },
{
}

/// Primitive `i` reported a hit whose distance key lies in `[t_min, t_max]`.
pub open spec fn is_candidate(hits: Seq<Option<u64>>, i: int, t_min: u64, t_max: u64) -> bool {
    &&& 0 <= i < hits.len()
    &&& hits[i] is Some
    &&& in_range(hits[i]->0, t_min, t_max)
}

/// State of the list scan after the first `n` primitives: the index of the hit
/// kept so far and the closest distance, which starts at `t_max`. Each reported
/// distance in `[t_min, closest]` replaces the kept one.
pub open spec fn scan_state(hits: Seq<Option<u64>>, t_min: u64, t_max: u64, n: int) -> (
    Option<int>,
    u64,
)
    decreases n,
{
    if n <= 0 {
        (None, t_max)
    } else {
        let (best, closest) = scan_state(hits, t_min, t_max, n - 1);
        match hits[n - 1] {
            Some(t) => if t_min <= t && t <= closest {
                (Some(n - 1), t)
            } else {
                (best, closest)
            },
            None => (best, closest),
        }
    }
}

/// Key of the hit a sphere query reports on `[t_min, t_max]`, for a ray whose
/// roots against the sphere are given as (discriminant negative, near key, far key).
pub open spec fn sphere_hit_key(roots: (bool, u64, u64), t_min: u64, t_max: u64) -> Option<u64> {
    match spec_select_root(roots.0, roots.1, roots.2, t_min, t_max) {
        Some(Root::Near) => Some(roots.1),
        Some(Root::Far) => Some(roots.2),
        None => None,
    }
}

/// The list scan over spheres in which each sphere is queried on
/// `[t_min, closest]`, the closest distance found so far, and a hit replaces the
/// kept one.
pub open spec fn narrowing_scan(roots: Seq<(bool, u64, u64)>, t_min: u64, t_max: u64, n: int) -> (
    Option<int>,
    u64,
)
    decreases n,
{
    if n <= 0 {
        (None, t_max)
    } else {
        let (best, closest) = narrowing_scan(roots, t_min, t_max, n - 1);
        match sphere_hit_key(roots[n - 1], t_min, closest) {
            Some(t) => (Some(n - 1), t),
            None => (best, closest),
        }
    }
}

/// Each sphere's hit on the whole range `[t_min, t_max]`.
pub open spec fn full_range_keys(roots: Seq<(bool, u64, u64)>, t_min: u64, t_max: u64) -> Seq<
    Option<u64>,
> {
    Seq::new(roots.len(), |i: int| sphere_hit_key(roots[i], t_min, t_max))
}

/// Querying each sphere on the closest distance so far keeps the same hit as
/// querying every sphere on the whole range and scanning the reported distances.
pub proof fn lemma_narrowing_scan_matches(
    roots: Seq<(bool, u64, u64)>,
    t_min: u64,
    t_max: u64,
    n: int,
)
    requires
        0 <= n <= roots.len(),
        forall|i: int| 0 <= i < roots.len() ==> (#[trigger] roots[i]).1 <= roots[i].2,
    ensures
        narrowing_scan(roots, t_min, t_max, n) == scan_state(
            full_range_keys(roots, t_min, t_max),
            t_min,
            t_max,
            n,
        ),
        narrowing_scan(roots, t_min, t_max, n).1 <= t_max,
    decreases n,
{
    if n > 0 {
        lemma_narrowing_scan_matches(roots, t_min, t_max, n - 1);
        let r = roots[n - 1];
        let closest = narrowing_scan(roots, t_min, t_max, n - 1).1;
        lemma_select_root_narrowed(r.0, r.1, r.2, t_min, t_max, closest);
    }
}

/// Index of the closest hit among the primitives' reported distance keys, each
/// taken in list order and kept when no farther than the closest so far; among
/// equal distances the last one wins.
pub fn closest_hit(hits: &Vec<Option<u64>>, t_min: u64, t_max: u64) -> (r: Option<usize>)
    ensures
        r matches Some(i) ==> scan_state(hits@, t_min, t_max, hits@.len() as int).0 == Some(i as int),
        r is None ==> scan_state(hits@, t_min, t_max, hits@.len() as int).0 is None,
        r is None <==> forall|j: int| 0 <= j < hits@.len() ==> !is_candidate(hits@, j, t_min, t_max),
        r matches Some(i) ==> {
            &&& is_candidate(hits@, i as int, t_min, t_max)
            &&& forall|j: int|
                is_candidate(hits@, j, t_min, t_max) ==> hits@[i as int]->0 <= hits@[j]->0
            &&& forall|j: int|
                i < j && is_candidate(hits@, j, t_min, t_max) ==> hits@[i as int]->0 < hits@[j]->0
        },
{
    let mut best: Option<usize> = None;
    let mut closest: u64 = t_max;
    let mut k: usize = 0;
    while k < hits.len()
        invariant
            0 <= k <= hits@.len(),
            scan_state(hits@, t_min, t_max, k as int).1 == closest,
            best matches Some(b) ==> scan_state(hits@, t_min, t_max, k as int).0 == Some(b as int),
            best is None ==> scan_state(hits@, t_min, t_max, k as int).0 is None,
            best is None ==> closest == t_max && forall|j: int|
                0 <= j < k ==> !is_candidate(hits@, j, t_min, t_max),
            best matches Some(b) ==> {
                &&& b < k
                &&& is_candidate(hits@, b as int, t_min, t_max)
                &&& closest == hits@[b as int]->0
                &&& forall|j: int|
                    0 <= j < k && is_candidate(hits@, j, t_min, t_max) ==> closest <= hits@[j]->0
                &&& forall|j: int|
                    b < j < k && is_candidate(hits@, j, t_min, t_max) ==> closest < hits@[j]->0
            },
        decreases hits@.len() - k,
    {
        if let Some(t) = hits[k] {
            if t_min <= t && t <= closest {
                best = Some(k);
                closest = t;
            }
        }
        k += 1;
    }
    best
}

} // verus!
