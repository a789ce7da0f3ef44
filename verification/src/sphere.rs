use vstd::prelude::*;

verus! {

/// Which root of the intersection quadratic the solver accepts.
#[derive(Copy, Clone, Debug, PartialEq, Eq, Structural)]
pub enum RootChoice {
    /// The smaller root lies inside the valid parametric interval.
    Near,
    /// Only the larger root lies inside the interval.
    Far,
    /// The ray misses: no real roots, or both roots outside the interval.
    Miss,
}

/// The root-selection rule of the ray-sphere solver.  `real_roots` says
/// whether the discriminant admits an intersection (negative values beyond
/// the tolerance mean a miss); the other two flags say whether the ordered
/// roots lie inside [t_min, t_max].
pub open spec fn select_root_spec(real_roots: bool, near_in_range: bool, far_in_range: bool) -> RootChoice {
    if !real_roots {
        RootChoice::Miss
    } else if near_in_range {
        RootChoice::Near
    } else if far_in_range {
        RootChoice::Far
    } else {
        RootChoice::Miss
    }
}

/// Decision core of `hit`: prefer the near root, fall back to the far root,
/// otherwise report a miss.  The result is pinned for every combination of
/// the three facts.
pub fn select_root(real_roots: bool, near_in_range: bool, far_in_range: bool) -> (choice: RootChoice)
    ensures
        choice == select_root_spec(real_roots, near_in_range, far_in_range),
        choice is Near <==> real_roots && near_in_range,
        choice is Far <==> real_roots && !near_in_range && far_in_range,
        choice is Miss <==> !real_roots || (!near_in_range && !far_in_range),
{
    if !real_roots {
        RootChoice::Miss
    } else if near_in_range {
        RootChoice::Near
    } else if far_in_range {
        RootChoice::Far
    } else {
        RootChoice::Miss
    }
}

/// A ray whose discriminant admits no real roots is reported as a miss for
/// every parametric interval: no choice of [t_min, t_max] can turn a ray
/// that passes outside the sphere into a hit.
pub proof fn lemma_no_real_roots_is_miss(near_in_range: bool, far_in_range: bool)
    ensures
        select_root_spec(false, near_in_range, far_in_range) is Miss,
{
}

/// When both roots fall outside the interval the solver reports a miss even
/// though the line of the ray crosses the sphere.
pub proof fn lemma_interval_exhausted_is_miss(real_roots: bool)
    ensures
        select_root_spec(real_roots, false, false) is Miss,
{
}

} // verus!
