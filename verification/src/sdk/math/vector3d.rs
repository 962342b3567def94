use vstd::prelude::*;
use vstd::std_specs::cmp::PartialOrdSpec;
use vstd::std_specs::cmp::PartialOrdIs;
use vstd::laws_cmp::obeys_partial_cmp_spec_properties;

verus! {

/// What `clip_number` gives: a number below `lower` wraps round to `upper`, one
/// above `upper` wraps round to `lower`, and any other is kept.
pub open spec fn spec_clip_number<T: PartialOrd>(n: T, lower: T, upper: T) -> T {
    if n.is_lt(&lower) {
        upper
    } else if n.is_gt(&upper) {
        lower
    } else {
        n
    }
}

/// Wraps `n` into `lower..=upper`: below the range it becomes `upper`, above it
/// `lower`. For a type whose ordering is the one its specification states, the
/// result is `spec_clip_number(n, lower, upper)`.
pub fn clip_number<T: PartialOrd>(n: T, lower: T, upper: T) -> (r: T)
    ensures
        r == n || r == lower || r == upper,
        T::obeys_partial_cmp_spec() ==> r == spec_clip_number(n, lower, upper),
{
    if n < lower {
        return upper;
    }
    if n > upper {
        return lower;
    }
    n
}

/// A clip wraps round rather than saturating: a number below `lower` becomes
/// `upper`, one above `upper` (and not below `lower`) becomes `lower`.
pub proof fn lemma_clip_number_wraps<T: PartialOrd>(n: T, lower: T, upper: T)
    ensures
        n.is_lt(&lower) ==> spec_clip_number(n, lower, upper) == upper,
        !n.is_lt(&lower) && n.is_gt(&upper) ==> spec_clip_number(n, lower, upper) == lower,
{
}

/// The result of a clip is one of the three arguments, and a number inside the
/// range is kept.
pub proof fn lemma_clip_number_cases<T: PartialOrd>(n: T, lower: T, upper: T)
    ensures
        spec_clip_number(n, lower, upper) == n || spec_clip_number(n, lower, upper) == upper
            || spec_clip_number(n, lower, upper) == lower,
        !n.is_lt(&lower) && !n.is_gt(&upper) ==> spec_clip_number(n, lower, upper) == n,
{
}

/// Clipping is idempotent: for a totally ordered type whose ordering obeys the
/// laws of an order, and a range with `lower <= upper`, clipping a clipped
/// number changes nothing.
pub proof fn lemma_clip_number_idempotent<T: PartialOrd>(n: T, lower: T, upper: T)
    requires
        obeys_partial_cmp_spec_properties::<T>(),
        forall|x: T, y: T| #[trigger] x.partial_cmp_spec(&y) is Some,
        lower.is_le(&upper),
    ensures
        spec_clip_number(spec_clip_number(n, lower, upper), lower, upper) == spec_clip_number(
            n,
            lower,
            upper,
        ),
{
    reveal(obeys_partial_cmp_spec_properties);
    assert(upper.partial_cmp_spec(&upper) is Some);
    assert(lower.partial_cmp_spec(&lower) is Some);
    assert(upper.partial_cmp_spec(&lower) is Some);
    assert(lower.partial_cmp_spec(&upper) is Some);
}
} // verus!
