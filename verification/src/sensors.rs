//! Earlier payload controller interface: bound enforcement by comparison and
//! the payload power typestates.
use vstd::prelude::*;
use core::cmp::Ordering;
use vstd::std_specs::cmp::PartialOrdSpec;

pub mod controller;
pub use controller::PayloadController;

verus! {

/// What `enforce_bounds` returns, as `PartialOrd` specifies the comparisons:
/// the upper bound when `num` is above it, else the lower bound when `num` is
/// below that, else `num`.
pub open spec fn spec_enforce_bounds_partial<T: PartialOrd>(lower_bound: T, num: T, upper_bound: T) -> T {
    if num.partial_cmp_spec(&upper_bound) == Some(Ordering::Greater) {
        upper_bound
    } else if num.partial_cmp_spec(&lower_bound) == Some(Ordering::Less) {
        lower_bound
    } else {
        num
    }
}

/// Returns `num` such that `lower_bound <= num <= upper_bound`.
pub fn enforce_bounds<T: PartialOrd>(lower_bound: T, num: T, upper_bound: T) -> (r: T)
    ensures
        T::obeys_partial_cmp_spec() ==> r == spec_enforce_bounds_partial(lower_bound, num, upper_bound),
{
    let mut num = num;
    if num > upper_bound {
        num = upper_bound;
    } else if num < lower_bound {
        num = lower_bound;
    }
    num
}

/// Whether `partial_cmp_spec` orders `T` totally: every two values compare,
/// `Equal` exactly on equal values, `Less` one way exactly when `Greater`
/// the other, and `Less` transitive.
pub open spec fn partial_total_order<T: PartialOrd>() -> bool {
    &&& forall|a: T, b: T| #[trigger] a.partial_cmp_spec(&b) is Some
    &&& forall|a: T, b: T| #[trigger] a.partial_cmp_spec(&b) == Some(Ordering::Equal) <==> a == b
    &&& forall|a: T, b: T|
        #[trigger] a.partial_cmp_spec(&b) == Some(Ordering::Less) <==> b.partial_cmp_spec(&a) == Some(
            Ordering::Greater,
        )
    &&& forall|a: T, b: T, c: T|
        #[trigger] a.partial_cmp_spec(&b) == Some(Ordering::Less) && #[trigger] b.partial_cmp_spec(&c) == Some(
            Ordering::Less,
        ) ==> a.partial_cmp_spec(&c) == Some(Ordering::Less)
}

/// `a <= b` by `partial_cmp_spec`.
pub open spec fn partial_le<T: PartialOrd>(a: T, b: T) -> bool {
    a.partial_cmp_spec(&b) == Some(Ordering::Less) || a.partial_cmp_spec(&b) == Some(Ordering::Equal)
}

/// Law: for any totally ordered type, with ordered bounds, the result lies
/// between the bounds, is `num` itself when `num` already does, and enforcing
/// the same bounds again changes nothing.
pub proof fn enforce_bounds_partial_within<T: PartialOrd>(lower_bound: T, num: T, upper_bound: T)
    requires
        partial_total_order::<T>(),
        partial_le(lower_bound, upper_bound),
    ensures
        partial_le(lower_bound, spec_enforce_bounds_partial(lower_bound, num, upper_bound)),
        partial_le(spec_enforce_bounds_partial(lower_bound, num, upper_bound), upper_bound),
        partial_le(lower_bound, num) && partial_le(num, upper_bound) ==> spec_enforce_bounds_partial(
            lower_bound,
            num,
            upper_bound,
        ) == num,
        spec_enforce_bounds_partial(lower_bound, spec_enforce_bounds_partial(lower_bound, num, upper_bound), upper_bound)
            == spec_enforce_bounds_partial(lower_bound, num, upper_bound),
{
    let r = spec_enforce_bounds_partial(lower_bound, num, upper_bound);
    assert(lower_bound.partial_cmp_spec(&lower_bound) == Some(Ordering::Equal));
    assert(upper_bound.partial_cmp_spec(&upper_bound) == Some(Ordering::Equal));
    assert(num.partial_cmp_spec(&upper_bound) is Some);
    assert(num.partial_cmp_spec(&lower_bound) is Some);
    assert(upper_bound.partial_cmp_spec(&lower_bound) is Some);
    assert(lower_bound.partial_cmp_spec(&num) is Some);
    assert(upper_bound.partial_cmp_spec(&lower_bound) != Some(Ordering::Less));
    if num.partial_cmp_spec(&upper_bound) == Some(Ordering::Greater) {
        assert(r == upper_bound);
        assert(partial_le(upper_bound, upper_bound));
    } else if num.partial_cmp_spec(&lower_bound) == Some(Ordering::Less) {
        assert(r == lower_bound);
        assert(partial_le(lower_bound, lower_bound));
    } else {
        assert(r == num);
        let c = num.partial_cmp_spec(&upper_bound).unwrap();
        assert(c != Ordering::Greater);
        assert(partial_le(num, upper_bound));
        let d = lower_bound.partial_cmp_spec(&num).unwrap();
        assert(num.partial_cmp_spec(&lower_bound) != Some(Ordering::Less));
        assert(d != Ordering::Greater);
        assert(partial_le(lower_bound, num));
    }
    if partial_le(lower_bound, num) && partial_le(num, upper_bound) {
        assert(num.partial_cmp_spec(&lower_bound) != Some(Ordering::Less));
    }
}

/// Typestate marking whether the payload is powered.
pub trait PayloadState {}

/// The payload is powered.
pub struct PayloadOn;

impl PayloadState for PayloadOn {}

/// The payload is not powered.
pub struct PayloadOff;

impl PayloadState for PayloadOff {}

/// Builds payload controllers in a chosen power state.
pub struct PayloadBuilder;

} // verus!
