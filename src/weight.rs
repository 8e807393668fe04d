use vstd::prelude::*;

verus! {

/// Weights and distances are `magnitude::Magnitude` values: `Finite(v)`, `PosInfinite`
/// or `NegInfinite`. Its variants are public, so the contracts read them directly.
#[verifier::external_type_specification]
#[verifier::reject_recursive_types(T)]
pub struct ExMagnitude<T>(magnitude::Magnitude<T>);

/// Relies on `From<T> for magnitude::Magnitude<T>` (`Magnitude::from_value`): the result
/// is `Finite(w)`, except that a float infinity becomes one of the infinite variants, so
/// a finite result always holds the value that was handed in.
#[verifier::external_body]
pub(crate) fn to_magnitude<W: 'static>(w: W) -> (r: magnitude::Magnitude<W>)
    ensures
        r matches magnitude::Magnitude::Finite(v) ==> v == w,
{
    magnitude::Magnitude::from(w)
}

} // verus!
