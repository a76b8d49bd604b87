use vstd::prelude::*;
use vstd::std_specs::cmp::PartialEqSpec;

verus! {

/// The default of a flag that is on unless it is switched off.
pub fn true_() -> (r: bool)
    ensures
        r,
{
    true
}

/// Whether a value equals a default value of its type, by the equality of the
/// type. What the default is, the type decides.
pub fn eq_default<T: Default + PartialEq>(t: &T) -> (r: bool)
    ensures
        T::obeys_eq_spec() ==> exists|d: T|
            call_ensures(T::default, (), d) && r == #[trigger] t.eq_spec(&d),
{
    let d = T::default();
    t.eq(&d)
}

} // verus!
