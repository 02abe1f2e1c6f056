//! Function composition, the glue the components are built from.

use vstd::prelude::*;

verus! {

/// Composes two functions left to right.
///
/// The result accepts an argument when `f` does and every value `f` can
/// produce from it is accepted by `g`; what it returns is what `g` made
/// of what `f` made of the argument.
pub fn compose<F, G, T, U, V>(f: F, g: G) -> (r: impl Fn(T) -> V)
    where
        F: Fn(T) -> U,
        G: Fn(U) -> V,
    ensures
        forall|t: T, v: V|
            #[trigger] call_ensures(&r, (t,), v) ==> exists|u: U|
                call_ensures(&f, (t,), u) && call_ensures(&g, (u,), v),
{
    move |t: T| -> (v: V)
        requires
            call_requires(&f, (t,)),
            forall|u: U| #[trigger] call_ensures(&f, (t,), u) ==> call_requires(&g, (u,)),
        ensures
            exists|u: U| #[trigger] call_ensures(&f, (t,), u) && call_ensures(&g, (u,), v),
        {
            let u: U = f(t);
            g(u)
        }
}

} // verus!
