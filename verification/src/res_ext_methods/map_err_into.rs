use vstd::prelude::*;

verus! {

/// Converts the error of a failure into another type; a success passes
/// through.
pub fn map_err_into_impl<T, E, E2>(res: Result<T, E>) -> (r: Result<T, E2>) where E: Into<E2>
    ensures
        match res {
            Ok(t) => r == Ok::<T, E2>(t),
            Err(e) => r is Err && call_ensures(<E as Into<E2>>::into, (e,), r->Err_0),
        },
{
    match res {
        Ok(t) => Ok(t),
        Err(e) => Err(e.into()),
    }
}

} // verus!
