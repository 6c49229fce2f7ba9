//! Contracts for the parts of the standard library that the crate calls and
//! that come without one. They are believed, not proved.

use vstd::prelude::*;
use vstd::string::*;
use vstd::utf8::*;

verus! {

/// The error of `core::str::from_utf8`; nothing is known of what it holds.
#[verifier::external_type_specification]
#[verifier::external_body]
pub struct ExUtf8Error(core::str::Utf8Error);

/// `core::str::from_utf8` succeeds exactly on valid UTF-8, and the string it
/// then returns is made of the very bytes it was given.
pub assume_specification[ core::str::from_utf8 ](v: &[u8]) -> (r: Result<
    &str,
    core::str::Utf8Error,
>)
    ensures
        r is Ok <==> valid_utf8(v@),
        r is Ok ==> r->Ok_0.spec_bytes() == v@,
;

/// `Vec::capacity`: how many bytes `v` can hold without allocating again.
/// It is never less than the length; beyond that it is up to the allocator.
#[verifier::external_body]
pub(crate) fn vec_capacity(v: &Vec<u8>) -> (cap: usize)
    ensures
        cap >= v@.len(),
{
    v.capacity()
}

/// `Vec::reserve_exact`: makes room for `additional` more bytes and leaves
/// the contents as they are. The call panics when the capacity asked for
/// exceeds `isize::MAX`, which `requires` rules out.
#[verifier::external_body]
pub(crate) fn vec_reserve_exact(v: &mut Vec<u8>, additional: usize)
    requires
        old(v)@.len() + additional <= isize::MAX,
    ensures
        final(v)@ == old(v)@,
{
    v.reserve_exact(additional)
}

/// What `{:?}` shows for `value`. The text is whatever the type's `Debug`
/// writes, so nothing is claimed of it.
#[verifier::external_body]
pub(crate) fn debug_text<E: core::fmt::Debug>(value: &E) -> (r: String) {
    format!("{:?}", value)
}

} // verus!
