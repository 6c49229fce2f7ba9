use vstd::prelude::*;
use vstd::string::*;
use vstd::utf8::*;
use crate::ctx::ErrCtx;
use crate::res_ext_methods::context::{
    carries,
    carries_more,
    has_room,
    lemma_appended_text,
    push_context,
};

verus! {

/// Gives a failure its first context, the text that `closure` computes; it
/// is called only on a failure.
pub fn with_context_impl<T, E, F>(res: Result<T, E>, closure: F) -> (r: Result<T, ErrCtx<E>>) where
    F: FnOnce() -> String,

    requires
        res is Err ==> closure.requires(()),
    ensures
        match res {
            Ok(t) => r == Ok::<T, ErrCtx<E>>(t),
            Err(e) => exists|s: String| #[trigger]
                closure.ensures((), s) && carries(r, res, encode_utf8(s@)),
        },
        r is Err ==> valid_utf8(r->Err_0.msg@),
{
    match res {
        Ok(ok) => Ok(ok),
        Err(e) => {
            let s = closure();
            proof {
                encode_utf8_valid_utf8(s@);
            }
            Err(ErrCtx { msg: s.as_str().as_bytes_vec(), source: e })
        },
    }
}

/// Attaches the text that `closure` computes to a failure that already
/// carries context; it is called only on a failure.
pub fn extra_with_ctx_impl<T, E, F>(res: Result<T, ErrCtx<E>>, closure: F) -> (r: Result<
    T,
    ErrCtx<E>,
>) where F: FnOnce() -> String
    requires
        res is Err ==> closure.requires(()),
        forall|s: String| #[trigger] closure.ensures((), s) ==> has_room(res, encode_utf8(s@).len()),
    ensures
        match res {
            Ok(t) => r == Ok::<T, ErrCtx<E>>(t),
            Err(e) => exists|s: String| #[trigger]
                closure.ensures((), s) && carries_more(r, res, encode_utf8(s@)),
        },
        res is Err && valid_utf8(res->Err_0.msg@) ==> valid_utf8(r->Err_0.msg@),
{
    match res {
        Ok(ok) => Ok(ok),
        Err(mut e) => {
            let s = closure();
            proof {
                encode_utf8_valid_utf8(s@);
                lemma_appended_text(e.msg@, encode_utf8(s@));
            }
            push_context(&mut e, s.as_str().as_bytes());
            Err(e)
        },
    }
}

} // verus!
