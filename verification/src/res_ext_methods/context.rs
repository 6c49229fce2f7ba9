use vstd::prelude::*;
use vstd::string::*;
use vstd::utf8::*;
use crate::ctx::ErrCtx;
use crate::std_specs::{vec_capacity, vec_reserve_exact};

verus! {

/// A chain after the message `bytes` is attached to the chain `msg`: the
/// old chain, a line break with `- `, and the new message.
pub open spec fn appended(msg: Seq<u8>, bytes: Seq<u8>) -> Seq<u8> {
    msg + encode_utf8("\n- "@) + bytes
}

/// The chain made by attaching `messages` one after the other: the first as
/// it is, each later one behind a line break and `- `, so that the message
/// attached last stands last.
pub open spec fn chain_of(messages: Seq<Seq<u8>>) -> Seq<u8>
    decreases messages.len(),
{
    if messages.len() == 0 {
        Seq::empty()
    } else if messages.len() == 1 {
        messages[0]
    } else {
        appended(chain_of(messages.drop_last()), messages.last())
    }
}

/// Attaching one more message to the chain of some messages gives the chain
/// of all of them.
pub proof fn lemma_chain_of_push(messages: Seq<Seq<u8>>, bytes: Seq<u8>)
    requires
        messages.len() > 0,
    ensures
        appended(chain_of(messages), bytes) == chain_of(messages.push(bytes)),
{
    assert(messages.push(bytes).drop_last() =~= messages);
}

/// Whether `r` is `res` with its error, if any, now carrying the chain
/// `msg`.
pub open spec fn carries<T, E>(r: Result<T, ErrCtx<E>>, res: Result<T, E>, msg: Seq<u8>) -> bool {
    match res {
        Ok(t) => r == Ok::<T, ErrCtx<E>>(t),
        Err(e) => r is Err && r->Err_0.msg@ == msg && r->Err_0.source == e,
    }
}

/// Whether `r` is `res` with the message `bytes` attached to the chain that
/// its error, if any, already carries.
pub open spec fn carries_more<T, E>(
    r: Result<T, ErrCtx<E>>,
    res: Result<T, ErrCtx<E>>,
    bytes: Seq<u8>,
) -> bool {
    match res {
        Ok(t) => r == Ok::<T, ErrCtx<E>>(t),
        Err(e) => r is Err && r->Err_0.msg@ == appended(e.msg@, bytes) && r->Err_0.source
            == e.source,
    }
}

/// Whether attaching `len` more bytes of message to the error of `res`, if
/// any, keeps its chain within what a vector can hold.
pub open spec fn has_room<T, E>(res: Result<T, ErrCtx<E>>, len: nat) -> bool {
    res is Err ==> res->Err_0.msg@.len() + 3 + len <= isize::MAX
}

/// Attaches `bytes` to `e` behind a line break and `- `. Room is reserved
/// exactly when the vector holds no more than the new message needs.
pub fn push_context<E>(e: &mut ErrCtx<E>, bytes: &[u8])
    requires
        old(e).msg@.len() + 3 + bytes@.len() <= isize::MAX,
    ensures
        final(e).msg@ == appended(old(e).msg@, bytes@),
        final(e).source == old(e).source,
{
    let sep = "\n- ".as_bytes();
    proof {
        reveal_strlit("\n- ");
        is_ascii_chars_encode_utf8("\n- "@);
        assert(sep@.len() == 3);
    }
    let len: usize = bytes.len();
    let cap: usize = vec_capacity(&e.msg);
    if cap <= 3 + len {
        vec_reserve_exact(&mut e.msg, 3 + len - cap);
    }
    e.msg.extend_from_slice(sep);
    e.msg.extend_from_slice(bytes);
    proof {
        assert(e.msg@ =~= appended(old(e).msg@, bytes@));
    }
}

/// Gives a failure its first context, the text `msg`.
pub fn new_context_impl<T, E>(res: Result<T, E>, msg: &'static str) -> (r: Result<T, ErrCtx<E>>)
    ensures
        carries(r, res, msg.spec_bytes()),
        r is Err ==> valid_utf8(r->Err_0.msg@),
{
    proof {
        encode_utf8_valid_utf8(msg@);
    }
    match res {
        Ok(ok) => Ok(ok),
        Err(e) => Err(ErrCtx { msg: msg.as_bytes_vec(), source: e }),
    }
}

/// Attaches the text `msg` to a failure that already carries context.
pub fn extra_ctx_impl<T, E>(res: Result<T, ErrCtx<E>>, msg: &'static str) -> (r: Result<
    T,
    ErrCtx<E>,
>)
    requires
        has_room(res, msg.spec_bytes().len()),
    ensures
        carries_more(r, res, msg.spec_bytes()),
        res is Err && valid_utf8(res->Err_0.msg@) ==> valid_utf8(r->Err_0.msg@),
{
    match res {
        Ok(ok) => Ok(ok),
        Err(mut e) => {
            proof {
                encode_utf8_valid_utf8(msg@);
                lemma_appended_text(e.msg@, msg.spec_bytes());
            }
            push_context(&mut e, msg.as_bytes());
            Err(e)
        },
    }
}

/// Gives a failure its first context, the bytes `bytes`.
pub fn byte_context_impl<T, E>(res: Result<T, E>, bytes: Vec<u8>) -> (r: Result<T, ErrCtx<E>>)
    ensures
        carries(r, res, bytes@),
{
    match res {
        Ok(ok) => Ok(ok),
        Err(e) => Err(ErrCtx { msg: bytes, source: e }),
    }
}

/// Attaches the bytes `bytes` to a failure that already carries context.
pub fn extra_byte_context_impl<T, E>(res: Result<T, ErrCtx<E>>, bytes: &[u8]) -> (r: Result<
    T,
    ErrCtx<E>,
>)
    requires
        has_room(res, bytes@.len()),
    ensures
        carries_more(r, res, bytes@),
{
    match res {
        Ok(ok) => Ok(ok),
        Err(mut e) => {
            push_context(&mut e, bytes);
            Err(e)
        },
    }
}

/// Attaching text to a chain that is text gives text.
pub proof fn lemma_appended_text(msg: Seq<u8>, bytes: Seq<u8>)
    requires
        valid_utf8(bytes),
    ensures
        valid_utf8(msg) ==> valid_utf8(appended(msg, bytes)),
{
    if valid_utf8(msg) {
        encode_utf8_valid_utf8("\n- "@);
        valid_utf8_concat(msg, encode_utf8("\n- "@));
        valid_utf8_concat(msg + encode_utf8("\n- "@), bytes);
    }
}

} // verus!
