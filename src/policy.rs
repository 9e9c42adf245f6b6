use vstd::prelude::*;
use crate::op::{pop_op, PartialOp};

verus! {

/// An intercepted call, as far as the policy needs to know it.
#[derive(Clone, Copy, Debug, PartialEq, Eq)]
pub enum Request {
    /// A read or a write that asks for up to this many bytes.
    Transfer(usize),
    /// A flush, which has no length.
    Flush,
}

/// What the wrapper does with one call.
#[derive(Clone, Copy, Debug, PartialEq, Eq)]
pub enum Effect {
    /// Hand the inner stream a read or write of exactly this many bytes.
    Forward(usize),
    /// Flush the inner stream.
    Flush,
    /// Fail with this kind, without calling the inner stream.
    Fail(std::io::ErrorKind),
}

/// The call made as if no wrapper were there.
pub open spec fn pass_through(req: Request) -> Effect {
    match req {
        Request::Transfer(len) => Effect::Forward(len),
        Request::Flush => Effect::Flush,
    }
}

/// The effect of `req` when `op` governs it (`None`: the ops are used up).
pub open spec fn effect_of(op: Option<PartialOp>, req: Request) -> Effect {
    match op {
        Some(PartialOp::Fail(kind)) => Effect::Fail(kind),
        Some(PartialOp::Limited(n)) => match req {
            Request::Transfer(len) => Effect::Forward(if n < len { n } else { len }),
            Request::Flush => Effect::Flush,
        },
        _ => pass_through(req),
    }
}

/// The effects of the calls `reqs`, made one after another on a wrapper whose
/// ops are `ops`.
pub open spec fn run(ops: Seq<PartialOp>, reqs: Seq<Request>) -> Seq<Effect>
    decreases reqs.len(),
{
    if reqs.len() == 0 {
        Seq::empty()
    } else {
        let (op, rest) = pop_op(ops);
        seq![effect_of(op, reqs[0])] + run(rest, reqs.drop_first())
    }
}

/// Decides what to do with `req` under `op`.
pub fn decide(op: Option<PartialOp>, req: Request) -> (e: Effect)
    ensures
        e == effect_of(op, req),
{
    match op {
        Some(PartialOp::Fail(kind)) => Effect::Fail(kind),
        Some(PartialOp::Limited(n)) => match req {
            Request::Transfer(len) => Effect::Forward(if n < len { n } else { len }),
            Request::Flush => Effect::Flush,
        },
        _ => match req {
            Request::Transfer(len) => Effect::Forward(len),
            Request::Flush => Effect::Flush,
        },
    }
}

/// `run` makes one effect per call, and its first one is that of the first op.
proof fn lemma_run_unfold(ops: Seq<PartialOp>, reqs: Seq<Request>)
    ensures
        run(ops, reqs).len() == reqs.len(),
        reqs.len() > 0 ==> run(ops, reqs)[0] == effect_of(pop_op(ops).0, reqs[0]),
        forall|i: int|
            1 <= i < reqs.len() ==> #[trigger] run(ops, reqs)[i] == run(
                pop_op(ops).1,
                reqs.drop_first(),
            )[i - 1],
    decreases reqs.len(),
{
    if reqs.len() > 0 {
        lemma_run_unfold(pop_op(ops).1, reqs.drop_first());
    }
}

/// Under `Limited(n)`, a read or write asking for `len` bytes is handed to the
/// inner stream with room for exactly `min(n, len)` bytes, never more than
/// either.
pub proof fn lemma_limited_transfer_is_capped(n: usize, len: usize)
    ensures
        effect_of(Some(PartialOp::Limited(n)), Request::Transfer(len)) == Effect::Forward(
            if n < len { n } else { len },
        ),
        effect_of(Some(PartialOp::Limited(n)), Request::Transfer(len))->Forward_0 <= n,
        effect_of(Some(PartialOp::Limited(n)), Request::Transfer(len))->Forward_0 <= len,
{
}

/// A wrapper whose ops are all `Unlimited` is transparent: every call is made
/// on the inner stream exactly as it was asked for.
pub proof fn lemma_unlimited_is_transparent(ops: Seq<PartialOp>, reqs: Seq<Request>)
    requires
        forall|i: int| 0 <= i < ops.len() ==> #[trigger] ops[i] == PartialOp::Unlimited,
    ensures
        run(ops, reqs).len() == reqs.len(),
        forall|i: int| 0 <= i < reqs.len() ==> #[trigger] run(ops, reqs)[i] == pass_through(reqs[i]),
    decreases reqs.len(),
{
    lemma_run_unfold(ops, reqs);
    if reqs.len() > 0 {
        let rest = pop_op(ops).1;
        assert forall|i: int| 0 <= i < rest.len() implies #[trigger] rest[i] == PartialOp::Unlimited by {
            assert(rest[i] == ops[i + 1]);
        }
        lemma_unlimited_is_transparent(rest, reqs.drop_first());
        assert forall|i: int| 0 <= i < reqs.len() implies #[trigger] run(ops, reqs)[i] == pass_through(reqs[i]) by {
            if i > 0 {
                assert(reqs.drop_first()[i - 1] == reqs[i]);
            }
        }
    }
}

/// Once the ops are used up, every further call is made as if it were
/// `Unlimited`, for as long as the wrapper lives.
pub proof fn lemma_exhausted_is_unlimited(ops: Seq<PartialOp>, reqs: Seq<Request>)
    ensures
        run(ops, reqs).len() == reqs.len(),
        forall|i: int|
            ops.len() <= i < reqs.len() ==> #[trigger] run(ops, reqs)[i] == pass_through(reqs[i]),
    decreases reqs.len(),
{
    lemma_run_unfold(ops, reqs);
    if reqs.len() > 0 {
        let rest = pop_op(ops).1;
        lemma_exhausted_is_unlimited(rest, reqs.drop_first());
        assert forall|i: int| ops.len() <= i < reqs.len() implies #[trigger] run(ops, reqs)[i] == pass_through(reqs[i]) by {
            if i == 0 {
                assert(ops.len() == 0);
            } else {
                assert(reqs.drop_first()[i - 1] == reqs[i]);
            }
        }
    }
}

} // verus!
