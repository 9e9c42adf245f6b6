use vstd::prelude::*;
use vstd::slice::slice_subrange;
use crate::op::{pop_op, OpSequence, PartialOp};
use crate::policy::{decide, effect_of, Effect, Request};

verus! {

/// The intercepted call that a fabricated error replaces.
#[derive(Clone, Copy, Debug, PartialEq, Eq, Structural)]
pub enum CallKind {
    Write,
    Flush,
}

/// An error that the wrapper makes up in place of calling the inner stream.
#[derive(Clone, Copy, Debug, PartialEq, Eq)]
pub struct Fault {
    pub kind: std::io::ErrorKind,
    pub call: CallKind,
    /// Whether the current task has to be woken again, so that the executor
    /// retries the call instead of giving up on it.
    pub wake: bool,
}

/// A would-block fault must wake the task; no other kind does.
pub open spec fn wakes(kind: std::io::ErrorKind) -> bool {
    kind == std::io::ErrorKind::WouldBlock
}

pub open spec fn fault_of(kind: std::io::ErrorKind, call: CallKind) -> Fault {
    Fault { kind, call, wake: wakes(kind) }
}

/// The text of a fabricated error: it names the call and says that the error
/// did not come from the inner stream.
pub open spec fn fault_text(call: CallKind) -> Seq<char> {
    match call {
        CallKind::Write => "error during write, generated by partial-io"@,
        CallKind::Flush => "error during flush, generated by partial-io"@,
    }
}

impl Fault {
    pub fn new(kind: std::io::ErrorKind, call: CallKind) -> (f: Fault)
        ensures
            f == fault_of(kind, call),
    {
        let wake = matches!(kind, std::io::ErrorKind::WouldBlock);
        Fault { kind, call, wake }
    }

    /// The message that the error carries.
    pub fn message(&self) -> (r: &'static str)
        ensures
            r@ == fault_text(self.call),
    {
        match self.call {
            CallKind::Write => "error during write, generated by partial-io",
            CallKind::Flush => "error during flush, generated by partial-io",
        }
    }
}

/// What to do with one `write` call.
pub enum WriteAction<'a> {
    /// Write exactly these bytes, a prefix of the caller's buffer, to the
    /// inner stream and report its result unchanged.
    Forward(&'a [u8]),
    /// Return this error; the inner stream is not called.
    Fail(Fault),
}

/// What to do with one `flush` call.
#[derive(Clone, Copy, Debug, PartialEq, Eq)]
pub enum FlushAction {
    /// Flush the inner stream and report its result unchanged.
    Flush,
    /// Return this error; the inner stream is not called.
    Fail(Fault),
}

/// `action` carries out `effect` on a write of `buf`.
pub open spec fn write_action_is(action: WriteAction, effect: Effect, buf: Seq<u8>) -> bool {
    match effect {
        Effect::Forward(n) => match action {
            WriteAction::Forward(part) => part@ == buf.take(n as int),
            WriteAction::Fail(_) => false,
        },
        Effect::Fail(kind) => match action {
            WriteAction::Forward(_) => false,
            WriteAction::Fail(f) => f == fault_of(kind, CallKind::Write),
        },
        Effect::Flush => false,
    }
}

/// `action` carries out `effect` on a flush.
pub open spec fn flush_action_is(action: FlushAction, effect: Effect) -> bool {
    match effect {
        Effect::Flush => action == FlushAction::Flush,
        Effect::Fail(kind) => action == FlushAction::Fail(fault_of(kind, CallKind::Flush)),
        Effect::Forward(_) => false,
    }
}

/// A writer that breaks the writes and flushes made on it according to a
/// sequence of [`PartialOp`]s, one op per call.
///
/// It owns the inner writer and its ops. Reads, and shutting the writer down,
/// are not governed by the ops: they go to the inner stream unchanged.
pub struct PartialAsyncWrite<W> {
    inner: W,
    ops: OpSequence,
}

impl<W> PartialAsyncWrite<W> {
    /// The inner writer.
    pub closed spec fn inner(&self) -> W {
        self.inner
    }

    /// The ops that are left, in the order in which calls will consume them.
    pub closed spec fn ops(&self) -> Seq<PartialOp> {
        self.ops@
    }

    /// Wraps `inner`, with `ops` governing the calls to come.
    pub fn new(inner: W, ops: Vec<PartialOp>) -> (r: Self)
        ensures
            r.inner() == inner,
            r.ops() == ops@,
    {
        PartialAsyncWrite { inner, ops: OpSequence::new(ops) }
    }

    /// Replaces the ops that are left by `ops`; the next call consumes the
    /// first of them.
    pub fn set_ops(&mut self, ops: Vec<PartialOp>) -> (r: &mut Self)
        ensures
            r.inner() == old(self).inner(),
            r.ops() == ops@,
            *final(self) == *final(r),
    {
        self.ops = OpSequence::new(ops);
        self
    }

    /// The inner writer, for inspection or for calls that bypass the ops.
    pub fn get_mut(&mut self) -> (r: &mut W)
        ensures
            *r == old(self).inner(),
            final(self).inner() == *final(r),
            final(self).ops() == old(self).ops(),
    {
        &mut self.inner
    }

    /// The inner writer, read-only.
    pub fn get_ref(&self) -> (r: &W)
        ensures
            *r == self.inner(),
    {
        &self.inner
    }

    /// Gives the inner writer back.
    pub fn into_inner(self) -> (r: W)
        ensures
            r == self.inner(),
    {
        self.inner
    }

    /// Consumes the op for one `write` of `buf` and says what to do with it.
    pub fn write_action<'a>(&mut self, buf: &'a [u8]) -> (r: WriteAction<'a>)
        ensures
            final(self).inner() == old(self).inner(),
            final(self).ops() == pop_op(old(self).ops()).1,
            write_action_is(
                r,
                effect_of(pop_op(old(self).ops()).0, Request::Transfer(buf@.len() as usize)),
                buf@,
            ),
    {
        let op = self.ops.next_op();
        match decide(op, Request::Transfer(buf.len())) {
            Effect::Forward(n) => WriteAction::Forward(slice_subrange(buf, 0, n)),
            Effect::Fail(kind) => WriteAction::Fail(Fault::new(kind, CallKind::Write)),
            // A transfer is never decided as a flush.
            Effect::Flush => WriteAction::Forward(buf),
        }
    }

    /// Consumes the op for one `flush` and says what to do with it.
    pub fn flush_action(&mut self) -> (r: FlushAction)
        ensures
            final(self).inner() == old(self).inner(),
            final(self).ops() == pop_op(old(self).ops()).1,
            flush_action_is(r, effect_of(pop_op(old(self).ops()).0, Request::Flush)),
    {
        let op = self.ops.next_op();
        match decide(op, Request::Flush) {
            Effect::Fail(kind) => FlushAction::Fail(Fault::new(kind, CallKind::Flush)),
            _ => FlushAction::Flush,
        }
    }
}

/// A write under `Limited(n)` hands the inner stream exactly the first
/// `min(n, L)` bytes of a buffer of length `L`, and never more.
pub proof fn lemma_limited_write_forwards_prefix(action: WriteAction, n: usize, buf: Seq<u8>)
    requires
        buf.len() <= usize::MAX,
        write_action_is(
            action,
            effect_of(Some(PartialOp::Limited(n)), Request::Transfer(buf.len() as usize)),
            buf,
        ),
    ensures
        action is Forward,
        action->Forward_0@ == buf.take(if n < buf.len() { n as int } else { buf.len() as int }),
        action->Forward_0@.len() <= n,
{
}

/// A write under `Fail(kind)` makes no call on the inner stream, and the error
/// that it returns has that kind.
pub proof fn lemma_failed_write_calls_nothing(
    action: WriteAction,
    kind: std::io::ErrorKind,
    buf: Seq<u8>,
)
    requires
        buf.len() <= usize::MAX,
        write_action_is(action, effect_of(Some(PartialOp::Fail(kind)), Request::Transfer(buf.len() as usize)), buf),
    ensures
        action is Fail,
        action->Fail_0.kind == kind,
        action->Fail_0.call == CallKind::Write,
{
}

/// A flush under `Fail(kind)` does not flush the inner stream, and the error
/// that it returns has that kind; under any other op it flushes.
pub proof fn lemma_flush_fails_only_on_fail(action: FlushAction, op: Option<PartialOp>)
    requires
        flush_action_is(action, effect_of(op, Request::Flush)),
    ensures
        action is Flush <==> !(op matches Some(PartialOp::Fail(_))),
        op matches Some(PartialOp::Fail(kind)) ==> action == FlushAction::Fail(fault_of(kind, CallKind::Flush)),
{
}

} // verus!
