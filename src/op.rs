use vstd::prelude::*;

verus! {

/// std's `io::ErrorKind`, whose variants Verus reads as they are declared.
#[verifier::external_type_specification]
pub struct ExErrorKind(std::io::ErrorKind);

/// What a single intercepted call is allowed to do.
#[derive(Clone, Copy, Debug, PartialEq, Eq)]
pub enum PartialOp {
    /// The call goes through with the full length that was asked for.
    Unlimited,
    /// The call goes through with at most this many bytes.
    Limited(usize),
    /// The call fails with this kind; the inner stream is not called.
    Fail(std::io::ErrorKind),
}

/// The ops that are left for a wrapper, consumed front to back.
///
/// Once it is empty, every further call is treated as `Unlimited`.
pub struct OpSequence {
    ops: Vec<PartialOp>,
    next: usize,
}

impl View for OpSequence {
    type V = Seq<PartialOp>;

    closed spec fn view(&self) -> Seq<PartialOp> {
        if self.next < self.ops.len() {
            self.ops@.subrange(self.next as int, self.ops.len() as int)
        } else {
            Seq::empty()
        }
    }
}

/// The op that governs the next call on `ops`, and what is left after it.
pub open spec fn pop_op(ops: Seq<PartialOp>) -> (Option<PartialOp>, Seq<PartialOp>) {
    if ops.len() > 0 {
        (Some(ops[0]), ops.drop_first())
    } else {
        (None, ops)
    }
}

impl OpSequence {
    /// A sequence that yields the elements of `ops` in order.
    pub fn new(ops: Vec<PartialOp>) -> (r: OpSequence)
        ensures
            r@ == ops@,
    {
        let r = OpSequence { ops, next: 0 };
        assert(r@ =~= r.ops@);
        r
    }

    /// Removes and returns the first op that is left, or `None` once all are used.
    pub fn next_op(&mut self) -> (r: Option<PartialOp>)
        ensures
            (r, final(self)@) == pop_op(old(self)@),
    {
        if self.next < self.ops.len() {
            let op = self.ops[self.next];
            self.next = self.next + 1;
            assert(self@ =~= old(self)@.drop_first());
            Some(op)
        } else {
            None
        }
    }
}

} // verus!
