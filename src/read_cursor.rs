//! A model of reading into a destination region that may hold uninitialised
//! memory. The accounting is that of a read-buffer cursor: a write-only view
//! over what is left, and an advance by exactly what the view took. Here the
//! region is a plain vector, so the laws are proved of this model; a real read
//! path over raw memory uses `advance_len` to decide how far it advances.

use crate::poll::Progress;
use vstd::prelude::*;

verus! {

/// The smaller of two naturals.
pub open spec fn min_nat(a: nat, b: nat) -> nat {
    if a <= b {
        a
    } else {
        b
    }
}

/// How far a caller's cursor advances once a read through a write-only view
/// has returned `outcome` with `filled` bytes in the view: all of them on
/// `Ready(Ok)`, none on `Pending` or an error.
pub fn advance_len<E>(outcome: &Progress<Result<(), E>>, filled: usize) -> (n: usize)
    ensures
        *outcome matches Progress::Ready(Ok(_)) ==> n == filled,
        !(*outcome matches Progress::Ready(Ok(_))) ==> n == 0,
{
    match outcome {
        Progress::Ready(Ok(())) => filled,
        _ => 0,
    }
}

/// A destination region of fixed capacity whose filled prefix is the only part
/// that can ever be observed. The rest of the region stands for memory that may
/// be uninitialised: no method reads it or hands it out.
pub struct ReadCursor {
    filled: Vec<u8>,
    capacity: usize,
}

/// A write-only view over the unfilled part of a `ReadCursor`. It counts what
/// was written into it and exposes only that written prefix.
pub struct UnfilledView {
    written: Vec<u8>,
    capacity: usize,
}

impl ReadCursor {
    /// The bytes filled so far.
    pub closed spec fn filled_spec(&self) -> Seq<u8> {
        self.filled@
    }

    /// The size of the whole region.
    pub closed spec fn capacity_spec(&self) -> nat {
        self.capacity as nat
    }

    /// The filled prefix never outgrows the region.
    pub closed spec fn wf(&self) -> bool {
        self.filled@.len() <= self.capacity
    }

    /// How many bytes the caller may still write.
    pub open spec fn remaining_spec(&self) -> nat {
        (self.capacity_spec() - self.filled_spec().len()) as nat
    }

    /// An empty cursor over a region of `capacity` bytes.
    pub fn new(capacity: usize) -> (r: ReadCursor)
        ensures
            r.wf(),
            r.capacity_spec() == capacity,
            r.filled_spec() == Seq::<u8>::empty(),
    {
        ReadCursor { filled: Vec::new(), capacity }
    }

    pub fn capacity(&self) -> (r: usize)
        ensures
            r == self.capacity_spec(),
    {
        self.capacity
    }

    /// The number of bytes filled so far.
    pub fn filled_len(&self) -> (r: usize)
        ensures
            r == self.filled_spec().len(),
    {
        self.filled.len()
    }

    /// A copy of the filled prefix.
    pub fn filled(&self) -> (r: Vec<u8>)
        ensures
            r@ == self.filled_spec(),
    {
        self.filled.clone()
    }

    pub fn remaining(&self) -> (r: usize)
        requires
            self.wf(),
        ensures
            r == self.remaining_spec(),
    {
        self.capacity - self.filled.len()
    }

    /// A write-only view whose capacity is exactly what the caller may still
    /// write into this cursor.
    pub fn unfilled_view(&self) -> (r: UnfilledView)
        requires
            self.wf(),
        ensures
            r.wf(),
            r.written_spec() == Seq::<u8>::empty(),
            r.capacity_spec() == self.remaining_spec(),
    {
        UnfilledView { written: Vec::new(), capacity: self.capacity - self.filled.len() }
    }

    /// Finishes a read that went through `view`. On `Ready(Ok)` the cursor
    /// advances by exactly the bytes that were written into the view; on
    /// `Pending` or an error it is left as it was. The outcome is handed back
    /// unchanged.
    pub fn complete_read<E>(&mut self, view: UnfilledView, outcome: Progress<Result<(), E>>) -> (r:
        Progress<Result<(), E>>)
        requires
            old(self).wf(),
            view.wf(),
            view.capacity_spec() == old(self).remaining_spec(),
        ensures
            final(self).wf(),
            final(self).capacity_spec() == old(self).capacity_spec(),
            final(self).filled_spec().len() <= final(self).capacity_spec(),
            r == outcome,
            outcome matches Progress::Ready(Ok(_)) ==> final(self).filled_spec()
                == old(self).filled_spec() + view.written_spec(),
            !(outcome matches Progress::Ready(Ok(_))) ==> final(self).filled_spec()
                == old(self).filled_spec(),
    {
        if let Progress::Ready(Ok(())) = &outcome {
            self.advance_by(&view);
        }
        outcome
    }

    fn advance_by(&mut self, view: &UnfilledView)
        requires
            old(self).wf(),
            view.wf(),
            view.capacity_spec() == old(self).remaining_spec(),
        ensures
            final(self).wf(),
            final(self).capacity_spec() == old(self).capacity_spec(),
            final(self).filled_spec() == old(self).filled_spec() + view.written_spec(),
    {
        let n = view.written.len();
        let ghost start = self.filled@;
        let mut i: usize = 0;
        while i < n
            invariant
                i <= n,
                n == view.written@.len(),
                self.capacity == old(self).capacity,
                start == old(self).filled@,
                self.filled@ == start + view.written@.subrange(0, i as int),
            decreases n - i,
        {
            self.filled.push(view.written[i]);
            i = i + 1;
            assert(view.written@.subrange(0, i as int) == view.written@.subrange(0, i - 1)
                + seq![view.written@[i - 1]]);
        }
        assert(view.written@.subrange(0, n as int) == view.written@);
    }

    /// Reads from a source that has `available` ready: the bytes go through a
    /// write-only view, and the cursor advances by what the view took, which is
    /// `min(available.len(), remaining)` bytes, in the source's order.
    pub fn read_available(&mut self, available: &[u8]) -> (n: usize)
        requires
            old(self).wf(),
        ensures
            final(self).wf(),
            final(self).capacity_spec() == old(self).capacity_spec(),
            final(self).filled_spec().len() <= final(self).capacity_spec(),
            n == min_nat(available@.len(), old(self).remaining_spec()),
            final(self).filled_spec() == old(self).filled_spec() + available@.subrange(0, n as int),
    {
        let mut view = self.unfilled_view();
        let n = view.put_slice(available);
        let ghost taken = view.written_spec();
        let _ = self.complete_read::<()>(view, Progress::Ready(Ok(())));
        assert(taken == available@.subrange(0, n as int));
        n
    }
}

impl UnfilledView {
    /// The bytes written into the view so far.
    pub closed spec fn written_spec(&self) -> Seq<u8> {
        self.written@
    }

    /// How many bytes the view admits in all.
    pub closed spec fn capacity_spec(&self) -> nat {
        self.capacity as nat
    }

    pub closed spec fn wf(&self) -> bool {
        self.written@.len() <= self.capacity
    }

    /// How many bytes may still be written.
    pub fn remaining(&self) -> (r: usize)
        requires
            self.wf(),
        ensures
            r == self.capacity_spec() - self.written_spec().len(),
    {
        self.capacity - self.written.len()
    }

    /// The written prefix, the only part that can be read back.
    pub fn written(&self) -> (r: Vec<u8>)
        ensures
            r@ == self.written_spec(),
    {
        self.written.clone()
    }

    /// Writes as much of `src` as fits and returns how much that was.
    pub fn put_slice(&mut self, src: &[u8]) -> (n: usize)
        requires
            old(self).wf(),
        ensures
            final(self).wf(),
            final(self).capacity_spec() == old(self).capacity_spec(),
            final(self).written_spec().len() <= final(self).capacity_spec(),
            n == min_nat(src@.len(), (old(self).capacity_spec() - old(self).written_spec().len()) as nat),
            final(self).written_spec() == old(self).written_spec() + src@.subrange(0, n as int),
    {
        let room = self.capacity - self.written.len();
        let n: usize = if src.len() <= room {
            src.len()
        } else {
            room
        };
        let ghost start = self.written@;
        let mut i: usize = 0;
        while i < n
            invariant
                i <= n,
                n <= src@.len(),
                start.len() + n <= self.capacity,
                self.capacity == old(self).capacity,
                start == old(self).written@,
                self.written@ == start + src@.subrange(0, i as int),
            decreases n - i,
        {
            self.written.push(src[i]);
            i = i + 1;
            assert(src@.subrange(0, i as int) == src@.subrange(0, i - 1) + seq![src@[i - 1]]);
        }
        n
    }
}

} // verus!
