//! Fixed-capacity append-only byte buffer.
//!
//! The encoder never grows its output past the capacity chosen at
//! construction time.  [`BoundedByteSink`] enforces that bound: every
//! mutating operation is checked against the capacity `N` and either
//! performs the whole write or fails leaving the contents untouched.

use vstd::prelude::*;

verus! {

/// Error returned by a mutating operation whose write would grow the
/// buffer past its capacity.
#[derive(Debug, Clone, Copy, PartialEq, Eq, Structural)]
pub struct CapacityError;

/// Append-only byte buffer bounded by the capacity `N`.
///
/// All mutation is all-or-nothing: a write that does not fit returns
/// [`CapacityError`] and leaves the contents byte-for-byte unchanged.
#[derive(Debug, PartialEq)]
pub struct BoundedByteSink<const N: usize> {
    data: Vec<u8>,
}

impl<const N: usize> View for BoundedByteSink<N> {
    type V = Seq<u8>;

    closed spec fn view(&self) -> Seq<u8> {
        self.data@
    }
}

impl<const N: usize> BoundedByteSink<N> {
    /// The contents never exceed the capacity.
    pub open spec fn wf(&self) -> bool {
        self@.len() <= N
    }

    /// An empty sink.
    pub fn new() -> (s: Self)
        ensures
            s.wf(),
            s@ == Seq::<u8>::empty(),
    {
        BoundedByteSink { data: Vec::new() }
    }

    /// Number of bytes written so far.
    pub fn length(&self) -> (n: usize)
        ensures
            n == self@.len(),
    {
        self.data.len()
    }

    /// Borrows the contents written so far.
    pub fn as_slice(&self) -> (bytes: &[u8])
        ensures
            bytes@ == self@,
    {
        self.data.as_slice()
    }

    /// Appends all of `bytes`, or none when the capacity would be exceeded.
    pub fn append(&mut self, bytes: &[u8]) -> (r: Result<(), CapacityError>)
        requires
            old(self).wf(),
        ensures
            final(self).wf(),
            if old(self)@.len() + bytes@.len() <= N {
                r is Ok && final(self)@ == old(self)@ + bytes@
            } else {
                r is Err && final(self)@ == old(self)@
            },
    {
        if bytes.len() > N - self.data.len() {
            return Err(CapacityError);
        }
        let ghost orig = self.data@;
        let mut i: usize = 0;
        while i < bytes.len()
            invariant
                i <= bytes@.len(),
                self.data@ == orig + bytes@.take(i as int),
            decreases bytes@.len() - i,
        {
            self.data.push(bytes[i]);
            assert(self.data@ == orig + bytes@.take(i + 1));
            i = i + 1;
        }
        assert(bytes@.take(bytes@.len() as int) == bytes@);
        Ok(())
    }

    /// Shifts the bytes at `offset..` right by one and writes `byte` at
    /// `offset`, or fails when the buffer is full.
    pub fn insert_at(&mut self, offset: usize, byte: u8) -> (r: Result<(), CapacityError>)
        requires
            old(self).wf(),
            offset <= old(self)@.len(),
        ensures
            final(self).wf(),
            if old(self)@.len() + 1 <= N {
                r is Ok && final(self)@ == old(self)@.insert(offset as int, byte)
            } else {
                r is Err && final(self)@ == old(self)@
            },
    {
        if N - self.data.len() < 1 {
            return Err(CapacityError);
        }
        self.data.insert(offset, byte);
        Ok(())
    }
}

} // verus!
