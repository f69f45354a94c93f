//! Byte outputs that sinks write rendered records to.

use vstd::prelude::*;

verus! {

/// The error an output reports when a write or a flush fails.
#[derive(Clone, Copy, Debug, PartialEq, Eq, Structural)]
pub struct WriteError;

/// A byte output: written to by sinks, on a best-effort basis.
pub trait Write: Sized {
    /// How the output after writing `bytes` relates to the output before.
    /// An output implemented outside verified code keeps this default, which
    /// claims nothing.
    open spec fn writes(before: Self, bytes: Seq<u8>, after: Self) -> bool {
        true
    }

    /// How the output after a flush relates to the output before; by
    /// default, nothing is claimed.
    open spec fn flushes(before: Self, after: Self) -> bool {
        true
    }

    /// Writes all of `buf`.
    fn write(&mut self, buf: &[u8]) -> (r: Result<(), WriteError>)
        ensures
            Self::writes(*old(self), buf@, *final(self)),
    ;

    /// Flushes what was written so far.
    fn flush(&mut self) -> (r: Result<(), WriteError>)
        ensures
            Self::flushes(*old(self), *final(self)),
    ;
}

/// An in-memory output: the bytes written are appended to the vector.
impl Write for Vec<u8> {
    open spec fn writes(before: Self, bytes: Seq<u8>, after: Self) -> bool {
        after@ == before@ + bytes
    }

    open spec fn flushes(before: Self, after: Self) -> bool {
        after@ == before@
    }

    fn write(&mut self, buf: &[u8]) -> (r: Result<(), WriteError>) {
        let ghost start = self@;
        let mut i: usize = 0;
        while i < buf.len()
            invariant
                0 <= i <= buf@.len(),
                self@ == start + buf@.subrange(0, i as int),
            decreases buf@.len() - i,
        {
            self.push(buf[i]);
            i = i + 1;
            assert(self@ =~= start + buf@.subrange(0, i as int));
        }
        assert(buf@.subrange(0, i as int) =~= buf@);
        Ok(())
    }

    fn flush(&mut self) -> (r: Result<(), WriteError>) {
        Ok(())
    }
}

/// An output that writes everything to two outputs, the first one first.
#[derive(Clone, Copy, Debug, Default, Hash)]
pub struct MultiWriter<T1: Write, T2: Write>(pub T1, pub T2);

impl<T1: Write, T2: Write> MultiWriter<T1, T2> {
    /// Pairs two outputs.
    pub fn new(t1: T1, t2: T2) -> (r: Self)
        ensures
            r.0 == t1,
            r.1 == t2,
    {
        MultiWriter(t1, t2)
    }
}

impl<T1: Write, T2: Write> Write for MultiWriter<T1, T2> {
    open spec fn writes(before: Self, bytes: Seq<u8>, after: Self) -> bool {
        &&& T1::writes(before.0, bytes, after.0)
        &&& T2::writes(before.1, bytes, after.1)
    }

    open spec fn flushes(before: Self, after: Self) -> bool {
        &&& T1::flushes(before.0, after.0)
        &&& T2::flushes(before.1, after.1)
    }

    /// Writes to both outputs; fails when either of them failed.
    fn write(&mut self, buf: &[u8]) -> (r: Result<(), WriteError>) {
        let first = self.0.write(buf);
        let second = self.1.write(buf);
        match first {
            Ok(()) => second,
            Err(e) => Err(e),
        }
    }

    /// Flushes both outputs; fails when either of them failed.
    fn flush(&mut self) -> (r: Result<(), WriteError>) {
        let first = self.0.flush();
        let second = self.1.flush();
        match first {
            Ok(()) => second,
            Err(e) => Err(e),
        }
    }
}

} // verus!
