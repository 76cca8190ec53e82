use vstd::prelude::*;
use crate::error::Error;

verus! {

/// A destination for bytes, such as a hasher's input or a buffer.
pub trait ByteSink {
    /// Everything written to the sink so far.
    spec fn written(&self) -> Seq<u8>;

    /// Whether writing to this sink always succeeds.
    spec fn infallible(&self) -> bool;

    /// Appends `bytes`; on success they follow what was written before.
    fn write_bytes(&mut self, bytes: &[u8]) -> (r: Result<(), Error>)
        ensures
            r is Ok ==> final(self).written() == old(self).written() + bytes@,
            old(self).infallible() ==> r is Ok,
    ;
}

/// Appends `bytes` to `out`.
pub fn append_bytes(out: &mut Vec<u8>, bytes: &[u8])
    ensures
        final(out)@ == old(out)@ + bytes@,
{
    let mut i: usize = 0;
    while i < bytes.len()
        invariant
            i <= bytes@.len(),
            out@ == old(out)@ + bytes@.subrange(0, i as int),
        decreases bytes@.len() - i,
    {
        out.push(bytes[i]);
        i = i + 1;
        assert(out@ =~= old(out)@ + bytes@.subrange(0, i as int));
    }
    assert(bytes@.subrange(0, i as int) =~= bytes@);
}

/// A vector collects the bytes; writing to it never fails.
impl ByteSink for Vec<u8> {
    open spec fn written(&self) -> Seq<u8> {
        self@
    }

    open spec fn infallible(&self) -> bool {
        true
    }

    fn write_bytes(&mut self, bytes: &[u8]) -> (r: Result<(), Error>) {
        append_bytes(self, bytes);
        Ok(())
    }
}

} // verus!
