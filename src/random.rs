use vstd::prelude::*;

verus! {

/// A cryptographically secure source of random bytes, handed to `encrypt`.
pub trait SecureRandom {
    /// Fills `dest` with fresh random bytes.
    fn fill_bytes(&mut self, dest: &mut [u8]);
}

} // verus!
