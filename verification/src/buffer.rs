//! The buffer that carries one packet between the transport and the flash.

use vstd::prelude::*;

verus! {

/// A byte buffer of fixed length `N`.
///
/// The transport reads a packet into it and the flash programmer writes from
/// it. Its view is the sequence of its `N` bytes. Where the flash controller
/// wants its source at an aligned address, the firmware sees to that when it
/// lays the bytes out in memory; the contents are these.
#[derive(Clone, Copy, Debug, PartialEq, Eq)]
pub struct AlignedBuffer<const N: usize>(pub [u8; N]);

impl<const N: usize> View for AlignedBuffer<N> {
    type V = Seq<u8>;

    open spec fn view(&self) -> Seq<u8> {
        self.0@
    }
}

impl<const N: usize> AlignedBuffer<N> {
    /// The contents as a shared slice.
    pub fn as_ref(&self) -> (bytes: &[u8])
        ensures
            bytes@ == self@,
            bytes@.len() == N,
    {
        &self.0
    }

    /// The contents as a mutable slice: what is written through the slice is
    /// what the buffer holds afterwards.
    pub fn as_mut(&mut self) -> (bytes: &mut [u8])
        ensures
            bytes@ == old(self)@,
            final(self)@ == final(bytes)@,
    {
        &mut self.0
    }
}

} // verus!
