//! Spoken text, as the speech synthesizer of the platform hands it over.

use vstd::prelude::*;

verus! {

/// Spoken text in .wav format
pub struct Spoken {
    buf: Vec<u8>,
}

impl View for Spoken {
    type V = Seq<u8>;

    closed spec fn view(&self) -> Seq<u8> {
        self.buf@
    }
}

impl Spoken {
    /// Spoken text with the bytes that the synthesizer's stream held.
    pub fn new(buf: Vec<u8>) -> (r: Self)
        ensures
            r@ == buf@,
    {
        Self { buf }
    }

    /// The bytes, to write them out.
    pub fn as_bytes(&self) -> (r: &[u8])
        ensures
            r@ == self@,
    {
        self.buf.as_slice()
    }

    pub fn into_inner(self) -> (r: Vec<u8>)
        ensures
            r@ == self@,
    {
        self.buf
    }
}

} // verus!
