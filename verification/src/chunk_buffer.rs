//! The single-slot buffer that holds a stream's latest chunk.

use crate::fingerprint::chunk_fingerprint;
use crate::fingerprint::hash_vecu8;
use vstd::prelude::*;

verus! {

/// Holds the most recent chunk of one stream together with its fingerprint.
///
/// The last write wins: a write replaces payload and fingerprint together,
/// so a reader never gets a payload with the fingerprint of another.
#[derive(Debug)]
pub struct ChunkBuffer {
    bytes: Vec<u8>,
    fingerprint: u64,
}

impl View for ChunkBuffer {
    type V = Seq<u8>;

    /// The payload currently stored.
    closed spec fn view(&self) -> Seq<u8> {
        self.bytes@
    }
}

impl ChunkBuffer {
    /// The stored fingerprint is always the fingerprint of the stored bytes.
    #[verifier::type_invariant]
    spec fn fingerprint_is_current(self) -> bool {
        self.fingerprint == chunk_fingerprint(self.bytes@)
    }

    /// An empty buffer.
    pub fn new() -> (buf: Self)
        ensures
            buf@ == Seq::<u8>::empty(),
    {
        ChunkBuffer::holding(Vec::new())
    }

    /// A buffer that holds `bytes`.
    pub fn holding(bytes: Vec<u8>) -> (buf: Self)
        ensures
            buf@ == bytes@,
    {
        let fingerprint = hash_vecu8(&bytes);
        ChunkBuffer { bytes, fingerprint }
    }

    /// Replaces the stored payload, and with it the fingerprint.
    pub fn write(&mut self, bytes: Vec<u8>)
        ensures
            final(self)@ == bytes@,
    {
        *self = ChunkBuffer::holding(bytes);
    }

    /// A copy of the stored payload, with its fingerprint.
    pub fn read(&self) -> (out: (Vec<u8>, u64))
        ensures
            out.0@ == self@,
            out.1 == chunk_fingerprint(self@),
    {
        proof {
            use_type_invariant(self);
        }
        let bytes = self.bytes.clone();
        assert(bytes@ =~= self.bytes@);
        (bytes, self.fingerprint)
    }

    /// The stored payload and its fingerprint, without copying.
    pub fn into_parts(self) -> (out: (Vec<u8>, u64))
        ensures
            out.0@ == self@,
            out.1 == chunk_fingerprint(self@),
    {
        proof {
            use_type_invariant(&self);
        }
        (self.bytes, self.fingerprint)
    }

    /// The fingerprint of the stored payload.
    pub fn fingerprint(&self) -> (fp: u64)
        ensures
            fp == chunk_fingerprint(self@),
    {
        proof {
            use_type_invariant(self);
        }
        self.fingerprint
    }

    /// The number of bytes stored.
    pub fn len(&self) -> (n: usize)
        ensures
            n == self@.len(),
    {
        self.bytes.len()
    }
}

impl Clone for ChunkBuffer {
    fn clone(&self) -> (copy: Self)
        ensures
            copy@ == self@,
    {
        proof {
            use_type_invariant(self);
        }
        let bytes = self.bytes.clone();
        assert(bytes@ =~= self.bytes@);
        ChunkBuffer { bytes, fingerprint: self.fingerprint }
    }
}

} // verus!
