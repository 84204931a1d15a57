use vstd::prelude::*;
use vstd::slice::slice_index_get;

verus! {

/// A byte-for-byte copy of `src` into a fresh vector.
pub fn copy_bytes(src: &Vec<u8>) -> (r: Vec<u8>)
    ensures
        r@ == src@,
{
    let n = src.len();
    let mut out: Vec<u8> = Vec::new();
    let mut i: usize = 0;
    while i < n
        invariant
            n == src@.len(),
            0 <= i <= n,
            out@ =~= src@.subrange(0, i as int),
        decreases n - i,
    {
        out.push(src[i]);
        proof {
            assert(out@ =~= src@.subrange(0, i + 1));
        }
        i += 1;
    }
    proof {
        assert(out@ =~= src@);
    }
    out
}

/// The narrow adapter that every byte buffer crossing the native boundary
/// goes through: it owns a copy of the incoming bytes, so no ownership of
/// runtime-provided memory escapes into the rest of the system, and it
/// copies out fresh memory when bytes are handed back to the runtime.
pub struct OwnedBuffer {
    pub data: Vec<u8>,
}

impl OwnedBuffer {
    /// Copies the incoming buffer on entry; the incoming slice is only
    /// valid for the duration of the crossing call.
    pub fn copy_in(src: &[u8]) -> (r: OwnedBuffer)
        ensures
            r.data@ == src@,
    {
        let n = src.len();
        let mut out: Vec<u8> = Vec::new();
        let mut i: usize = 0;
        while i < n
            invariant
                n == src@.len(),
                0 <= i <= n,
                out@ =~= src@.subrange(0, i as int),
            decreases n - i,
        {
            out.push(*slice_index_get(src, i));
            proof {
                assert(out@ =~= src@.subrange(0, i + 1));
            }
            i += 1;
        }
        proof {
            assert(out@ =~= src@);
        }
        OwnedBuffer { data: out }
    }

    /// Copies the owned bytes out into fresh memory on exit.
    pub fn copy_out(&self) -> (r: Vec<u8>)
        ensures
            r@ == self.data@,
    {
        copy_bytes(&self.data)
    }

    /// Number of bytes held.
    pub fn len(&self) -> (r: usize)
        ensures
            r == self.data@.len(),
    {
        self.data.len()
    }
}

/// Round-trip marshaling: a byte sequence that crossed the boundary into an
/// owned buffer and was copied back out unmodified is byte-identical to the
/// original, whatever its length.
pub proof fn lemma_round_trip(original: Seq<u8>, crossed: OwnedBuffer, returned: Seq<u8>)
    requires
        crossed.data@ == original,
        returned == crossed.data@,
    ensures
        returned == original,
{
}

} // verus!
