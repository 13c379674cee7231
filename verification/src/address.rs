use vstd::prelude::*;

verus! {

/// A 32-byte account address (public key).
#[derive(Clone, Copy, Debug, PartialEq, Eq)]
pub struct Address(pub [u8; 32]);

impl View for Address {
    type V = Seq<u8>;

    open spec fn view(&self) -> Seq<u8> {
        self.0@
    }
}

impl Address {
    /// Compares two addresses byte by byte.
    pub fn equals(&self, other: &Address) -> (r: bool)
        ensures
            r == (self@ == other@),
    {
        let mut i: usize = 0;
        while i < 32
            invariant
                0 <= i <= 32,
                self@.len() == 32,
                other@.len() == 32,
                forall|j: int| 0 <= j < i ==> self@[j] == other@[j],
            decreases 32 - i,
        {
            if self.0[i] != other.0[i] {
                return false;
            }
            i = i + 1;
        }
        assert(self@ =~= other@);
        true
    }

    /// Copies the 32 bytes that start at `offset` in `bytes`.
    pub fn read(bytes: &[u8], offset: usize) -> (r: Address)
        requires
            offset + 32 <= bytes@.len(),
        ensures
            r@ == bytes@.subrange(offset as int, offset + 32),
    {
        let len = bytes.len();
        let mut out = [0u8; 32];
        let mut i: usize = 0;
        while i < 32
            invariant
                0 <= i <= 32,
                len == bytes@.len(),
                offset + 32 <= len,
                out@.len() == 32,
                forall|j: int| 0 <= j < i ==> out@[j] == bytes@[offset + j],
            decreases 32 - i,
        {
            out[i] = bytes[offset + i];
            i = i + 1;
        }
        let r = Address(out);
        assert(r@ =~= bytes@.subrange(offset as int, offset + 32));
        r
    }

    /// Returns the address as a byte vector.
    pub fn to_vec(&self) -> (r: Vec<u8>)
        ensures
            r@ == self@,
    {
        let mut out: Vec<u8> = Vec::new();
        let mut i: usize = 0;
        while i < 32
            invariant
                0 <= i <= 32,
                self@.len() == 32,
                out@ == self@.take(i as int),
            decreases 32 - i,
        {
            out.push(self.0[i]);
            i = i + 1;
            assert(out@ =~= self@.take(i as int));
        }
        assert(self@.take(32) =~= self@);
        out
    }
}

} // verus!
