use vstd::prelude::*;

verus! {

/// A 32-byte ledger address.
#[derive(Clone, Copy, Debug, PartialEq, Eq)]
pub struct Address {
    pub bytes: [u8; 32],
}

impl View for Address {
    type V = Seq<u8>;

    open spec fn view(&self) -> Seq<u8> {
        self.bytes@
    }
}

/// Two addresses are the same value exactly when their bytes agree.
pub proof fn lemma_address_view_injective(a: Address, b: Address)
    ensures
        a@ == b@ <==> a == b,
{
    broadcast use vstd::array::group_array_axioms;
    if a@ == b@ {
        assert(a.bytes =~= b.bytes);
    }
}

impl Address {
    pub fn new(bytes: [u8; 32]) -> (r: Address)
        ensures
            r.bytes == bytes,
    {
        Address { bytes }
    }

    /// Compares two addresses byte by byte.
    pub fn same(&self, other: &Address) -> (r: bool)
        ensures
            r == (self@ == other@),
            r == (*self == *other),
    {
        proof {
            lemma_address_view_injective(*self, *other);
        }
        let mut i: usize = 0;
        while i < 32
            invariant
                0 <= i <= 32,
                self@.len() == 32,
                other@.len() == 32,
                forall|j: int| 0 <= j < i ==> self@[j] == other@[j],
            decreases 32 - i,
        {
            if self.bytes[i] != other.bytes[i] {
                return false;
            }
            i = i + 1;
        }
        assert(self@ =~= other@);
        true
    }

    /// The address bytes as an owned vector.
    pub fn to_vec(&self) -> (r: Vec<u8>)
        ensures
            r@ == self@,
    {
        let mut v: Vec<u8> = Vec::new();
        let mut i: usize = 0;
        while i < 32
            invariant
                0 <= i <= 32,
                self@.len() == 32,
                v@ == self@.subrange(0, i as int),
            decreases 32 - i,
        {
            v.push(self.bytes[i]);
            i = i + 1;
            assert(v@ =~= self@.subrange(0, i as int));
        }
        assert(self@.subrange(0, 32) =~= self@);
        v
    }

    /// Reads the 32 bytes that start at `start`.
    pub fn from_slice_at(data: &[u8], start: usize) -> (r: Address)
        requires
            start + 32 <= data@.len(),
        ensures
            r@ == data@.subrange(start as int, start + 32),
    {
        let n = data.len();
        let mut bytes: [u8; 32] = [0u8; 32];
        let mut i: usize = 0;
        while i < 32
            invariant
                0 <= i <= 32,
                start + 32 <= data@.len(),
                data@.len() == n,
                bytes@.len() == 32,
                forall|j: int| 0 <= j < i ==> bytes@[j] == data@[start + j],
            decreases 32 - i,
        {
            bytes[i] = data[start + i];
            i = i + 1;
        }
        let r = Address { bytes };
        assert(r@ =~= data@.subrange(start as int, start + 32));
        r
    }
}

} // verus!
