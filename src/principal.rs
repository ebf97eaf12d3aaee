use vstd::prelude::*;

verus! {

/// The largest number of bytes a principal identifier may hold.
pub const MAX_PRINCIPAL_LEN: usize = 29;

/// Opaque identity of a caller, compared by its bytes.
///
/// The identifier is stored inline (at most `MAX_PRINCIPAL_LEN` bytes, the
/// unused tail zeroed), so a principal is `Copy` and equality is equality of
/// the two fields.
#[derive(Clone, Copy, Debug, Eq)]
pub struct Principal {
    len: u8,
    bytes: [u8; 29],
}

impl Principal {
    /// The meaningful bytes of the identifier.
    pub closed spec fn id_bytes(self) -> Seq<u8> {
        self.bytes@.subrange(0, self.len as int)
    }

    /// Length fits the inline buffer and the unused tail is zero.
    pub closed spec fn wf(self) -> bool {
        &&& self.len as int <= MAX_PRINCIPAL_LEN as int
        &&& forall|i: int| self.len as int <= i < MAX_PRINCIPAL_LEN as int ==> self.bytes@[i] == 0u8
    }

    /// Builds a principal from the bytes of its identifier.
    pub fn from_slice(slice: &[u8]) -> (p: Principal)
        requires
            slice@.len() <= MAX_PRINCIPAL_LEN as int,
        ensures
            p.wf(),
            p.id_bytes() == slice@,
    {
        let mut bytes: [u8; 29] = [0u8; 29];
        let n: usize = slice.len();
        let mut i: usize = 0;
        while i < n
            invariant
                n == slice@.len(),
                n <= MAX_PRINCIPAL_LEN,
                i <= n,
                bytes@.len() == MAX_PRINCIPAL_LEN as int,
                forall|j: int| 0 <= j < i ==> bytes@[j] == slice@[j],
                forall|j: int| n <= j < MAX_PRINCIPAL_LEN as int ==> bytes@[j] == 0u8,
            decreases n - i,
        {
            bytes[i] = slice[i];
            i = i + 1;
        }
        let p = Principal { len: n as u8, bytes };
        assert(p.id_bytes() =~= slice@);
        p
    }

    /// The identifier's bytes.
    pub fn as_bytes(&self) -> (r: Vec<u8>)
        requires
            self.wf(),
        ensures
            r@ == self.id_bytes(),
    {
        let mut r: Vec<u8> = Vec::new();
        let mut i: usize = 0;
        let n: usize = self.len as usize;
        while i < n
            invariant
                n == self.len as usize,
                n <= MAX_PRINCIPAL_LEN,
                self.bytes@.len() == MAX_PRINCIPAL_LEN as int,
                i <= n,
                r@ == self.bytes@.subrange(0, i as int),
            decreases n - i,
        {
            r.push(self.bytes[i]);
            i = i + 1;
            assert(r@ =~= self.bytes@.subrange(0, i as int));
        }
        r
    }
}

impl PartialEq for Principal {
    fn eq(&self, other: &Principal) -> (r: bool)
        ensures
            r == (*self == *other),
    {
        if self.len != other.len {
            return false;
        }
        let mut i: usize = 0;
        while i < MAX_PRINCIPAL_LEN
            invariant
                i <= MAX_PRINCIPAL_LEN,
                self.bytes@.len() == MAX_PRINCIPAL_LEN as int,
                other.bytes@.len() == MAX_PRINCIPAL_LEN as int,
                forall|j: int| 0 <= j < i ==> self.bytes@[j] == other.bytes@[j],
            decreases MAX_PRINCIPAL_LEN - i,
        {
            if self.bytes[i] != other.bytes[i] {
                return false;
            }
            i = i + 1;
        }
        assert(self.bytes =~= other.bytes);
        true
    }
}

impl vstd::std_specs::cmp::PartialEqSpecImpl for Principal {
    open spec fn obeys_eq_spec() -> bool {
        true
    }

    open spec fn eq_spec(&self, other: &Principal) -> bool {
        *self == *other
    }
}

} // verus!
