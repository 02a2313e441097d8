use vstd::prelude::*;

verus! {

broadcast use vstd::array::group_array_axioms;

/// A 32-byte account address.
#[derive(Clone, Copy, Debug, Hash)]
pub struct Pubkey {
    bytes: [u8; 32],
}

impl View for Pubkey {
    type V = Seq<u8>;

    closed spec fn view(&self) -> Seq<u8> {
        self.bytes@
    }
}

impl Pubkey {
    /// The key made of the given 32 bytes.
    pub fn new_from_array(bytes: [u8; 32]) -> (key: Pubkey)
        ensures
            key@ == bytes@,
    {
        Pubkey { bytes }
    }

    /// The all-zero key.
    pub closed spec fn spec_zeroed() -> Pubkey {
        Pubkey { bytes: vstd::array::spec_array_fill_for_copy_type(0u8) }
    }

    /// The all-zero key has 32 zero bytes.
    pub proof fn lemma_zeroed_bytes()
        ensures
            Pubkey::spec_zeroed()@ =~= Seq::new(32, |i: int| 0u8),
    {
    }

    /// The 32 bytes of the key.
    pub fn to_bytes(&self) -> (bytes: [u8; 32])
        ensures
            bytes@ == self@,
    {
        self.bytes
    }

    /// Two keys are the same value exactly when their bytes agree.
    pub proof fn lemma_view_injective(a: Pubkey, b: Pubkey)
        ensures
            (a == b) <==> (a@ == b@),
    {
        if a@ == b@ {
            assert(a.bytes =~= b.bytes);
        }
    }
}

impl PartialEq for Pubkey {
    fn eq(&self, other: &Pubkey) -> (r: bool) {
        proof {
            Pubkey::lemma_view_injective(*self, *other);
        }
        let mut i: usize = 0;
        while i < 32
            invariant
                i <= 32,
                self.bytes@.len() == 32,
                other.bytes@.len() == 32,
                forall|j: int| 0 <= j < i ==> self.bytes@[j] == other.bytes@[j],
            decreases 32 - i,
        {
            if self.bytes[i] != other.bytes[i] {
                return false;
            }
            i = i + 1;
        }
        assert(self.bytes@ =~= other.bytes@);
        true
    }
}

impl vstd::std_specs::cmp::PartialEqSpecImpl for Pubkey {
    open spec fn obeys_eq_spec() -> bool {
        true
    }

    open spec fn eq_spec(&self, other: &Pubkey) -> bool {
        *self == *other
    }
}

impl Eq for Pubkey {}

impl Default for Pubkey {
    /// The all-zero key.
    fn default() -> (key: Pubkey)
        ensures
            key == Pubkey::spec_zeroed(),
    {
        Pubkey { bytes: [0u8; 32] }
    }
}

} // verus!
