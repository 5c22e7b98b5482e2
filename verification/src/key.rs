use vstd::prelude::*;

verus! {

/// The 32 bytes of an account address.
#[derive(Clone, Copy, Debug)]
pub struct Key {
    pub bytes: [u8; 32],
}

impl View for Key {
    type V = Seq<u8>;

    open spec fn view(&self) -> Seq<u8> {
        self.bytes@
    }
}

impl Key {
    /// The key made of the given bytes.
    pub fn new(bytes: [u8; 32]) -> (key: Key)
        ensures
            key@ == bytes@,
    {
        Key { bytes }
    }

    /// Whether two keys hold the same bytes.
    pub fn same(&self, other: &Key) -> (eq: bool)
        ensures
            eq == (self@ == other@),
    {
        let mut i: usize = 0;
        while i < 32
            invariant
                i <= 32,
                self@.len() == 32,
                other@.len() == 32,
                forall|j: int| 0 <= j < i ==> self@[j] == other@[j],
            decreases 32 - i,
        {
            if self.bytes[i] != other.bytes[i] {
                return false;
            }
            i += 1;
        }
        assert(self@ =~= other@);
        true
    }
}

/// The address under which the program is deployed
/// (`5Sc3gJv4tvPiFzE75boYMJabbNRs44zRhtT23fLdKewz` in base58).
pub fn program_id() -> (id: Key)
    ensures
        id@ == spec_program_id(),
{
    Key {
        bytes: [
            65, 253, 229, 15, 9, 65, 189, 255, 219, 30, 143, 205, 76, 183, 49, 207, 30, 77, 47,
            227, 57, 97, 5, 89, 38, 176, 80, 40, 208, 197, 46, 25,
        ],
    }
}

/// The bytes of the program's address.
pub open spec fn spec_program_id() -> Seq<u8> {
    seq![
        65u8, 253, 229, 15, 9, 65, 189, 255, 219, 30, 143, 205, 76, 183, 49, 207, 30, 77, 47,
        227, 57, 97, 5, 89, 38, 176, 80, 40, 208, 197, 46, 25,
    ]
}

} // verus!
