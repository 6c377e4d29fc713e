use vstd::prelude::*;

verus! {

/// A 32-byte account address: a wallet, a token mint, or a record of the
/// platform itself.
#[derive(Clone, Copy, Debug, PartialEq, Eq)]
pub struct Address {
    pub bytes: [u8; 32],
}

impl View for Address {
    type V = Seq<u8>;

    /// An address is its 32 bytes, in order.
    open spec fn view(&self) -> Seq<u8> {
        self.bytes@
    }
}

/// Whether `key` occurs among `keys`.
pub open spec fn holds_address(keys: Seq<Address>, key: Address) -> bool {
    exists|i: int| 0 <= i < keys.len() && (#[trigger] keys[i])@ == key@
}

/// Whether no address occurs twice among `keys`.
pub open spec fn all_distinct(keys: Seq<Address>) -> bool {
    forall|i: int, j: int|
        0 <= i < j < keys.len() ==> (#[trigger] keys[i])@ != (#[trigger] keys[j])@
}

/// Whether an optional address is present and equal to `key`.
pub open spec fn is_some_address(slot: Option<Address>, key: Address) -> bool {
    slot matches Some(held) && held@ == key@
}

impl Address {
    /// The address made of the given bytes.
    pub fn new(bytes: [u8; 32]) -> (made: Address)
        ensures
            made.bytes == bytes,
    {
        Address { bytes }
    }

    /// Whether two addresses hold the same bytes.
    pub fn same_as(&self, other: &Address) -> (same: bool)
        ensures
            same == (self@ == other@),
    {
        let mut i: usize = 0;
        while i < 32
            invariant
                i <= 32,
                forall|j: int| 0 <= j < i ==> self.bytes@[j] == other.bytes@[j],
            decreases 32 - i,
        {
            if self.bytes[i] != other.bytes[i] {
                return false;
            }
            i += 1;
        }
        assert(self.bytes@ =~= other.bytes@);
        true
    }

    /// Whether this address occurs in `keys`.
    pub fn is_in(&self, keys: &Vec<Address>) -> (found: bool)
        ensures
            found == holds_address(keys@, *self),
    {
        let mut i: usize = 0;
        while i < keys.len()
            invariant
                i <= keys.len(),
                forall|j: int| 0 <= j < i ==> (#[trigger] keys@[j])@ != self@,
            decreases keys.len() - i,
        {
            if keys[i].same_as(self) {
                return true;
            }
            i += 1;
        }
        false
    }

    /// Whether an optional address is present and equal to this one.
    pub fn fills(&self, slot: &Option<Address>) -> (same: bool)
        ensures
            same == is_some_address(*slot, *self),
    {
        match slot {
            Some(held) => held.same_as(self),
            None => false,
        }
    }
}

} // verus!
