use crate::address::Address;
use vstd::prelude::*;

verus! {

/// The address that a program derives from a list of seeds, with the bump
/// seed that was found for it; `None` where no address can be derived from
/// them. It is a function of the seeds and the program's own address alone.
pub uninterp spec fn program_address(seeds: Seq<Seq<u8>>, program_id: Seq<u8>) -> Option<
    (Seq<u8>, u8),
>;

/// Derives a program address from seeds.
///
/// Calls `Pubkey::try_find_program_address` of `anchor_lang`. Nothing is
/// claimed of it but that its answer is `program_address` of the seeds and
/// the program's address: the same inputs always give the same answer.
#[verifier::external_body]
fn try_find_program_address(seeds: &Vec<Vec<u8>>, program_id: &Address) -> (found: Option<
    (Address, u8),
>)
    ensures
        program_address(seeds.deep_view(), program_id@) == match found {
            Some(pair) => Some((pair.0@, pair.1)),
            None => None,
        },
{
    let parts: Vec<&[u8]> = seeds.iter().map(|seed| seed.as_slice()).collect();
    let id = anchor_lang::prelude::Pubkey::new_from_array(program_id.bytes);
    anchor_lang::prelude::Pubkey::try_find_program_address(&parts, &id).map(
        |pair| (Address { bytes: pair.0.to_bytes() }, pair.1),
    )
}

/// The seeds of the address of an organisation's record: the word "ngo" and
/// the organisation's own address.
pub open spec fn ngo_seeds(authority: Seq<u8>) -> Seq<Seq<u8>> {
    seq![seq![110u8, 103u8, 111u8], authority]
}

/// The address at which the record of the organisation run by `authority` is
/// kept, if one can be derived.
pub open spec fn ngo_record_address(authority: Address, program_id: Address) -> Option<Seq<u8>> {
    match program_address(ngo_seeds(authority@), program_id@) {
        Some(pair) => Some(pair.0),
        None => None,
    }
}

/// Finds the address at which the record of the organisation run by
/// `authority` is kept.
pub fn find_ngo_record_address(authority: &Address, program_id: &Address) -> (found: Option<
    Address,
>)
    ensures
        ngo_record_address(*authority, *program_id) == match found {
            Some(key) => Some(key@),
            None => None,
        },
{
    let mut word: Vec<u8> = Vec::new();
    word.push(110u8);
    word.push(103u8);
    word.push(111u8);
    let mut key: Vec<u8> = Vec::new();
    let mut i: usize = 0;
    while i < 32
        invariant
            i <= 32,
            key@.len() == i,
            forall|j: int| 0 <= j < i ==> key@[j] == authority.bytes@[j],
        decreases 32 - i,
    {
        key.push(authority.bytes[i]);
        i += 1;
    }
    let mut seeds: Vec<Vec<u8>> = Vec::new();
    seeds.push(word);
    seeds.push(key);
    proof {
        assert(key@ =~= authority@);
        assert(word@ =~= seq![110u8, 103u8, 111u8]);
        assert(seeds.deep_view() =~= ngo_seeds(authority@)) by {
            assert(seeds.deep_view().len() == 2);
            assert(seeds.deep_view()[0] =~= seeds@[0]@);
            assert(seeds.deep_view()[1] =~= seeds@[1]@);
        }
    }
    match try_find_program_address(&seeds, program_id) {
        Some(pair) => Some(pair.0),
        None => None,
    }
}

} // verus!
