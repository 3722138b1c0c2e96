use vstd::prelude::*;

use crate::states::Pubkey;

verus! {

/// The address and bump seed that the host's program-derived-address scheme
/// assigns to a list of seed byte strings under a program id: the result of
/// its search, over candidate bump seeds, for an address outside the
/// signing-key space. It is a function of the seed list and the program id
/// alone. `None` is the scheme's refusal: too many seeds, a seed longer than
/// 32 bytes, or no viable bump.
pub uninterp spec fn derived_address(seeds: Seq<Seq<u8>>, program_id: Seq<u8>) -> Option<
    (Seq<u8>, u8),
>;

/// Relies on Pubkey::try_find_program_address (solana-address): the derived
/// address and bump seed depend on the seed list and the program id alone,
/// the returned address is 32 bytes, and when no valid derivation exists the
/// call returns None rather than failing.
#[verifier::external_body]
fn try_find_pda(seeds: &Vec<Vec<u8>>, program_id: &Pubkey) -> (r: Option<(Pubkey, u8)>)
    ensures
        r is Some <==> derived_address(seeds.deep_view(), program_id@) is Some,
        r matches Some(p) ==> derived_address(seeds.deep_view(), program_id@) == Some(
            (p.0@, p.1),
        ),
{
    let pid = anchor_lang::solana_program::pubkey::Pubkey::new_from_array(program_id.bytes);
    let seed_slices: Vec<&[u8]> = seeds.iter().map(|s| s.as_slice()).collect();
    anchor_lang::solana_program::pubkey::Pubkey::try_find_program_address(&seed_slices, &pid).map(
        |found: (anchor_lang::solana_program::pubkey::Pubkey, u8)|
            (Pubkey { bytes: found.0.to_bytes() }, found.1),
    )
}

/// A fresh copy of a byte string.
fn copy_bytes(src: &Vec<u8>) -> (r: Vec<u8>)
    ensures
        r@ == src@,
{
    let mut r: Vec<u8> = Vec::new();
    let mut i: usize = 0;
    while i < src.len()
        invariant
            0 <= i <= src@.len(),
            r@ == src@.take(i as int),
        decreases src@.len() - i,
    {
        r.push(src[i]);
        proof {
            assert(r@ =~= src@.take(i + 1));
        }
        i = i + 1;
    }
    proof {
        assert(src@.take(src@.len() as int) =~= src@);
    }
    r
}

/// The bytes of an address, as an owned byte string.
fn pubkey_bytes(p: &Pubkey) -> (r: Vec<u8>)
    ensures
        r@ == p@,
{
    let mut r: Vec<u8> = Vec::new();
    let mut i: usize = 0;
    while i < 32
        invariant
            0 <= i <= 32,
            r@ == p.bytes@.take(i as int),
        decreases 32 - i,
    {
        r.push(p.bytes[i]);
        proof {
            assert(r@ =~= p.bytes@.take(i + 1));
        }
        i = i + 1;
    }
    proof {
        assert(p.bytes@.take(32) =~= p.bytes@);
    }
    r
}

/// The storage address of the campaign record named `target_name` and owned
/// by `authority`, with its bump seed: derived from the seed pair
/// (name bytes, owner bytes), exactly the seeds under which the registry
/// creates the record. This is how a campaign is publicly discoverable
/// without an index.
pub fn tipper_address(target_name: &Vec<u8>, authority: &Pubkey, program_id: &Pubkey) -> (r:
    Option<(Pubkey, u8)>)
    ensures
        r is Some <==> derived_address(seq![target_name@, authority@], program_id@) is Some,
        r matches Some(p) ==> derived_address(seq![target_name@, authority@], program_id@)
            == Some((p.0@, p.1)),
{
    let mut seeds: Vec<Vec<u8>> = Vec::new();
    seeds.push(copy_bytes(target_name));
    seeds.push(pubkey_bytes(authority));
    proof {
        assert(seeds.deep_view() =~~= seq![target_name@, authority@]);
    }
    try_find_pda(&seeds, program_id)
}

/// The storage address of the receipt for a contribution by `author`, with
/// these message bytes, to the campaign record at address `tipper`: derived
/// from the seed triple (contributor, campaign address, message). One such
/// address exists per triple, which is why a repeated identical contribution
/// collides.
pub fn tip_address(author: &Pubkey, tipper: &Pubkey, message: &Vec<u8>, program_id: &Pubkey) -> (r:
    Option<(Pubkey, u8)>)
    ensures
        r is Some <==> derived_address(
            seq![author@, tipper@, message@],
            program_id@,
        ) is Some,
        r matches Some(p) ==> derived_address(seq![author@, tipper@, message@], program_id@)
            == Some((p.0@, p.1)),
{
    let mut seeds: Vec<Vec<u8>> = Vec::new();
    seeds.push(pubkey_bytes(author));
    seeds.push(pubkey_bytes(tipper));
    seeds.push(copy_bytes(message));
    proof {
        assert(seeds.deep_view() =~~= seq![author@, tipper@, message@]);
    }
    try_find_pda(&seeds, program_id)
}

} // verus!
