//! Derivation of record addresses from a namespace tag and key bytes.

use vstd::prelude::*;
use crate::key::Key;
use anchor_lang::prelude::Pubkey;

verus! {

/// The address that the derivation assigns to a list of seeds under a
/// program, or `None` where it assigns none.
pub uninterp spec fn program_address(seeds: Seq<Seq<u8>>, program: Seq<u8>) -> Option<Seq<u8>>;

/// The byte strings held by a list of seeds.
pub open spec fn seed_bytes(seeds: Seq<Vec<u8>>) -> Seq<Seq<u8>> {
    Seq::new(seeds.len(), |i: int| seeds[i]@)
}

/// Calls `Pubkey::try_find_program_address` on the seeds and the program's
/// key. Trusted: the address that comes back depends on the seeds' bytes
/// and the program's bytes alone, and `None` comes back where the
/// derivation finds no address.
#[verifier::external_body]
fn find_program_address(seeds: &Vec<Vec<u8>>, program: &Key) -> (found: Option<Key>)
    ensures
        match found {
            Some(address) => program_address(seed_bytes(seeds@), program@) == Some(address@),
            None => program_address(seed_bytes(seeds@), program@) is None,
        },
{
    let parts: Vec<&[u8]> = seeds.iter().map(|seed| seed.as_slice()).collect();
    match Pubkey::try_find_program_address(&parts, &Pubkey::new_from_array(program.bytes)) {
        Some((address, _)) => Some(Key { bytes: address.to_bytes() }),
        None => None,
    }
}

/// The decimal digits of a number, most significant first, in ASCII.
pub open spec fn decimal_text(n: nat) -> Seq<u8>
    decreases n,
{
    if n < 10 {
        seq![(48 + n) as u8]
    } else {
        decimal_text(n / 10).push((48 + n % 10) as u8)
    }
}

/// Writes a sequence identifier as decimal text.
pub fn id_text(id: u64) -> (text: Vec<u8>)
    ensures
        text@ == decimal_text(id as nat),
    decreases id,
{
    if id < 10 {
        let mut text: Vec<u8> = Vec::new();
        text.push(48 + id as u8);
        assert(text@ =~= decimal_text(id as nat));
        text
    } else {
        let mut text = id_text(id / 10);
        text.push(48 + (id % 10) as u8);
        text
    }
}

/// The namespace tag of platform records: `donation_platform` in ASCII.
pub open spec fn platform_tag() -> Seq<u8> {
    seq![100u8, 111, 110, 97, 116, 105, 111, 110, 95, 112, 108, 97, 116, 102, 111, 114, 109]
}

/// The namespace tag of donor registries: `donators` in ASCII.
pub open spec fn registry_tag() -> Seq<u8> {
    seq![100u8, 111, 110, 97, 116, 111, 114, 115]
}

/// The namespace tag of donation records: `donation` in ASCII.
pub open spec fn donation_tag() -> Seq<u8> {
    seq![100u8, 111, 110, 97, 116, 105, 111, 110]
}

/// The bytes of the program under which every address is derived.
pub open spec fn program_bytes() -> Seq<u8> {
    seq![
        9u8, 109, 204, 149, 52, 120, 102, 147, 233, 105, 165, 23, 103, 198, 177, 71,
        230, 238, 132, 223, 208, 146, 165, 226, 154, 9, 189, 167, 196, 152, 131, 12,
    ]
}

/// The key of the program under which every address is derived.
pub fn program_id() -> (program: Key)
    ensures
        program@ == program_bytes(),
{
    let program = Key {
        bytes: [
            9u8, 109, 204, 149, 52, 120, 102, 147, 233, 105, 165, 23, 103, 198, 177, 71,
            230, 238, 132, 223, 208, 146, 165, 226, 154, 9, 189, 167, 196, 152, 131, 12,
        ],
    };
    assert(program@ =~= program_bytes());
    program
}

/// The address of the platform record that an owner may create.
pub open spec fn platform_address_of(owner: Key) -> Option<Seq<u8>> {
    program_address(seq![platform_tag(), owner@], program_bytes())
}

/// The address of the donor registry that an owner may create.
pub open spec fn registry_address_of(owner: Key) -> Option<Seq<u8>> {
    program_address(seq![registry_tag(), owner@], program_bytes())
}

/// The address of the donation record with a given sequence identifier
/// under a platform.
pub open spec fn donation_address_of(platform: Key, id: u64) -> Option<Seq<u8>> {
    program_address(seq![donation_tag(), platform@, decimal_text(id as nat)], program_bytes())
}

/// The view of an optional key.
pub open spec fn key_bytes(key: Option<Key>) -> Option<Seq<u8>> {
    match key {
        Some(k) => Some(k@),
        None => None,
    }
}

/// The bytes of a key as a seed.
fn key_seed(key: &Key) -> (seed: Vec<u8>)
    ensures
        seed@ == key@,
{
    let mut seed: Vec<u8> = Vec::new();
    let mut i: usize = 0;
    while i < 32
        invariant
            i <= 32,
            seed@ == key@.subrange(0, i as int),
        decreases 32 - i,
    {
        seed.push(key.bytes[i]);
        assert(seed@ =~= key@.subrange(0, i + 1));
        i += 1;
    }
    assert(seed@ =~= key@);
    seed
}

/// Derives the address that belongs to a namespace tag and a key.
fn tagged_address(tag: Vec<u8>, key: &Key) -> (address: Option<Key>)
    ensures
        key_bytes(address) == program_address(seq![tag@, key@], program_bytes()),
{
    let mut seeds: Vec<Vec<u8>> = Vec::new();
    seeds.push(tag);
    seeds.push(key_seed(key));
    assert(seed_bytes(seeds@) =~= seq![tag@, key@]);
    find_program_address(&seeds, &program_id())
}

/// Derives the address of an owner's platform record.
pub fn platform_address(owner: &Key) -> (address: Option<Key>)
    ensures
        key_bytes(address) == platform_address_of(*owner),
{
    let tag: Vec<u8> = vec![100u8, 111, 110, 97, 116, 105, 111, 110, 95, 112, 108, 97, 116, 102, 111, 114, 109];
    assert(tag@ =~= platform_tag());
    tagged_address(tag, owner)
}

/// Derives the address of an owner's donor registry.
pub fn registry_address(owner: &Key) -> (address: Option<Key>)
    ensures
        key_bytes(address) == registry_address_of(*owner),
{
    let tag: Vec<u8> = vec![100u8, 111, 110, 97, 116, 111, 114, 115];
    assert(tag@ =~= registry_tag());
    tagged_address(tag, owner)
}

/// Derives the address of the donation record with a given sequence
/// identifier under a platform.
pub fn donation_address(platform: &Key, id: u64) -> (address: Option<Key>)
    ensures
        key_bytes(address) == donation_address_of(*platform, id),
{
    let tag: Vec<u8> = vec![100u8, 111, 110, 97, 116, 105, 111, 110];
    assert(tag@ =~= donation_tag());
    let mut seeds: Vec<Vec<u8>> = Vec::new();
    seeds.push(tag);
    seeds.push(key_seed(platform));
    seeds.push(id_text(id));
    assert(seed_bytes(seeds@) =~= seq![tag@, platform@, decimal_text(id as nat)]);
    find_program_address(&seeds, &program_id())
}

} // verus!
