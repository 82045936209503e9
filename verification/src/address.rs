//! Addresses, and how the records of a program get theirs: derived from seeds, the
//! program id and a bump seed, as the ledger's runtime derives them.

use crate::error::ErrorCode;
use anchor_lang::solana_program::pubkey::Pubkey;
use vstd::prelude::*;

verus! {

/// Longest seed, in bytes, that address derivation admits.
pub const MAX_SEED_LEN: usize = 32;

/// Largest number of seeds, bump seed included, that address derivation admits.
pub const MAX_SEEDS: usize = 16;

/// Largest bump seed; the search for a canonical address starts here.
pub const MAX_BUMP: u8 = 255;

/// Smallest bump seed that the search tries.
pub const MIN_BUMP: u8 = 1;

/// A 32-byte account address.
#[derive(Clone, Copy, Debug, Eq)]
pub struct Address {
    pub bytes: [u8; 32],
}

impl View for Address {
    type V = Seq<u8>;

    open spec fn view(&self) -> Seq<u8> {
        self.bytes@
    }
}

impl PartialEq for Address {
    fn eq(&self, other: &Address) -> (r: bool) {
        let mut i: usize = 0;
        while i < 32
            invariant
                i <= 32,
                forall|j: int| 0 <= j < i ==> self.bytes[j] == other.bytes[j],
            decreases 32 - i,
        {
            if self.bytes[i] != other.bytes[i] {
                return false;
            }
            i += 1;
        }
        assert(self@ =~= other@);
        true
    }
}

impl vstd::std_specs::cmp::PartialEqSpecImpl for Address {
    open spec fn obeys_eq_spec() -> bool {
        true
    }

    open spec fn eq_spec(&self, other: &Address) -> bool {
        self@ == other@
    }
}

/// `PubkeyError` of solana_program: why a derivation failed. It is handed on unread.
#[verifier::external_type_specification]
#[verifier::external_body]
pub struct ExPubkeyError(anchor_lang::solana_program::pubkey::PubkeyError);

/// The seeds as byte strings.
pub open spec fn seeds_view(seeds: Seq<Vec<u8>>) -> Seq<Seq<u8>> {
    Seq::new(seeds.len(), |i: int| seeds[i]@)
}

/// Whether the seeds are few and short enough for a derivation.
pub open spec fn admissible(seeds: Seq<Seq<u8>>) -> bool {
    &&& seeds.len() <= MAX_SEEDS
    &&& forall|i: int| 0 <= i < seeds.len() ==> (#[trigger] seeds[i]).len() <= MAX_SEED_LEN
}

/// The address that the seeds and the program derive to, if it lies off the curve.
pub uninterp spec fn program_address(seeds: Seq<Seq<u8>>, program_id: Seq<u8>) -> Option<Seq<u8>>;

/// `Pubkey::create_program_address` of solana_program: hashes the seeds, the program id and a
/// marker, and yields the hash as an address unless it is a point of the ed25519 curve. For
/// admissible seeds the only failure is such a point. The contract names the outcome
/// `program_address`; nothing is proved of the hash itself.
#[verifier::external_body]
fn create_program_address(seeds: &Vec<Vec<u8>>, program_id: &Address) -> (r: Result<
    Address,
    anchor_lang::solana_program::pubkey::PubkeyError,
>)
    requires
        admissible(seeds_view(seeds@)),
    ensures
        r matches Ok(a) ==> program_address(seeds_view(seeds@), program_id@) == Some(a@),
        r is Err ==> program_address(seeds_view(seeds@), program_id@) is None,
{
    let parts: Vec<&[u8]> = seeds.iter().map(Vec::as_slice).collect();
    let program = Pubkey::new_from_array(program_id.bytes);
    match Pubkey::create_program_address(&parts, &program) {
        Ok(key) => Ok(Address { bytes: key.to_bytes() }),
        Err(e) => Err(e),
    }
}

/// The seeds followed by the one-byte bump seed.
pub open spec fn with_bump(seeds: Seq<Seq<u8>>, bump: u8) -> Seq<Seq<u8>> {
    seeds.push(seq![bump])
}

/// The address that the seeds, a bump seed and the program derive to: none where the seeds
/// with the bump seed are not admissible or the derived bytes lie on the curve.
pub open spec fn address_with_bump(seeds: Seq<Seq<u8>>, program_id: Seq<u8>, bump: u8) -> Option<
    Seq<u8>,
> {
    if admissible(with_bump(seeds, bump)) {
        program_address(with_bump(seeds, bump), program_id)
    } else {
        None
    }
}

/// The bump seed is canonical: it yields an address, and no greater one does.
pub open spec fn is_canonical_bump(seeds: Seq<Seq<u8>>, program_id: Seq<u8>, bump: u8) -> bool {
    &&& MIN_BUMP <= bump
    &&& address_with_bump(seeds, program_id, bump) is Some
    &&& forall|b: u8| bump < b ==> address_with_bump(seeds, program_id, b) is None
}

/// The canonical address of the seeds under the program, with its bump seed.
pub open spec fn canonical_address(seeds: Seq<Seq<u8>>, program_id: Seq<u8>) -> Option<
    (Seq<u8>, u8),
> {
    if exists|b: u8| is_canonical_bump(seeds, program_id, b) {
        let bump = choose|b: u8| is_canonical_bump(seeds, program_id, b);
        Some((address_with_bump(seeds, program_id, bump).unwrap(), bump))
    } else {
        None
    }
}

/// The canonical address comes from a canonical bump seed: the greatest that yields an
/// address, and the address is the one it yields.
pub proof fn lemma_canonical_is_greatest(seeds: Seq<Seq<u8>>, program_id: Seq<u8>)
    requires
        canonical_address(seeds, program_id) is Some,
    ensures
        ({
            let (address, bump) = canonical_address(seeds, program_id).unwrap();
            &&& is_canonical_bump(seeds, program_id, bump)
            &&& address_with_bump(seeds, program_id, bump) == Some(address)
        }),
{
}

/// There is at most one canonical bump seed, and `canonical_address` holds it.
pub proof fn lemma_canonical_unique(seeds: Seq<Seq<u8>>, program_id: Seq<u8>, bump: u8)
    requires
        is_canonical_bump(seeds, program_id, bump),
    ensures
        canonical_address(seeds, program_id) == Some(
            (address_with_bump(seeds, program_id, bump).unwrap(), bump),
        ),
{
    let chosen = choose|b: u8| is_canonical_bump(seeds, program_id, b);
    assert(chosen == bump);
}

/// Where no bump seed from `MIN_BUMP` up yields an address, there is no canonical address.
pub proof fn lemma_canonical_none(seeds: Seq<Seq<u8>>, program_id: Seq<u8>)
    requires
        forall|b: u8| MIN_BUMP <= b ==> address_with_bump(seeds, program_id, b) is None,
    ensures
        canonical_address(seeds, program_id) is None,
{
}

fn copy_seed(seed: &Vec<u8>) -> (r: Vec<u8>)
    ensures
        r@ == seed@,
{
    let mut r: Vec<u8> = Vec::new();
    let mut i: usize = 0;
    while i < seed.len()
        invariant
            i <= seed.len(),
            r@ == seed@.take(i as int),
        decreases seed.len() - i,
    {
        r.push(seed[i]);
        assert(seed@.take(i + 1) =~= seed@.take(i as int).push(seed[i as int]));
        i += 1;
    }
    assert(seed@.take(seed.len() as int) =~= seed@);
    r
}

/// Whether the seeds stay admissible once a bump seed is added.
fn admits_bump(seeds: &Vec<Vec<u8>>) -> (r: bool)
    ensures
        r == forall|bump: u8| admissible(#[trigger] with_bump(seeds_view(seeds@), bump)),
        r == exists|bump: u8| admissible(#[trigger] with_bump(seeds_view(seeds@), bump)),
{
    let ghost plain = seeds_view(seeds@);
    if seeds.len() >= MAX_SEEDS {
        assert forall|bump: u8| !admissible(#[trigger] with_bump(plain, bump)) by {}
        assert(!admissible(with_bump(plain, 0)));
        return false;
    }
    let mut i: usize = 0;
    while i < seeds.len()
        invariant
            i <= seeds.len(),
            plain == seeds_view(seeds@),
            forall|j: int| 0 <= j < i ==> (#[trigger] plain[j]).len() <= MAX_SEED_LEN,
        decreases seeds.len() - i,
    {
        if seeds[i].len() > MAX_SEED_LEN {
            assert forall|bump: u8| !admissible(#[trigger] with_bump(plain, bump)) by {
                assert(with_bump(plain, bump)[i as int] == plain[i as int]);
            }
            assert(!admissible(with_bump(plain, 0)));
            return false;
        }
        i += 1;
    }
    assert forall|bump: u8| admissible(#[trigger] with_bump(plain, bump)) by {
        assert forall|j: int| 0 <= j < with_bump(plain, bump).len() implies (#[trigger] with_bump(
            plain,
            bump,
        )[j]).len() <= MAX_SEED_LEN by {
            if j < plain.len() {
                assert(with_bump(plain, bump)[j] == plain[j]);
            }
        }
    }
    assert(admissible(with_bump(plain, 0)));
    true
}

fn seeds_with_bump(seeds: &Vec<Vec<u8>>, bump: u8) -> (r: Vec<Vec<u8>>)
    ensures
        seeds_view(r@) == with_bump(seeds_view(seeds@), bump),
{
    let mut r: Vec<Vec<u8>> = Vec::new();
    let mut i: usize = 0;
    while i < seeds.len()
        invariant
            i <= seeds.len(),
            r.len() == i,
            forall|j: int| 0 <= j < i ==> (#[trigger] r[j])@ == seeds[j]@,
        decreases seeds.len() - i,
    {
        r.push(copy_seed(&seeds[i]));
        i += 1;
    }
    let mut last: Vec<u8> = Vec::new();
    last.push(bump);
    assert(last@ =~= seq![bump]);
    r.push(last);
    assert(seeds_view(r@) =~= with_bump(seeds_view(seeds@), bump));
    r
}

/// Derives the canonical address of the seeds under the program: the address of the
/// greatest bump seed, from `MAX_BUMP` down to `MIN_BUMP`, that yields one. Fails with
/// `NoValidAddress` where none does.
pub fn derive_address(seeds: &Vec<Vec<u8>>, program_id: &Address) -> (r: Result<
    (Address, u8),
    ErrorCode,
>)
    ensures
        match r {
            Ok((address, bump)) => canonical_address(seeds_view(seeds@), program_id@) == Some(
                (address@, bump),
            ),
            Err(e) => e == ErrorCode::NoValidAddress && canonical_address(
                seeds_view(seeds@),
                program_id@,
            ) is None,
        },
{
    let ghost plain = seeds_view(seeds@);
    if !admits_bump(seeds) {
        proof {
            lemma_canonical_none(plain, program_id@);
        }
        return Err(ErrorCode::NoValidAddress);
    }
    let mut bump: u8 = MAX_BUMP;
    while bump >= MIN_BUMP
        invariant
            plain == seeds_view(seeds@),
            forall|b: u8| admissible(#[trigger] with_bump(plain, b)),
            forall|b: u8| bump < b ==> address_with_bump(plain, program_id@, b) is None,
        decreases bump,
    {
        let candidate = seeds_with_bump(seeds, bump);
        match create_program_address(&candidate, program_id) {
            Ok(address) => {
                proof {
                    lemma_canonical_unique(plain, program_id@, bump);
                }
                return Ok((address, bump));
            },
            Err(_) => {},
        }
        bump -= 1;
    }
    proof {
        lemma_canonical_none(plain, program_id@);
    }
    Err(ErrorCode::NoValidAddress)
}

/// The address that the seeds, a bump seed and the program derive to, if there is one.
pub fn address_for_bump(seeds: &Vec<Vec<u8>>, bump: u8, program_id: &Address) -> (r: Option<
    Address,
>)
    ensures
        match r {
            Some(address) => address_with_bump(seeds_view(seeds@), program_id@, bump) == Some(
                address@,
            ),
            None => address_with_bump(seeds_view(seeds@), program_id@, bump) is None,
        },
{
    if !admits_bump(seeds) {
        return None;
    }
    let candidate = seeds_with_bump(seeds, bump);
    match create_program_address(&candidate, program_id) {
        Ok(address) => Some(address),
        Err(_) => None,
    }
}

/// Holds a derived address against the one that a caller claims. Fails with
/// `AddressMismatch` where nothing was derived or the two differ.
pub fn check_claim(derived: &Option<Address>, claimed: &Address) -> (r: Result<(), ErrorCode>)
    ensures
        r == if (*derived matches Some(address) && address@ == claimed@) {
            Ok::<(), ErrorCode>(())
        } else {
            Err::<(), ErrorCode>(ErrorCode::AddressMismatch)
        },
{
    match derived {
        Some(address) => if *address == *claimed {
            Ok(())
        } else {
            Err(ErrorCode::AddressMismatch)
        },
        None => Err(ErrorCode::AddressMismatch),
    }
}

/// Checks a claimed address against the one that the seeds, a recorded bump seed and the
/// program derive to. Fails with `AddressMismatch` where they differ or nothing is derived.
pub fn verify_address(
    seeds: &Vec<Vec<u8>>,
    bump: u8,
    program_id: &Address,
    claimed: &Address,
) -> (r: Result<(), ErrorCode>)
    ensures
        r == if address_with_bump(seeds_view(seeds@), program_id@, bump) == Some(claimed@) {
            Ok::<(), ErrorCode>(())
        } else {
            Err::<(), ErrorCode>(ErrorCode::AddressMismatch)
        },
{
    check_claim(&address_for_bump(seeds, bump, program_id), claimed)
}

} // verus!
