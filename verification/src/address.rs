use vstd::prelude::*;
use anchor_lang::prelude::Pubkey;

verus! {

/// The seed of the vault's address: the bytes of "vault".
pub const VAULT_SEED: [u8; 5] = [118, 97, 117, 108, 116];

/// The seed of a stake record's address: the bytes of "stake".
pub const STAKE_SEED: [u8; 5] = [115, 116, 97, 107, 101];

/// The seed of a stake holding's address: the bytes of "token".
pub const TOKEN_SEED: [u8; 5] = [116, 111, 107, 101, 110];

/// The address of an account, of a token, of a principal or of the program: 32 bytes.
#[derive(Clone, Copy, Debug, PartialEq, Eq)]
pub struct Address {
    pub bytes: [u8; 32],
}

impl View for Address {
    type V = Seq<u8>;

    open spec fn view(&self) -> Seq<u8> {
        self.bytes@
    }
}

impl Address {
    pub fn new(bytes: [u8; 32]) -> (address: Address)
        ensures
            address.bytes == bytes,
    {
        Address { bytes }
    }

    /// Whether two addresses hold the same bytes.
    pub fn same(&self, other: &Address) -> (r: bool)
        ensures
            r == (*self == *other),
            r == (self@ == other@),
    {
        let mut i: usize = 0;
        while i < 32
            invariant
                i <= 32,
                forall|k: int| 0 <= k < i ==> self.bytes@[k] == other.bytes@[k],
            decreases 32 - i,
        {
            if self.bytes[i] != other.bytes[i] {
                return false;
            }
            i = i + 1;
        }
        assert(self.bytes@ =~= other.bytes@);
        assert(self.bytes =~= other.bytes);
        true
    }

    /// The bytes of the address, as a seed.
    pub fn to_seed(&self) -> (seed: Vec<u8>)
        ensures
            seed@ == self@,
    {
        let mut seed: Vec<u8> = Vec::new();
        let mut i: usize = 0;
        while i < 32
            invariant
                i <= 32,
                seed@ == self@.subrange(0, i as int),
            decreases 32 - i,
        {
            seed.push(self.bytes[i]);
            assert(seed@ =~= self@.subrange(0, i + 1));
            i = i + 1;
        }
        assert(seed@ =~= self@);
        seed
    }
}

/// A list of seeds as bytes.
pub open spec fn seeds_view(seeds: Seq<Vec<u8>>) -> Seq<Seq<u8>> {
    Seq::new(seeds.len(), |i: int| seeds[i]@)
}

/// The address that the ledger derives for a program from a list of seeds,
/// with the bump that completes the seeds; `None` where it derives none.
pub uninterp spec fn program_address(seeds: Seq<Seq<u8>>, program: Seq<u8>) -> Option<(Address, u8)>;

/// `Pubkey::try_find_program_address` of solana_program (which anchor_lang
/// hands on in its prelude), on bytes.
///
/// Trusted: what it returns depends on the seeds and on the program's
/// address alone. Nothing is claimed of which address that is, nor of when
/// there is one.
#[verifier::external_body]
fn find_program_address(seeds: &Vec<Vec<u8>>, program: &Address) -> (found: Option<(Address, u8)>)
    ensures
        found == program_address(seeds_view(seeds@), program@),
{
    let mut parts: Vec<&[u8]> = Vec::new();
    for seed in seeds.iter() {
        parts.push(seed.as_slice());
    }
    let id = Pubkey::new_from_array(program.bytes);
    match Pubkey::try_find_program_address(&parts, &id) {
        Some((key, bump)) => Some((Address { bytes: key.to_bytes() }, bump)),
        None => None,
    }
}

fn seed_of(tag: &[u8; 5]) -> (seed: Vec<u8>)
    ensures
        seed@ == tag@,
{
    let mut seed: Vec<u8> = Vec::new();
    let mut i: usize = 0;
    while i < 5
        invariant
            i <= 5,
            seed@ == tag@.subrange(0, i as int),
        decreases 5 - i,
    {
        seed.push(tag[i]);
        assert(seed@ =~= tag@.subrange(0, i + 1));
        i = i + 1;
    }
    assert(seed@ =~= tag@);
    seed
}

/// The seeds of the vault's address.
pub open spec fn vault_seeds() -> Seq<Seq<u8>> {
    seq![VAULT_SEED@]
}

/// The seeds of the address of a principal's stake record.
pub open spec fn stake_info_seeds(principal: Address) -> Seq<Seq<u8>> {
    seq![STAKE_SEED@, principal@]
}

/// The seeds of the address of a principal's stake holding.
pub open spec fn stake_account_seeds(principal: Address) -> Seq<Seq<u8>> {
    seq![TOKEN_SEED@, principal@]
}

/// The address of the vault of a program, and its bump.
pub fn vault_address(program: &Address) -> (found: Option<(Address, u8)>)
    ensures
        found == program_address(vault_seeds(), program@),
{
    let mut seeds: Vec<Vec<u8>> = Vec::new();
    seeds.push(seed_of(&VAULT_SEED));
    assert(seeds_view(seeds@) =~= vault_seeds());
    find_program_address(&seeds, program)
}

/// The address of a principal's stake record, and its bump.
pub fn stake_info_address(program: &Address, principal: &Address) -> (found: Option<(Address, u8)>)
    ensures
        found == program_address(stake_info_seeds(*principal), program@),
{
    let mut seeds: Vec<Vec<u8>> = Vec::new();
    seeds.push(seed_of(&STAKE_SEED));
    seeds.push(principal.to_seed());
    assert(seeds_view(seeds@) =~= stake_info_seeds(*principal));
    find_program_address(&seeds, program)
}

/// The address of a principal's stake holding, and its bump.
pub fn stake_account_address(program: &Address, principal: &Address) -> (found: Option<(Address, u8)>)
    ensures
        found == program_address(stake_account_seeds(*principal), program@),
{
    let mut seeds: Vec<Vec<u8>> = Vec::new();
    seeds.push(seed_of(&TOKEN_SEED));
    seeds.push(principal.to_seed());
    assert(seeds_view(seeds@) =~= stake_account_seeds(*principal));
    find_program_address(&seeds, program)
}

/// The seeds by which the program signs for the vault.
pub fn vault_signer_seeds(bump: u8) -> (seeds: Vec<Vec<u8>>)
    ensures
        seeds_view(seeds@) == seq![VAULT_SEED@, seq![bump]],
{
    let mut seeds: Vec<Vec<u8>> = Vec::new();
    seeds.push(seed_of(&VAULT_SEED));
    let mut last: Vec<u8> = Vec::new();
    last.push(bump);
    assert(last@ =~= seq![bump]);
    seeds.push(last);
    assert(seeds_view(seeds@) =~= seq![VAULT_SEED@, seq![bump]]);
    seeds
}

/// The seeds by which the program signs for a principal's stake holding.
pub fn stake_account_signer_seeds(principal: &Address, bump: u8) -> (seeds: Vec<Vec<u8>>)
    ensures
        seeds_view(seeds@) == seq![TOKEN_SEED@, principal@, seq![bump]],
{
    let mut seeds: Vec<Vec<u8>> = Vec::new();
    seeds.push(seed_of(&TOKEN_SEED));
    seeds.push(principal.to_seed());
    let mut last: Vec<u8> = Vec::new();
    last.push(bump);
    assert(last@ =~= seq![bump]);
    seeds.push(last);
    assert(seeds_view(seeds@) =~= seq![TOKEN_SEED@, principal@, seq![bump]]);
    seeds
}

} // verus!
