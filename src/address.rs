use vstd::prelude::*;

verus! {

/// A 32-byte account address or identity.
#[derive(Clone, Copy, Debug)]
pub struct Address {
    pub bytes: [u8; 32],
}

impl View for Address {
    type V = Seq<u8>;

    open spec fn view(&self) -> Seq<u8> {
        self.bytes@
    }
}

impl Address {
    pub fn new(bytes: [u8; 32]) -> (r: Address)
        ensures
            r@ == bytes@,
    {
        Address { bytes }
    }

    /// Byte-wise comparison of two addresses.
    pub fn same(&self, other: &Address) -> (r: bool)
        ensures
            r == (self@ == other@),
    {
        let mut i: usize = 0;
        while i < 32
            invariant
                i <= 32,
                self@.len() == 32,
                other@.len() == 32,
                forall|j: int| 0 <= j < i ==> self@[j] == other@[j],
            decreases 32 - i,
        {
            if self.bytes[i] != other.bytes[i] {
                return false;
            }
            i += 1;
        }
        assert(self@ =~= other@);
        true
    }

    pub fn to_vec(&self) -> (r: Vec<u8>)
        ensures
            r@ == self@,
    {
        let mut v: Vec<u8> = Vec::new();
        let mut i: usize = 0;
        while i < 32
            invariant
                i <= 32,
                self@.len() == 32,
                v@ == self@.subrange(0, i as int),
            decreases 32 - i,
        {
            v.push(self.bytes[i]);
            i += 1;
        }
        assert(v@ =~= self@);
        v
    }
}

/// The canonical program-derived address and bump seed of `seeds` under
/// `program_id`, or `None` where none exists.
pub uninterp spec fn program_address(seeds: Seq<Seq<u8>>, program_id: Seq<u8>) -> Option<(Seq<u8>, u8)>;

pub open spec fn seeds_view(seeds: Seq<Vec<u8>>) -> Seq<Seq<u8>> {
    seeds.map_values(|s: Vec<u8>| s@)
}

pub open spec fn derived_view(r: Option<(Address, u8)>) -> Option<(Seq<u8>, u8)> {
    match r {
        Some(p) => Some((p.0@, p.1)),
        None => None,
    }
}

/// Relies on `Pubkey::try_find_program_address` (solana-address, re-exported by
/// anchor-lang): it hashes the seeds, a bump and the program id, trying bumps
/// from 255 down until the address is off the curve. The result depends on the
/// seeds and the program id alone; `None` where no bump works or the seeds
/// exceed the limits.
#[verifier::external_body]
fn try_find_program_address(seeds: &Vec<Vec<u8>>, program_id: &Address) -> (r: Option<(Address, u8)>)
    ensures
        derived_view(r) == program_address(seeds_view(seeds@), program_id@),
{
    let refs: Vec<&[u8]> = seeds.iter().map(|s| s.as_slice()).collect();
    let id = anchor_lang::prelude::Pubkey::new_from_array(program_id.bytes);
    anchor_lang::prelude::Pubkey::try_find_program_address(&refs, &id).map(
        |(k, b)| (Address { bytes: k.to_bytes() }, b),
    )
}

/// The seed that starts a treasury's derivation.
pub open spec fn treasury_tag() -> Seq<u8> {
    seq![118u8, 101, 115, 116, 105, 110, 103, 95, 116, 114, 101, 97, 115, 117, 114, 121]
}

/// The seed that starts a grant's derivation.
pub open spec fn grant_tag() -> Seq<u8> {
    seq![101u8, 109, 112, 108, 111, 121, 101, 101, 95, 118, 101, 115, 116, 105, 110, 103]
}

pub open spec fn pool_seeds(name: Seq<u8>) -> Seq<Seq<u8>> {
    seq![name]
}

pub open spec fn treasury_seeds(name: Seq<u8>) -> Seq<Seq<u8>> {
    seq![treasury_tag(), name]
}

pub open spec fn grant_seeds(beneficiary: Seq<u8>, pool: Seq<u8>) -> Seq<Seq<u8>> {
    seq![grant_tag(), beneficiary, pool]
}

/// The address of the pool record of the company whose name has these bytes.
pub fn derive_pool(name: &Vec<u8>, program_id: &Address) -> (r: Option<(Address, u8)>)
    ensures
        derived_view(r) == program_address(pool_seeds(name@), program_id@),
{
    let seeds: Vec<Vec<u8>> = vec![name.clone()];
    assert(seeds_view(seeds@) =~= pool_seeds(name@));
    try_find_program_address(&seeds, program_id)
}

/// The address of the treasury of the company whose name has these bytes.
pub fn derive_treasury(name: &Vec<u8>, program_id: &Address) -> (r: Option<(Address, u8)>)
    ensures
        derived_view(r) == program_address(treasury_seeds(name@), program_id@),
{
    let tag: Vec<u8> = vec![118u8, 101, 115, 116, 105, 110, 103, 95, 116, 114, 101, 97, 115, 117, 114, 121];
    let seeds: Vec<Vec<u8>> = vec![tag, name.clone()];
    assert(seeds_view(seeds@) =~= treasury_seeds(name@));
    try_find_program_address(&seeds, program_id)
}

/// The address of the grant of `beneficiary` in the pool at `pool`.
pub fn derive_grant(beneficiary: &Address, pool: &Address, program_id: &Address) -> (r: Option<(Address, u8)>)
    ensures
        derived_view(r) == program_address(grant_seeds(beneficiary@, pool@), program_id@),
{
    let tag: Vec<u8> = vec![101u8, 109, 112, 108, 111, 121, 101, 101, 95, 118, 101, 115, 116, 105, 110, 103];
    let seeds: Vec<Vec<u8>> = vec![tag, beneficiary.to_vec(), pool.to_vec()];
    assert(seeds_view(seeds@) =~= grant_seeds(beneficiary@, pool@));
    try_find_program_address(&seeds, program_id)
}

pub open spec fn token_account_seeds(owner: Seq<u8>, token_program: Seq<u8>, mint: Seq<u8>) -> Seq<Seq<u8>> {
    seq![owner, token_program, mint]
}

/// The associated token account of `owner` for the asset `mint`, kept by
/// `token_program` and derived under `associated_program`.
pub fn derive_token_account(
    owner: &Address,
    token_program: &Address,
    mint: &Address,
    associated_program: &Address,
) -> (r: Option<(Address, u8)>)
    ensures
        derived_view(r) == program_address(
            token_account_seeds(owner@, token_program@, mint@),
            associated_program@,
        ),
{
    let seeds: Vec<Vec<u8>> = vec![owner.to_vec(), token_program.to_vec(), mint.to_vec()];
    assert(seeds_view(seeds@) =~= token_account_seeds(owner@, token_program@, mint@));
    try_find_program_address(&seeds, associated_program)
}

} // verus!
