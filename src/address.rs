use vstd::prelude::*;

use solana_program::pubkey::Pubkey;

verus! {

/// A 32-byte ledger address: an account, a wallet, a mint or a program.
#[derive(Clone, Copy, Debug)]
pub struct Address {
    pub bytes: [u8; 32],
}

impl View for Address {
    type V = Seq<u8>;

    open spec fn view(&self) -> Seq<u8> {
        self.bytes@
    }
}

impl PartialEq for Address {
    fn eq(&self, other: &Address) -> (r: bool) {
        self.same_as(other)
    }
}

impl Eq for Address {
}

impl vstd::std_specs::cmp::PartialEqSpecImpl for Address {
    open spec fn obeys_eq_spec() -> bool {
        true
    }

    open spec fn eq_spec(&self, other: &Address) -> bool {
        *self == *other
    }
}

impl Address {
    pub fn new(bytes: [u8; 32]) -> (r: Address)
        ensures
            r.bytes == bytes,
    {
        Address { bytes }
    }

    /// Byte-wise comparison of two addresses.
    pub fn same_as(&self, other: &Address) -> (r: bool)
        ensures
            r == (*self == *other),
            r == (self@ == other@),
    {
        let mut i: usize = 0;
        while i < 32
            invariant
                0 <= i <= 32,
                forall|j: int| 0 <= j < i ==> self.bytes[j] == other.bytes[j],
            decreases 32 - i,
        {
            if self.bytes[i] != other.bytes[i] {
                assert(self@[i as int] != other@[i as int]);
                return false;
            }
            i += 1;
        }
        proof {
            assert(self.bytes@ =~= other.bytes@);
            vstd::array::axiom_array_ext_equal(self.bytes, other.bytes);
        }
        true
    }

    /// The address as a byte vector, for use as a derivation seed.
    pub fn to_vec(&self) -> (r: Vec<u8>)
        ensures
            r@ == self@,
    {
        let mut out: Vec<u8> = Vec::new();
        let mut i: usize = 0;
        while i < 32
            invariant
                0 <= i <= 32,
                out@ =~= self@.subrange(0, i as int),
            decreases 32 - i,
        {
            out.push(self.bytes[i]);
            i += 1;
        }
        out
    }
}

/// The address that the ledger's derivation finds for `seeds` under
/// `program_id`, with its bump seed; `None` where no bump seed gives an
/// address off the curve.
pub uninterp spec fn found_program_address(seeds: Seq<Seq<u8>>, program_id: Seq<u8>) -> Option<
    (Seq<u8>, u8),
>;

/// The address derived from `seeds` (bump seed included) under `program_id`;
/// `None` where the seeds are refused or the result lies on the curve.
pub uninterp spec fn created_program_address(seeds: Seq<Seq<u8>>, program_id: Seq<u8>) -> Option<
    Seq<u8>,
>;

/// Relies on `solana_program::pubkey::Pubkey::try_find_program_address`,
/// which searches the bump seeds from 255 down and returns the first address
/// that `create_program_address` gives for the seeds with the bump appended,
/// or `None`. It depends on its arguments alone.
#[verifier::external_body]
fn try_find_program_address(seeds: &Vec<Vec<u8>>, program_id: &Address) -> (r: Option<
    (Address, u8),
>)
    ensures
        match r {
            Some(found) => found_program_address(seed_list(seeds@), program_id@) == Some(
                (found.0@, found.1),
            ),
            None => found_program_address(seed_list(seeds@), program_id@) is None,
        },
        r is Some ==> created_program_address(
            seed_list(seeds@).push(seq![r->Some_0.1]),
            program_id@,
        ) == Some(r->Some_0.0@),
{
    let s: Vec<&[u8]> = seeds.iter().map(|v| v.as_slice()).collect();
    let pid = Pubkey::new_from_array(program_id.bytes);
    Pubkey::try_find_program_address(&s, &pid).map(|(k, b)| (Address { bytes: k.to_bytes() }, b))
}

/// Relies on `solana_program::pubkey::Pubkey::create_program_address`, which
/// hashes the seeds with the program id and refuses more than 16 seeds or a
/// seed longer than 32 bytes. It depends on its arguments alone.
#[verifier::external_body]
fn create_program_address(seeds: &Vec<Vec<u8>>, program_id: &Address) -> (r: Option<Address>)
    ensures
        match r {
            Some(a) => created_program_address(seed_list(seeds@), program_id@) == Some(a@),
            None => created_program_address(seed_list(seeds@), program_id@) is None,
        },
        seeds@.len() > 16 || exists|i: int| 0 <= i < seeds@.len() && seeds@[i]@.len() > 32
            ==> r is None,
{
    let s: Vec<&[u8]> = seeds.iter().map(|v| v.as_slice()).collect();
    let pid = Pubkey::new_from_array(program_id.bytes);
    Pubkey::create_program_address(&s, &pid).ok().map(|k| Address { bytes: k.to_bytes() })
}

/// The contents of a list of derivation seeds.
pub open spec fn seed_list(seeds: Seq<Vec<u8>>) -> Seq<Seq<u8>> {
    Seq::new(seeds.len(), |i: int| seeds[i]@)
}

/// The seed prefix of every custody vault address.
pub open spec fn vault_seed_prefix() -> Seq<u8> {
    seq![97u8, 115, 115, 101, 116, 95, 118, 97, 117, 108, 116]
}

/// Seeds of the custody vault of the asset whose token is `mint`.
pub open spec fn vault_seeds(mint: Seq<u8>) -> Seq<Seq<u8>> {
    seq![vault_seed_prefix(), mint]
}

fn vault_seed_vec(mint: &Address) -> (r: Vec<Vec<u8>>)
    ensures
        r@.len() == 2,
        seed_list(r@) == vault_seeds(mint@),
{
    // "asset_vault"
    let prefix: Vec<u8> = vec![97u8, 115, 115, 101, 116, 95, 118, 97, 117, 108, 116];
    let mut seeds: Vec<Vec<u8>> = Vec::new();
    seeds.push(prefix);
    seeds.push(mint.to_vec());
    proof {
        assert(seeds@[0]@ =~= vault_seed_prefix());
        assert(seed_list(seeds@) =~= vault_seeds(mint@));
    }
    seeds
}

/// Finds the custody vault address of an asset and its bump seed.
pub fn find_vault_address(mint: &Address, program_id: &Address) -> (r: Option<(Address, u8)>)
    ensures
        match r {
            Some(found) => found_program_address(vault_seeds(mint@), program_id@) == Some(
                (found.0@, found.1),
            ),
            None => found_program_address(vault_seeds(mint@), program_id@) is None,
        },
        r is Some ==> created_program_address(
            vault_seeds(mint@).push(seq![r->Some_0.1]),
            program_id@,
        ) == Some(r->Some_0.0@),
{
    let seeds = vault_seed_vec(mint);
    try_find_program_address(&seeds, program_id)
}

/// Recomputes the custody vault address from the bump seed stored with the
/// asset; only the ledger's own logic can sign for it.
pub fn vault_authority(mint: &Address, bump: u8, program_id: &Address) -> (r: Option<Address>)
    ensures
        match r {
            Some(a) => created_program_address(
                vault_seeds(mint@).push(seq![bump]),
                program_id@,
            ) == Some(a@),
            None => created_program_address(vault_seeds(mint@).push(seq![bump]), program_id@) is None,
        },
{
    let mut seeds = vault_seed_vec(mint);
    let ghost before = seeds@;
    let bump_seed: Vec<u8> = vec![bump];
    assert(bump_seed@ =~= seq![bump]);
    seeds.push(bump_seed);
    proof {
        assert(seeds@ == before.push(bump_seed));
        assert(seed_list(seeds@)[2] == seq![bump]);
        assert(seed_list(seeds@) =~= vault_seeds(mint@).push(seq![bump]));
    }
    create_program_address(&seeds, program_id)
}

/// Seeds of the associated token account of `wallet` for `mint`.
pub open spec fn associated_token_seeds(wallet: Seq<u8>, token_program: Seq<u8>, mint: Seq<u8>) -> Seq<
    Seq<u8>,
> {
    seq![wallet, token_program, mint]
}

/// The associated token account that holds `wallet`'s balance of `mint`,
/// derived under the associated-token program from the seeds wallet, token
/// program, mint. The derivation goes through the search that reports a
/// missing bump seed as `None`, since the associated-token crate's own
/// helper panics in that case.
pub fn associated_token_address(
    wallet: &Address,
    mint: &Address,
    token_program: &Address,
    associated_token_program: &Address,
) -> (r: Option<Address>)
    ensures
        match r {
            Some(a) => found_program_address(
                associated_token_seeds(wallet@, token_program@, mint@),
                associated_token_program@,
            ) is Some && found_program_address(
                associated_token_seeds(wallet@, token_program@, mint@),
                associated_token_program@,
            )->Some_0.0 == a@,
            None => found_program_address(
                associated_token_seeds(wallet@, token_program@, mint@),
                associated_token_program@,
            ) is None,
        },
{
    let w = wallet.to_vec();
    let t = token_program.to_vec();
    let m = mint.to_vec();
    let mut seeds: Vec<Vec<u8>> = Vec::new();
    seeds.push(w);
    seeds.push(t);
    seeds.push(m);
    proof {
        assert(seeds@ =~= seq![w, t, m]);
        assert(seed_list(seeds@) =~= associated_token_seeds(wallet@, token_program@, mint@));
    }
    match try_find_program_address(&seeds, associated_token_program) {
        Some(found) => {
            Some(found.0)
        },
        None => None,
    }
}

/// The seed prefix of every dividend pool address.
pub open spec fn pool_seed_prefix() -> Seq<u8> {
    seq![100u8, 105, 118, 105, 100, 101, 110, 100, 95, 112, 111, 111, 108]
}

/// Seeds of the dividend pool of the asset whose token is `mint`.
pub open spec fn pool_seeds(mint: Seq<u8>) -> Seq<Seq<u8>> {
    seq![pool_seed_prefix(), mint]
}

/// Finds the dividend pool address of an asset and its bump seed; the pool
/// holds its deposits in custody and only the ledger signs for it.
pub fn find_pool_address(mint: &Address, program_id: &Address) -> (r: Option<(Address, u8)>)
    ensures
        match r {
            Some(found) => found_program_address(pool_seeds(mint@), program_id@) == Some(
                (found.0@, found.1),
            ),
            None => found_program_address(pool_seeds(mint@), program_id@) is None,
        },
{
    // "dividend_pool"
    let prefix: Vec<u8> = vec![100u8, 105, 118, 105, 100, 101, 110, 100, 95, 112, 111, 111, 108];
    let mut seeds: Vec<Vec<u8>> = Vec::new();
    seeds.push(prefix);
    seeds.push(mint.to_vec());
    proof {
        assert(seeds@[0]@ =~= pool_seed_prefix());
        assert(seed_list(seeds@) =~= pool_seeds(mint@));
    }
    try_find_program_address(&seeds, program_id)
}

/// The seed prefix of every claim record address.
pub open spec fn record_seed_prefix() -> Seq<u8> {
    seq![100u8, 105, 118, 105, 100, 101, 110, 100, 95, 114, 101, 99, 111, 114, 100]
}

/// Seeds of `holder`'s claim record on the pool at `pool`: one record per
/// pool and holder.
pub open spec fn record_seeds(pool: Seq<u8>, holder: Seq<u8>) -> Seq<Seq<u8>> {
    seq![record_seed_prefix(), pool, holder]
}

/// Finds the address of `holder`'s claim record on the pool at `pool`.
pub fn find_record_address(pool: &Address, holder: &Address, program_id: &Address) -> (r: Option<
    (Address, u8),
>)
    ensures
        match r {
            Some(found) => found_program_address(record_seeds(pool@, holder@), program_id@) == Some(
                (found.0@, found.1),
            ),
            None => found_program_address(record_seeds(pool@, holder@), program_id@) is None,
        },
{
    // "dividend_record"
    let prefix: Vec<u8> = vec![100u8, 105, 118, 105, 100, 101, 110, 100, 95, 114, 101, 99, 111, 114, 100];
    let p = pool.to_vec();
    let h = holder.to_vec();
    let mut seeds: Vec<Vec<u8>> = Vec::new();
    seeds.push(prefix);
    seeds.push(p);
    seeds.push(h);
    proof {
        assert(seeds@[0]@ =~= record_seed_prefix());
        assert(seed_list(seeds@) =~= record_seeds(pool@, holder@));
    }
    try_find_program_address(&seeds, program_id)
}

} // verus!
