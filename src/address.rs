use vstd::prelude::*;
use anchor_lang::prelude::Pubkey;
use crate::state::Key;

verus! {

/// The ledger entities that are stored at addresses derived from the program
/// and a few seeds, so that they can be found without an index.
#[derive(Clone, Copy, Debug, PartialEq, Eq)]
pub enum EntityKey {
    /// The vault configuration.
    Config,
    /// The vault's holding account for a reserve asset.
    Vault { reserve_mint: Key },
    /// The record of one (owner, position) pair.
    Record { owner: Key, position: Key },
}

/// The tag `config`.
pub open spec fn config_tag() -> Seq<u8> {
    seq![99u8, 111, 110, 102, 105, 103]
}

/// The tag `vault`.
pub open spec fn vault_tag() -> Seq<u8> {
    seq![118u8, 97, 117, 108, 116]
}

/// The tag `token_record`.
pub open spec fn record_tag() -> Seq<u8> {
    seq![116u8, 111, 107, 101, 110, 95, 114, 101, 99, 111, 114, 100]
}

/// The seeds an entity's address is derived from: a tag, then the keys it depends on.
pub open spec fn entity_seeds(e: EntityKey) -> Seq<Seq<u8>> {
    match e {
        EntityKey::Config => seq![config_tag()],
        EntityKey::Vault { reserve_mint } => seq![vault_tag(), reserve_mint.bytes@],
        EntityKey::Record { owner, position } => seq![record_tag(), owner.bytes@, position.bytes@],
    }
}

/// The address and bump seed that `program` derives from `seeds`, where some
/// bump seed gives an address off the curve.
pub uninterp spec fn program_address(seeds: Seq<Seq<u8>>, program: Seq<u8>) -> Option<(Seq<u8>, u8)>;

/// The address and bump seed of an entity of `program`.
pub open spec fn derived(program: Key, e: EntityKey) -> Option<(Seq<u8>, u8)> {
    program_address(entity_seeds(e), program.bytes@)
}

/// Whether `at` is the address derived for the entity.
pub open spec fn address_matches(program: Key, e: EntityKey, at: Key) -> bool {
    derived(program, e) matches Some((a, _)) && a == at.bytes@
}

/// Relies on `Pubkey::try_find_program_address` of anchor-lang's Solana SDK:
/// it returns the first address, trying bump seeds from 255 down, that the
/// seeds and the program id alone determine, and `None` where no bump gives one.
#[verifier::external_body]
fn find_program_address(seeds: &Vec<Vec<u8>>, program: &Key) -> (r: Option<(Key, u8)>)
    ensures
        r is Some <==> program_address(seeds.deep_view(), program.bytes@) is Some,
        r matches Some((k, b)) ==> program_address(seeds.deep_view(), program.bytes@) == Some(
            (k.bytes@, b),
        ),
{
    let refs: Vec<&[u8]> = seeds.iter().map(|s| s.as_slice()).collect();
    Pubkey::try_find_program_address(&refs, &Pubkey::new_from_array(program.bytes)).map(
        |(a, b)| (Key { bytes: a.to_bytes() }, b),
    )
}

fn key_seed(k: &Key) -> (r: Vec<u8>)
    ensures
        r@ == k.bytes@,
{
    let mut v: Vec<u8> = Vec::new();
    let mut i: usize = 0;
    while i < 32
        invariant
            i <= 32,
            k.bytes@.len() == 32,
            v@ == k.bytes@.subrange(0, i as int),
        decreases 32 - i,
    {
        v.push(k.bytes[i]);
        i = i + 1;
        proof {
            assert(v@ =~= k.bytes@.subrange(0, i as int));
        }
    }
    proof {
        assert(v@ =~= k.bytes@);
    }
    v
}

/// The seeds of an entity, as bytes.
pub fn entity_seed_bytes(e: &EntityKey) -> (r: Vec<Vec<u8>>)
    ensures
        r.deep_view() == entity_seeds(*e),
{
    let mut r: Vec<Vec<u8>> = Vec::new();
    match e {
        EntityKey::Config => {
            let tag: Vec<u8> = vec![99u8, 111, 110, 102, 105, 103];
            proof {
                assert(tag.deep_view() =~= config_tag());
            }
            r.push(tag);
        },
        EntityKey::Vault { reserve_mint } => {
            let tag: Vec<u8> = vec![118u8, 97, 117, 108, 116];
            let m = key_seed(reserve_mint);
            proof {
                assert(tag.deep_view() =~= vault_tag());
                assert(m.deep_view() =~= reserve_mint.bytes@);
            }
            r.push(tag);
            r.push(m);
        },
        EntityKey::Record { owner, position } => {
            let tag: Vec<u8> = vec![116u8, 111, 107, 101, 110, 95, 114, 101, 99, 111, 114, 100];
            let o = key_seed(owner);
            let p = key_seed(position);
            proof {
                assert(tag.deep_view() =~= record_tag());
                assert(o.deep_view() =~= owner.bytes@);
                assert(p.deep_view() =~= position.bytes@);
            }
            r.push(tag);
            r.push(o);
            r.push(p);
        },
    }
    proof {
        assert(r.deep_view() =~= entity_seeds(*e));
    }
    r
}

/// The address and bump seed of an entity of `program`, or `None` where no
/// bump seed gives one.
pub fn derive_address(program: &Key, e: &EntityKey) -> (r: Option<(Key, u8)>)
    ensures
        r is Some <==> derived(*program, *e) is Some,
        r matches Some((k, b)) ==> derived(*program, *e) == Some((k.bytes@, b)),
{
    let seeds = entity_seed_bytes(e);
    find_program_address(&seeds, program)
}

/// The bump seed of an entity where `at` is its derived address, else `None`.
pub fn check_address(program: &Key, e: &EntityKey, at: &Key) -> (r: Option<u8>)
    ensures
        r is Some <==> address_matches(*program, *e, *at),
        r matches Some(b) ==> derived(*program, *e) == Some((at.bytes@, b)),
{
    match derive_address(program, e) {
        Some((k, b)) => {
            if k == *at {
                Some(b)
            } else {
                proof {
                    broadcast use vstd::array::axiom_array_ext_equal;

                    if k.bytes@ == at.bytes@ {
                        assert(k.bytes@ =~= at.bytes@);
                        assert(k.bytes == at.bytes);
                    }
                }
                None
            }
        },
        None => None,
    }
}

} // verus!
