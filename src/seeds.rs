use vstd::prelude::*;
use vstd::bytes::{lemma_auto_spec_u64_to_from_le_bytes, spec_u64_to_le_bytes, u64_to_le_bytes};
use crate::key::Key;
use crate::state::PoolState;

verus! {

/// The tag `pool_state` that opens the seeds of a pool.
pub open spec fn pool_tag() -> Seq<u8> {
    seq![112u8, 111, 111, 108, 95, 115, 116, 97, 116, 101]
}

/// The tag `stake` that opens the seeds of a stake.
pub open spec fn stake_tag() -> Seq<u8> {
    seq![115u8, 116, 97, 107, 101]
}

/// The seeds that locate a stake opened by `user` while the pool held `total`.
pub open spec fn stake_seed_parts(user: Key, total: u64) -> Seq<Seq<u8>> {
    seq![stake_tag(), user@, spec_u64_to_le_bytes(total)]
}

/// The views of a list of seeds.
pub open spec fn seed_views(v: Seq<Vec<u8>>) -> Seq<Seq<u8>> {
    v.map_values(|b: Vec<u8>| b@)
}

fn key_bytes(k: &Key) -> (r: Vec<u8>)
    ensures
        r@ == k@,
{
    let mut v: Vec<u8> = Vec::new();
    let mut i: usize = 0;
    while i < 32
        invariant
            0 <= i <= 32,
            k@.len() == 32,
            v@ == k@.subrange(0, i as int),
        decreases 32 - i,
    {
        v.push(k.bytes[i]);
        i = i + 1;
        assert(v@ =~= k@.subrange(0, i as int));
    }
    assert(v@ =~= k@);
    v
}

/// The seeds under which the record of the pool of `token_mint` is kept.
pub fn pool_seeds(token_mint: &Key) -> (r: Vec<Vec<u8>>)
    ensures
        seed_views(r@) == seq![pool_tag(), token_mint@],
{
    let tag: Vec<u8> = vec![112u8, 111, 111, 108, 95, 115, 116, 97, 116, 101];
    let r = vec![tag, key_bytes(token_mint)];
    assert(seed_views(r@) =~= seq![pool_tag(), token_mint@]);
    r
}

/// The seeds, bump included, with which the pool signs for its custody account.
pub fn pool_signer_seeds(pool: &PoolState) -> (r: Vec<Vec<u8>>)
    ensures
        seed_views(r@) == seq![pool_tag(), pool.token_mint@, seq![pool.bump]],
{
    let tag: Vec<u8> = vec![112u8, 111, 111, 108, 95, 115, 116, 97, 116, 101];
    let bump: Vec<u8> = vec![pool.bump];
    assert(bump@ =~= seq![pool.bump]);
    let r = vec![tag, key_bytes(&pool.token_mint), bump];
    assert(seed_views(r@) =~= seq![pool_tag(), pool.token_mint@, seq![pool.bump]]);
    r
}

/// The seeds under which a stake that `user` opens now is kept: the user and
/// the pool's current total, as eight little-endian bytes.
pub fn stake_seeds(user: &Key, pool: &PoolState) -> (r: Vec<Vec<u8>>)
    ensures
        seed_views(r@) == stake_seed_parts(*user, pool.total_staked),
{
    let tag: Vec<u8> = vec![115u8, 116, 97, 107, 101];
    let r = vec![tag, key_bytes(user), u64_to_le_bytes(pool.total_staked)];
    assert(seed_views(r@) =~= stake_seed_parts(*user, pool.total_staked));
    r
}

/// Two stakes get the same seeds exactly when one user opens both while the
/// pool holds the same total: a user's second stake collides with the first
/// unless the total has changed in between.
pub proof fn lemma_stake_seeds_collide(u1: Key, t1: u64, u2: Key, t2: u64)
    ensures
        stake_seed_parts(u1, t1) == stake_seed_parts(u2, t2) <==> (u1@ == u2@ && t1 == t2),
{
    lemma_auto_spec_u64_to_from_le_bytes();
    if stake_seed_parts(u1, t1) == stake_seed_parts(u2, t2) {
        assert(stake_seed_parts(u1, t1)[1] == stake_seed_parts(u2, t2)[1]);
        assert(stake_seed_parts(u1, t1)[2] == stake_seed_parts(u2, t2)[2]);
    }
    if u1@ == u2@ && t1 == t2 {
        assert(stake_seed_parts(u1, t1) =~= stake_seed_parts(u2, t2));
    }
}

} // verus!
