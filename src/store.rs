use crate::instruction::{le_field, le_value, lemma_pow256_mono, pow256, read_le};
use crate::key::Key;
use crate::state::{Network, NetworkState, Pool, LPT, MAX_MINTS};
use vstd::prelude::*;

verus! {

/// Bytes of a stored pool record.
pub const POOL_LEN: usize = 161;

/// Bytes of a stored share-account record.
pub const LPT_LEN: usize = 81;

/// Bytes of a stored network record.
pub const NETWORK_LEN: usize = 1 + 32 * MAX_MINTS;

/// The `n`-byte little-endian encoding of `v`.
pub open spec fn le_bytes(v: nat, n: nat) -> Seq<u8>
    decreases n,
{
    if n == 0 {
        seq![]
    } else {
        seq![(v % 256) as u8] + le_bytes(v / 256, (n - 1) as nat)
    }
}

/// A flag stored as one byte.
pub open spec fn flag_byte(b: bool) -> u8 {
    if b {
        1
    } else {
        0
    }
}

/// Stored form of a pool: its four keys, then reserve, shares and fee
/// little-endian, then the initialized flag.
pub open spec fn pool_layout(p: Pool) -> Seq<u8> {
    p.owner@ + p.network@ + p.mint@ + p.treasury@ + le_bytes(p.reserve as nat, 8) + le_bytes(
        p.lpt as nat,
        16,
    ) + le_bytes(p.fee as nat, 8) + seq![flag_byte(p.is_initialized)]
}

/// Whether `p` is what the stored bytes `data` hold.
pub open spec fn pool_decodes(data: Seq<u8>, p: Pool) -> bool {
    &&& p.owner@ == data.subrange(0, 32)
    &&& p.network@ == data.subrange(32, 64)
    &&& p.mint@ == data.subrange(64, 96)
    &&& p.treasury@ == data.subrange(96, 128)
    &&& p.reserve == le_field(data, 128, 8)
    &&& p.lpt == le_field(data, 136, 16)
    &&& p.fee == le_field(data, 152, 8)
    &&& p.is_initialized == (data[160] != 0)
}

/// Stored form of a share account: owner, pool, shares little-endian, flag.
pub open spec fn lpt_layout(a: LPT) -> Seq<u8> {
    a.owner@ + a.pool@ + le_bytes(a.lpt as nat, 16) + seq![flag_byte(a.is_initialized)]
}

/// Whether `a` is what the stored bytes `data` hold.
pub open spec fn lpt_decodes(data: Seq<u8>, a: LPT) -> bool {
    &&& a.owner@ == data.subrange(0, 32)
    &&& a.pool@ == data.subrange(32, 64)
    &&& a.lpt == le_field(data, 64, 16)
    &&& a.is_initialized == (data[80] != 0)
}

/// The byte that stores a network state.
pub open spec fn state_byte(s: NetworkState) -> u8 {
    match s {
        NetworkState::Uninitialized => 0,
        NetworkState::Initialized => 1,
        NetworkState::Activated => 2,
    }
}

/// The asset identifiers of `mints`, one after the other.
pub open spec fn keys_layout(mints: Seq<Key>) -> Seq<u8>
    decreases mints.len(),
{
    if mints.len() == 0 {
        seq![]
    } else {
        keys_layout(mints.drop_last()) + mints.last()@
    }
}

/// Stored form of a network: its state byte, then its asset slots.
pub open spec fn network_layout(n: Network) -> Seq<u8> {
    seq![state_byte(n.state)] + keys_layout(n.mints@)
}

/// Whether `n` is what the stored bytes `data` hold.
pub open spec fn network_decodes(data: Seq<u8>, n: Network) -> bool {
    &&& state_byte(n.state) == data[0]
    &&& n.mints@.len() == MAX_MINTS
    &&& forall|i: int|
        0 <= i < MAX_MINTS ==> (#[trigger] n.mints@[i])@ == data.subrange(1 + 32 * i, 33 + 32 * i)
}

proof fn lemma_le_bytes(v: nat, n: nat)
    requires
        v < pow256(n),
    ensures
        le_bytes(v, n).len() == n,
        le_value(le_bytes(v, n)) == v,
    decreases n,
{
    if n > 0 {
        assert(v / 256 < pow256((n - 1) as nat));
        lemma_le_bytes(v / 256, (n - 1) as nat);
        assert(le_bytes(v, n).drop_first() =~= le_bytes(v / 256, (n - 1) as nat));
    }
}

/// Appends the `n`-byte little-endian encoding of `v`.
fn push_le(out: &mut Vec<u8>, v: u128, n: usize)
    requires
        n <= 16,
        v < pow256(n as nat),
    ensures
        final(out)@ == old(out)@ + le_bytes(v as nat, n as nat),
{
    let mut x: u128 = v;
    let mut k: usize = 0;
    while k < n
        invariant
            k <= n <= 16,
            out@ + le_bytes(x as nat, (n - k) as nat) == old(out)@ + le_bytes(v as nat, n as nat),
        decreases n - k,
    {
        let ghost before = out@;
        let ghost rest = le_bytes(x as nat, (n - k) as nat);
        assert(rest =~= seq![(x % 256) as u8] + le_bytes((x / 256) as nat, (n - k - 1) as nat));
        out.push((x % 256) as u8);
        x = x / 256;
        k = k + 1;
        assert(out@ + le_bytes(x as nat, (n - k) as nat) =~= before + rest);
    }
    assert(out@ =~= old(out)@ + le_bytes(v as nat, n as nat));
}

/// Appends the bytes of `k`.
fn push_key(out: &mut Vec<u8>, k: &Key)
    ensures
        final(out)@ == old(out)@ + k@,
{
    let mut i: usize = 0;
    while i < 32
        invariant
            i <= 32,
            k@.len() == 32,
            out@ == old(out)@ + k@.subrange(0, i as int),
        decreases 32 - i,
    {
        out.push(k.bytes[i]);
        i = i + 1;
        assert(out@ =~= old(out)@ + k@.subrange(0, i as int));
    }
    assert(k@.subrange(0, 32) =~= k@);
}

/// The key stored at `data[at..at + 32]`.
fn read_key(data: &[u8], at: usize) -> (r: Key)
    requires
        at + 32 <= data@.len(),
    ensures
        r@ == data@.subrange(at as int, at + 32),
{
    let len = data.len();
    let mut bytes = [0u8; 32];
    let mut i: usize = 0;
    while i < 32
        invariant
            i <= 32,
            at + 32 <= data@.len(),
            len == data@.len(),
            forall|j: int| 0 <= j < i ==> bytes@[j] == data@[at + j],
        decreases 32 - i,
    {
        bytes[i] = data[at + i];
        i = i + 1;
    }
    let r = Key::new(bytes);
    assert(r@ =~= data@.subrange(at as int, at + 32));
    r
}

fn flag(b: bool) -> (r: u8)
    ensures
        r == flag_byte(b),
{
    if b {
        1
    } else {
        0
    }
}

/// The stored form of a pool record.
pub fn pool_bytes(p: &Pool) -> (r: Vec<u8>)
    ensures
        r@ == pool_layout(*p),
{
    proof {
        reveal_with_fuel(pow256, 17);
    }
    let mut out: Vec<u8> = Vec::new();
    push_key(&mut out, &p.owner);
    push_key(&mut out, &p.network);
    push_key(&mut out, &p.mint);
    push_key(&mut out, &p.treasury);
    push_le(&mut out, p.reserve as u128, 8);
    push_le(&mut out, p.lpt, 16);
    push_le(&mut out, p.fee as u128, 8);
    out.push(flag(p.is_initialized));
    out
}

/// Decodes a stored pool record; `None` where the storage is too short.
pub fn read_pool(data: &[u8]) -> (r: Option<Pool>)
    ensures
        r is Some <==> data@.len() >= POOL_LEN,
        r matches Some(p) ==> pool_decodes(data@, p),
{
    if data.len() < POOL_LEN {
        return None;
    }
    proof {
        reveal_with_fuel(pow256, 17);
    }
    let reserve = read_le(data, 128, 8) as u64;
    let lpt = read_le(data, 136, 16);
    let fee = read_le(data, 152, 8) as u64;
    Some(
        Pool {
            owner: read_key(data, 0),
            network: read_key(data, 32),
            mint: read_key(data, 64),
            treasury: read_key(data, 96),
            reserve,
            lpt,
            fee,
            is_initialized: data[160] != 0,
        },
    )
}

/// The stored form of a share-account record.
pub fn lpt_bytes(a: &LPT) -> (r: Vec<u8>)
    ensures
        r@ == lpt_layout(*a),
{
    proof {
        reveal_with_fuel(pow256, 17);
    }
    let mut out: Vec<u8> = Vec::new();
    push_key(&mut out, &a.owner);
    push_key(&mut out, &a.pool);
    push_le(&mut out, a.lpt, 16);
    out.push(flag(a.is_initialized));
    out
}

/// Decodes a stored share-account record; `None` where the storage is too short.
pub fn read_lpt(data: &[u8]) -> (r: Option<LPT>)
    ensures
        r is Some <==> data@.len() >= LPT_LEN,
        r matches Some(a) ==> lpt_decodes(data@, a),
{
    if data.len() < LPT_LEN {
        return None;
    }
    let lpt = read_le(data, 64, 16);
    Some(
        LPT {
            owner: read_key(data, 0),
            pool: read_key(data, 32),
            lpt,
            is_initialized: data[80] != 0,
        },
    )
}

fn state_to_byte(state: NetworkState) -> (r: u8)
    ensures
        r == state_byte(state),
{
    match state {
        NetworkState::Uninitialized => 0,
        NetworkState::Initialized => 1,
        NetworkState::Activated => 2,
    }
}

/// The stored form of a network record.
pub fn network_bytes(n: &Network) -> (r: Vec<u8>)
    ensures
        r@ == network_layout(*n),
{
    let mut out: Vec<u8> = Vec::new();
    out.push(state_to_byte(n.state));
    let mut i: usize = 0;
    while i < n.mints.len()
        invariant
            i <= n.mints@.len(),
            out@ == seq![state_byte(n.state)] + keys_layout(n.mints@.subrange(0, i as int)),
        decreases n.mints@.len() - i,
    {
        let ghost before = out@;
        push_key(&mut out, &n.mints[i]);
        i = i + 1;
        proof {
            let s = n.mints@.subrange(0, i as int);
            assert(s.drop_last() =~= n.mints@.subrange(0, i - 1));
            assert(out@ =~= seq![state_byte(n.state)] + keys_layout(s));
        }
    }
    assert(n.mints@.subrange(0, n.mints@.len() as int) =~= n.mints@);
    out
}

/// Decodes a stored network record; `None` where the storage is too short
/// or the state byte is unknown.
pub fn read_network(data: &[u8]) -> (r: Option<Network>)
    ensures
        r is Some <==> data@.len() >= NETWORK_LEN && data@[0] <= 2,
        r matches Some(n) ==> network_decodes(data@, n),
{
    if data.len() < NETWORK_LEN {
        return None;
    }
    let state = if data[0] == 0 {
        NetworkState::Uninitialized
    } else if data[0] == 1 {
        NetworkState::Initialized
    } else if data[0] == 2 {
        NetworkState::Activated
    } else {
        return None;
    };
    let mut mints: Vec<Key> = Vec::new();
    let mut i: usize = 0;
    while i < MAX_MINTS
        invariant
            i <= MAX_MINTS,
            data@.len() >= NETWORK_LEN,
            mints@.len() == i,
            forall|j: int|
                0 <= j < i ==> (#[trigger] mints@[j])@ == data@.subrange(1 + 32 * j, 33 + 32 * j),
        decreases MAX_MINTS - i,
    {
        mints.push(read_key(data, 1 + 32 * i));
        i = i + 1;
    }
    Some(Network { state, mints })
}

proof fn lemma_keys_layout(mints: Seq<Key>, i: int)
    requires
        0 <= i < mints.len(),
    ensures
        keys_layout(mints).len() == 32 * mints.len(),
        keys_layout(mints).subrange(32 * i, 32 * i + 32) == mints[i]@,
    decreases mints.len(),
{
    lemma_keys_len(mints);
    let init = mints.drop_last();
    lemma_keys_len(init);
    if i < mints.len() - 1 {
        lemma_keys_layout(init, i);
        assert(keys_layout(mints).subrange(32 * i, 32 * i + 32) =~= keys_layout(init).subrange(
            32 * i,
            32 * i + 32,
        ));
    } else {
        assert(keys_layout(mints).subrange(32 * i, 32 * i + 32) =~= mints.last()@);
    }
}

proof fn lemma_keys_len(mints: Seq<Key>)
    ensures
        keys_layout(mints).len() == 32 * mints.len(),
    decreases mints.len(),
{
    if mints.len() > 0 {
        lemma_keys_len(mints.drop_last());
    }
}

/// Decoding the stored form of a pool gives the pool back.
pub proof fn pool_round_trip(p: Pool)
    ensures
        pool_layout(p).len() == POOL_LEN,
        pool_decodes(pool_layout(p), p),
{
    reveal_with_fuel(pow256, 17);
    lemma_le_bytes(p.reserve as nat, 8);
    lemma_le_bytes(p.lpt as nat, 16);
    lemma_le_bytes(p.fee as nat, 8);
    let d = pool_layout(p);
    assert(d.subrange(0, 32) =~= p.owner@);
    assert(d.subrange(32, 64) =~= p.network@);
    assert(d.subrange(64, 96) =~= p.mint@);
    assert(d.subrange(96, 128) =~= p.treasury@);
    assert(d.subrange(128, 136) =~= le_bytes(p.reserve as nat, 8));
    assert(d.subrange(136, 152) =~= le_bytes(p.lpt as nat, 16));
    assert(d.subrange(152, 160) =~= le_bytes(p.fee as nat, 8));
}

/// Decoding the stored form of a share account gives the account back.
pub proof fn lpt_round_trip(a: LPT)
    ensures
        lpt_layout(a).len() == LPT_LEN,
        lpt_decodes(lpt_layout(a), a),
{
    reveal_with_fuel(pow256, 17);
    lemma_le_bytes(a.lpt as nat, 16);
    let d = lpt_layout(a);
    assert(d.subrange(0, 32) =~= a.owner@);
    assert(d.subrange(32, 64) =~= a.pool@);
    assert(d.subrange(64, 80) =~= le_bytes(a.lpt as nat, 16));
}

/// Decoding the stored form of a network with all its slots gives the
/// network back.
pub proof fn network_round_trip(n: Network)
    requires
        n.mints@.len() == MAX_MINTS,
    ensures
        network_layout(n).len() == NETWORK_LEN,
        network_decodes(network_layout(n), n),
{
    let d = network_layout(n);
    let k = keys_layout(n.mints@);
    lemma_keys_len(n.mints@);
    assert forall|i: int| 0 <= i < MAX_MINTS implies (#[trigger] n.mints@[i])@ == d.subrange(
        1 + 32 * i,
        33 + 32 * i,
    ) by {
        lemma_keys_layout(n.mints@, i);
        assert(d.subrange(1 + 32 * i, 33 + 32 * i) =~= k.subrange(32 * i, 32 * i + 32));
    }
}

} // verus!
