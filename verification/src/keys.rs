use vstd::prelude::*;

use anchor_lang::solana_program::pubkey::Pubkey;

verus! {

/// A 32-byte account identity, stored as four 64-bit words; the words,
/// and the bytes within each word, are in little-endian order.
#[derive(Clone, Copy, Debug, PartialEq, Eq, Structural)]
pub struct Key {
    pub w0: u64,
    pub w1: u64,
    pub w2: u64,
    pub w3: u64,
}

/// The eight bytes of a 64-bit value, least significant first.
pub open spec fn u64_le_bytes(x: u64) -> Seq<u8> {
    seq![
        (x & 0xff) as u8,
        ((x >> 8) & 0xff) as u8,
        ((x >> 16) & 0xff) as u8,
        ((x >> 24) & 0xff) as u8,
        ((x >> 32) & 0xff) as u8,
        ((x >> 40) & 0xff) as u8,
        ((x >> 48) & 0xff) as u8,
        ((x >> 56) & 0xff) as u8,
    ]
}

/// The 32 bytes of a key: its words in order, each little-endian.
pub open spec fn key_bytes(k: Key) -> Seq<u8> {
    u64_le_bytes(k.w0) + u64_le_bytes(k.w1) + u64_le_bytes(k.w2) + u64_le_bytes(k.w3)
}

/// Reassembling a 64-bit value from its eight little-endian bytes gives
/// back exactly those bytes when split again.
proof fn lemma_u64_le_assemble(x: u64, b0: u8, b1: u8, b2: u8, b3: u8, b4: u8, b5: u8, b6: u8, b7: u8)
    by (bit_vector)
    requires
        x == (b0 as u64) | ((b1 as u64) << 8) | ((b2 as u64) << 16) | ((b3 as u64) << 24) | ((
        b4 as u64) << 32) | ((b5 as u64) << 40) | ((b6 as u64) << 48) | ((b7 as u64) << 56),
    ensures
        (x & 0xff) as u8 == b0,
        ((x >> 8) & 0xff) as u8 == b1,
        ((x >> 16) & 0xff) as u8 == b2,
        ((x >> 24) & 0xff) as u8 == b3,
        ((x >> 32) & 0xff) as u8 == b4,
        ((x >> 40) & 0xff) as u8 == b5,
        ((x >> 48) & 0xff) as u8 == b6,
        ((x >> 56) & 0xff) as u8 == b7,
{
}

/// Each byte extracted from a 64-bit value fits in eight bits.
proof fn lemma_u64_le_bytes_fit(x: u64)
    by (bit_vector)
    ensures
        x & 0xff < 256,
        (x >> 8) & 0xff < 256,
        (x >> 16) & 0xff < 256,
        (x >> 24) & 0xff < 256,
        (x >> 32) & 0xff < 256,
        (x >> 40) & 0xff < 256,
        (x >> 48) & 0xff < 256,
        (x >> 56) & 0xff < 256,
{
}

/// Appends the eight little-endian bytes of `x` to `out`.
pub fn push_u64_le(out: &mut Vec<u8>, x: u64)
    ensures
        final(out)@ == old(out)@ + u64_le_bytes(x),
{
    proof {
        lemma_u64_le_bytes_fit(x);
    }
    out.push((x & 0xff) as u8);
    out.push(((x >> 8) & 0xff) as u8);
    out.push(((x >> 16) & 0xff) as u8);
    out.push(((x >> 24) & 0xff) as u8);
    out.push(((x >> 32) & 0xff) as u8);
    out.push(((x >> 40) & 0xff) as u8);
    out.push(((x >> 48) & 0xff) as u8);
    out.push(((x >> 56) & 0xff) as u8);
    assert(out@ =~= old(out)@ + u64_le_bytes(x));
}

/// Reads the 64-bit value whose eight little-endian bytes sit at `off`.
pub fn read_u64_le(b: &[u8], off: usize) -> (r: u64)
    requires
        off + 8 <= b@.len(),
    ensures
        u64_le_bytes(r) == b@.subrange(off as int, off as int + 8),
{
    let x: u64 = (b[off] as u64) | ((b[off + 1] as u64) << 8) | ((b[off + 2] as u64) << 16) | ((b[off
        + 3] as u64) << 24) | ((b[off + 4] as u64) << 32) | ((b[off + 5] as u64) << 40) | ((b[off
        + 6] as u64) << 48) | ((b[off + 7] as u64) << 56);
    proof {
        lemma_u64_le_assemble(
            x,
            b@[off as int],
            b@[off + 1],
            b@[off + 2],
            b@[off + 3],
            b@[off + 4],
            b@[off + 5],
            b@[off + 6],
            b@[off + 7],
        );
        assert(u64_le_bytes(x) =~= b@.subrange(off as int, off as int + 8));
    }
    x
}

/// Appends the 32 bytes of a key to `out`.
pub fn push_key(out: &mut Vec<u8>, k: &Key)
    ensures
        final(out)@ == old(out)@ + key_bytes(*k),
{
    push_u64_le(out, k.w0);
    push_u64_le(out, k.w1);
    push_u64_le(out, k.w2);
    push_u64_le(out, k.w3);
    assert(out@ =~= old(out)@ + key_bytes(*k));
}

/// The 32 bytes of a key.
pub fn key_to_bytes(k: &Key) -> (r: Vec<u8>)
    ensures
        r@ == key_bytes(*k),
        r@.len() == 32,
{
    let mut out: Vec<u8> = Vec::new();
    push_key(&mut out, k);
    assert(key_bytes(*k).len() == 32);
    out
}

/// Reads the key whose 32 bytes sit at `off`.
pub fn read_key(b: &[u8], off: usize) -> (r: Key)
    requires
        off + 32 <= b@.len(),
    ensures
        key_bytes(r) == b@.subrange(off as int, off as int + 32),
{
    let len: usize = b.len();
    assert(off + 32 <= len);
    let w0 = read_u64_le(b, off);
    let w1 = read_u64_le(b, off + 8);
    let w2 = read_u64_le(b, off + 16);
    let w3 = read_u64_le(b, off + 24);
    let k = Key { w0, w1, w2, w3 };
    assert(key_bytes(k) =~= b@.subrange(off as int, off as int + 32));
    k
}

/// The capability identity the custodian can prove for a given seller,
/// when one exists.  It is a function of fixed seed material, the
/// seller's identity and the custodian's identity alone: the custodian
/// holds no secret, it rederives this credential on demand.
pub uninterp spec fn capability_of(custodian: Key, seller: Key) -> Option<Key>;

/// Relies on `Pubkey::try_find_program_address`: the derived address —
/// and whether any exists — depends only on the seed material (a fixed
/// tag plus the seller's identity) and the program identity given.
#[verifier::external_body]
pub(crate) fn derive_capability(custodian: &Key, seller: &Key) -> (r: Option<Key>)
    ensures
        r == capability_of(*custodian, *seller),
{
    let program_id = Pubkey::new_from_array(key_to_bytes(custodian).try_into().unwrap());
    let seller_id = Pubkey::new_from_array(key_to_bytes(seller).try_into().unwrap());
    match Pubkey::try_find_program_address(&[b"genezys-escrow", seller_id.as_ref()], &program_id) {
        Some((address, _bump)) => Some(read_key(&address.to_bytes()[..], 0)),
        None => None,
    }
}

} // verus!
