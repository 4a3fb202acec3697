use vstd::prelude::*;

use crate::keys::Key;
use crate::keys::key_bytes;
use crate::keys::push_key;
use crate::keys::push_u64_le;
use crate::keys::read_key;
use crate::keys::read_u64_le;
use crate::keys::u64_le_bytes;

verus! {

/// The persistent state of one trade.
#[derive(Clone, Copy, Debug, PartialEq, Eq, Structural)]
pub struct EscrowAccount {
    /// True once the escrow has been opened; guards against a second
    /// opening of the same record.
    pub initialized: bool,
    /// The seller who opened the escrow; the only identity allowed to
    /// cancel it.
    pub seller_identity: Key,
    /// The vault holding the asset; set at opening, immutable after.
    pub asset_holder_reference: Key,
    /// How many units are in escrow; always 1 once opened.
    pub quantity: u8,
    /// The marketplace fee rate, in parts per thousand.
    pub fee_rate: u8,
    /// The asking price, in the smallest payment unit; positive once
    /// opened.
    pub price: u64,
}

/// The storage slot that holds one escrow record: it starts out zeroed,
/// holds the record while the trade is pending, and is terminally
/// reclaimed when the trade settles or is cancelled.
#[derive(Clone, Copy, Debug, PartialEq, Eq, Structural)]
pub enum RecordState {
    /// The slot still exists and holds `0` — a record, possibly the
    /// zeroed one that precedes opening.
    Stored(EscrowAccount),
    /// The slot's storage has been reclaimed; it can never be reused.
    Decommissioned,
}

impl RecordState {
    /// True while the slot holds an opened, still-pending record.
    pub open spec fn is_open(self) -> bool {
        self matches RecordState::Stored(r) && r.initialized
    }

    /// The record held by a stored slot.
    pub open spec fn record(self) -> EscrowAccount
        recommends
            self is Stored,
    {
        self->Stored_0
    }
}

/// The fixed-width persisted layout of a record: an initialized flag,
/// the seller's identity, the vault reference, the quantity, the fee
/// rate, and the price, 75 bytes in all.
pub open spec fn record_bytes(r: EscrowAccount) -> Seq<u8> {
    seq![if r.initialized { 1u8 } else { 0u8 }] + key_bytes(r.seller_identity) + key_bytes(
        r.asset_holder_reference,
    ) + seq![r.quantity] + seq![r.fee_rate] + u64_le_bytes(r.price)
}

/// The number of bytes of a persisted record.
pub const RECORD_BYTES_LEN: usize = 75;

/// Writes a record in its persisted layout.
pub fn encode_record(r: &EscrowAccount) -> (out: Vec<u8>)
    ensures
        out@ == record_bytes(*r),
        out@.len() == RECORD_BYTES_LEN,
{
    let mut out: Vec<u8> = Vec::new();
    out.push(if r.initialized { 1u8 } else { 0u8 });
    push_key(&mut out, &r.seller_identity);
    push_key(&mut out, &r.asset_holder_reference);
    out.push(r.quantity);
    out.push(r.fee_rate);
    push_u64_le(&mut out, r.price);
    assert(out@ =~= record_bytes(*r));
    out
}

/// Reads back a persisted record.  Succeeds exactly on inputs of the
/// right length whose first byte is a valid flag, and then returns the
/// one record with that layout.
pub fn decode_record(b: &[u8]) -> (r: Option<EscrowAccount>)
    ensures
        r is Some <==> b@.len() == RECORD_BYTES_LEN && (b@[0] == 0 || b@[0] == 1),
        r matches Some(rec) ==> record_bytes(rec) == b@ && (forall|other: EscrowAccount|
            record_bytes(other) == b@ ==> other == rec),
{
    if b.len() != RECORD_BYTES_LEN {
        return None;
    }
    let flag = b[0];
    if flag != 0 && flag != 1 {
        return None;
    }
    let rec = EscrowAccount {
        initialized: flag == 1,
        seller_identity: read_key(b, 1),
        asset_holder_reference: read_key(b, 33),
        quantity: b[65],
        fee_rate: b[66],
        price: read_u64_le(b, 67),
    };
    assert(record_bytes(rec) =~= b@);
    proof {
        assert forall|other: EscrowAccount| record_bytes(other) == b@ implies other == rec by {
            lemma_record_bytes_injective(other, rec);
        }
    }
    Some(rec)
}

/// The persisted layout determines the record: two records with the same
/// bytes are the same record.
pub proof fn lemma_record_bytes_injective(a: EscrowAccount, b: EscrowAccount)
    requires
        record_bytes(a) == record_bytes(b),
    ensures
        a == b,
{
    assert(record_bytes(a)[0] == (if a.initialized { 1u8 } else { 0u8 }));
    assert(record_bytes(b)[0] == (if b.initialized { 1u8 } else { 0u8 }));
    assert(a.initialized == b.initialized);
    assert(key_bytes(a.seller_identity) =~= record_bytes(a).subrange(1, 33));
    assert(key_bytes(b.seller_identity) =~= record_bytes(b).subrange(1, 33));
    lemma_key_bytes_injective(a.seller_identity, b.seller_identity);
    assert(key_bytes(a.asset_holder_reference) =~= record_bytes(a).subrange(33, 65));
    assert(key_bytes(b.asset_holder_reference) =~= record_bytes(b).subrange(33, 65));
    lemma_key_bytes_injective(a.asset_holder_reference, b.asset_holder_reference);
    assert(record_bytes(a)[65] == a.quantity && record_bytes(b)[65] == b.quantity);
    assert(record_bytes(a)[66] == a.fee_rate && record_bytes(b)[66] == b.fee_rate);
    assert(u64_le_bytes(a.price) =~= record_bytes(a).subrange(67, 75));
    assert(u64_le_bytes(b.price) =~= record_bytes(b).subrange(67, 75));
    lemma_u64_le_bytes_injective(a.price, b.price);
}

/// Two keys with the same 32 bytes are the same key.
pub proof fn lemma_key_bytes_injective(a: Key, b: Key)
    requires
        key_bytes(a) == key_bytes(b),
    ensures
        a == b,
{
    assert(u64_le_bytes(a.w0) =~= key_bytes(a).subrange(0, 8));
    assert(u64_le_bytes(b.w0) =~= key_bytes(b).subrange(0, 8));
    lemma_u64_le_bytes_injective(a.w0, b.w0);
    assert(u64_le_bytes(a.w1) =~= key_bytes(a).subrange(8, 16));
    assert(u64_le_bytes(b.w1) =~= key_bytes(b).subrange(8, 16));
    lemma_u64_le_bytes_injective(a.w1, b.w1);
    assert(u64_le_bytes(a.w2) =~= key_bytes(a).subrange(16, 24));
    assert(u64_le_bytes(b.w2) =~= key_bytes(b).subrange(16, 24));
    lemma_u64_le_bytes_injective(a.w2, b.w2);
    assert(u64_le_bytes(a.w3) =~= key_bytes(a).subrange(24, 32));
    assert(u64_le_bytes(b.w3) =~= key_bytes(b).subrange(24, 32));
    lemma_u64_le_bytes_injective(a.w3, b.w3);
}

/// Two 64-bit values with the same eight little-endian bytes are equal.
proof fn lemma_u64_le_bytes_injective(x: u64, y: u64)
    requires
        u64_le_bytes(x) == u64_le_bytes(y),
    ensures
        x == y,
{
    assert(u64_le_bytes(x)[0] == u64_le_bytes(y)[0]);
    assert(u64_le_bytes(x)[1] == u64_le_bytes(y)[1]);
    assert(u64_le_bytes(x)[2] == u64_le_bytes(y)[2]);
    assert(u64_le_bytes(x)[3] == u64_le_bytes(y)[3]);
    assert(u64_le_bytes(x)[4] == u64_le_bytes(y)[4]);
    assert(u64_le_bytes(x)[5] == u64_le_bytes(y)[5]);
    assert(u64_le_bytes(x)[6] == u64_le_bytes(y)[6]);
    assert(u64_le_bytes(x)[7] == u64_le_bytes(y)[7]);
    assert(x == y) by (bit_vector)
        requires
            (x & 0xff) as u8 == (y & 0xff) as u8,
            ((x >> 8) & 0xff) as u8 == ((y >> 8) & 0xff) as u8,
            ((x >> 16) & 0xff) as u8 == ((y >> 16) & 0xff) as u8,
            ((x >> 24) & 0xff) as u8 == ((y >> 24) & 0xff) as u8,
            ((x >> 32) & 0xff) as u8 == ((y >> 32) & 0xff) as u8,
            ((x >> 40) & 0xff) as u8 == ((y >> 40) & 0xff) as u8,
            ((x >> 48) & 0xff) as u8 == ((y >> 48) & 0xff) as u8,
            ((x >> 56) & 0xff) as u8 == ((y >> 56) & 0xff) as u8,
    ;
}

} // verus!
