//! The binary record inside a page token: the cursor id, the time of issue
//! and the signature, each in a fixed place.

use vstd::prelude::*;
use crate::codec::le::{le_bytes, le_value, lemma_le_bytes_len, lemma_le_bytes_of_value, lemma_le_value_of_bytes, lemma_radix_values};

verus! {

/// A signed 32-bit id as the unsigned number with the same bits.
pub open spec fn id_bits(id: i32) -> nat {
    if id >= 0 {
        id as nat
    } else {
        (id + 0x1_0000_0000) as nat
    }
}

/// The signed id whose bits spell `bits`, for `bits` below 2^32.
pub open spec fn id_of_bits(bits: nat) -> i32 {
    if bits < 0x8000_0000 {
        bits as i32
    } else {
        (bits - 0x1_0000_0000) as i32
    }
}

/// The message that is signed: the id in 4 bytes, then the time of issue in
/// 16 bytes, both little-endian. Nothing is optional and nothing can move.
pub open spec fn message_bytes(id: i32, ts: u128) -> Seq<u8> {
    le_bytes(id_bits(id), 4) + le_bytes(ts as nat, 16)
}

/// The whole record: the signed message, the signature's length in 4
/// little-endian bytes, then the signature.
pub open spec fn record_bytes(id: i32, ts: u128, sig: Seq<u8>) -> Seq<u8> {
    message_bytes(id, ts) + le_bytes(sig.len(), 4) + sig
}

/// The record that `bytes` holds, if they are one: at least 24 bytes, of
/// which the four at offset 20 count exactly the bytes that follow.
pub open spec fn parsed_record(bytes: Seq<u8>) -> Option<(i32, u128, Seq<u8>)> {
    if bytes.len() >= 24 && le_value(bytes.subrange(20, 24)) == bytes.len() - 24 {
        Some(
            (
                id_of_bits(le_value(bytes.subrange(0, 4))),
                le_value(bytes.subrange(4, 20)) as u128,
                bytes.subrange(24, bytes.len() as int),
            ),
        )
    } else {
        None
    }
}

/// The signed message is always 20 bytes long.
pub proof fn lemma_message_len(id: i32, ts: u128)
    ensures
        message_bytes(id, ts).len() == 20,
{
    lemma_le_bytes_len(id_bits(id), 4);
    lemma_le_bytes_len(ts as nat, 16);
}

/// A record is 24 bytes longer than its signature.
pub proof fn lemma_record_len(id: i32, ts: u128, sig: Seq<u8>)
    ensures
        record_bytes(id, ts, sig).len() == 24 + sig.len(),
{
    lemma_message_len(id, ts);
    lemma_le_bytes_len(sig.len(), 4);
}

/// Parsing the bytes of a record gives the record back.
pub proof fn lemma_parse_of_record(id: i32, ts: u128, sig: Seq<u8>)
    requires
        sig.len() <= u32::MAX,
    ensures
        parsed_record(record_bytes(id, ts, sig)) == Some((id, ts, sig)),
{
    let bytes = record_bytes(id, ts, sig);
    lemma_radix_values();
    lemma_record_len(id, ts, sig);
    lemma_le_bytes_len(id_bits(id), 4);
    lemma_le_bytes_len(ts as nat, 16);
    lemma_le_bytes_len(sig.len(), 4);
    assert(bytes.subrange(0, 4) =~= le_bytes(id_bits(id), 4));
    assert(bytes.subrange(4, 20) =~= le_bytes(ts as nat, 16));
    assert(bytes.subrange(20, 24) =~= le_bytes(sig.len(), 4));
    assert(bytes.subrange(24, bytes.len() as int) =~= sig);
    lemma_le_value_of_bytes(id_bits(id), 4);
    lemma_le_value_of_bytes(ts as nat, 16);
    lemma_le_value_of_bytes(sig.len(), 4);
}

/// Bytes that parse are the bytes of the record they parse to: no two byte
/// strings hold the same record.
pub proof fn lemma_record_of_parse(bytes: Seq<u8>)
    requires
        parsed_record(bytes) is Some,
    ensures
        ({
            let (id, ts, sig) = parsed_record(bytes)->0;
            record_bytes(id, ts, sig) == bytes && sig.len() <= u32::MAX
        }),
{
    let (id, ts, sig) = parsed_record(bytes)->0;
    let head = bytes.subrange(0, 4);
    let stamp = bytes.subrange(4, 20);
    let count = bytes.subrange(20, 24);
    lemma_radix_values();
    lemma_le_bytes_of_value(head);
    lemma_le_bytes_of_value(stamp);
    lemma_le_bytes_of_value(count);
    assert(id_bits(id) == le_value(head));
    assert(ts as nat == le_value(stamp));
    assert(sig.len() == le_value(count));
    assert(record_bytes(id, ts, sig) =~= bytes);
}

/// The message to sign for `(id, ts)`, as `borsh::to_vec` writes the pair:
/// each integer by its `to_le_bytes`, one after the other.
#[verifier::external_body]
pub(crate) fn borsh_message(id: i32, ts: u128) -> (bytes: Vec<u8>)
    ensures
        bytes@ == message_bytes(id, ts),
{
    borsh::to_vec(&(id, ts)).unwrap_or_default()
}

/// The record for `(id, ts, sig)`, as `borsh::to_vec` writes the triple: the
/// two integers as above, then the byte vector behind its length as a `u32`.
/// A signature too long for that length makes the call fail, and nothing is
/// returned.
#[verifier::external_body]
pub(crate) fn borsh_record(id: i32, ts: u128, sig: &Vec<u8>) -> (bytes: Vec<u8>)
    ensures
        sig@.len() <= u32::MAX ==> bytes@ == record_bytes(id, ts, sig@),
        sig@.len() > u32::MAX ==> bytes@.len() == 0,
{
    borsh::to_vec(&(id, ts, sig)).unwrap_or_default()
}

/// Reads a record with `borsh::from_slice`, which takes the two integers,
/// the length and that many bytes, and fails if bytes are missing or left
/// over.
#[verifier::external_body]
pub(crate) fn borsh_parse(bytes: &[u8]) -> (record: Option<(i32, u128, Vec<u8>)>)
    ensures
        match record {
            Some((id, ts, sig)) => parsed_record(bytes@) == Some((id, ts, sig@)),
            None => parsed_record(bytes@) is None,
        },
{
    borsh::from_slice::<(i32, u128, Vec<u8>)>(bytes).ok()
}

} // verus!
