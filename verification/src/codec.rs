//! The canonical binary encoding of an asset record, and its exact inverse.
//!
//! A record `(owner, metadata)` is laid out as the 32 owner bytes, then the
//! metadata length as a 4-byte little-endian integer, then the metadata bytes.
//! Decoding demands that the slot be consumed exactly: a slot longer or
//! shorter than one encoded record holds no valid record.

use vstd::bytes::{spec_u32_from_le_bytes, spec_u32_to_le_bytes, u32_from_le_bytes, u32_to_le_bytes};
use vstd::prelude::*;
use vstd::slice::{slice_subrange, slice_to_vec};

use crate::identity::{Pubkey, KEY_LEN};
use crate::AssetError;

verus! {

/// Number of bytes before the metadata: the owner plus the length field.
pub const HEADER_LEN: usize = 36;

/// Largest metadata length the 4-byte length field can carry.
pub const MAX_METADATA_LEN: u64 = 0xFFFF_FFFF;

/// One asset record: the identity authorized to mutate it, and a text blob
/// that this core does not interpret.
#[derive(Debug)]
pub struct Asset {
    pub owner: Pubkey,
    pub metadata: Vec<u8>,
}

/// The mathematical value of a record: its owner bytes and metadata bytes.
#[verifier::ext_equal]
pub ghost struct AssetView {
    pub owner: Seq<u8>,
    pub metadata: Seq<u8>,
}

impl View for Asset {
    type V = AssetView;

    open spec fn view(&self) -> AssetView {
        AssetView { owner: self.owner@, metadata: self.metadata@ }
    }
}

impl Asset {
    /// A well-formed record carries a full-length owner identity.
    pub open spec fn wf(&self) -> bool {
        self@.wf()
    }
}

impl AssetView {
    pub open spec fn wf(&self) -> bool {
        self.owner.len() == KEY_LEN
    }

    /// Whether the record can be written down at all: the length field is four
    /// bytes, so the metadata may not exceed `MAX_METADATA_LEN` bytes.
    pub open spec fn encodable(&self) -> bool {
        self.metadata.len() <= MAX_METADATA_LEN
    }
}

/// The encoded bytes of a record.
pub open spec fn encoding_of(v: AssetView) -> Seq<u8>
    recommends
        v.wf(),
        v.encodable(),
{
    v.owner + spec_u32_to_le_bytes(v.metadata.len() as u32) + v.metadata
}

/// Whether a byte region holds exactly one validly encoded record.
pub open spec fn valid_encoding(s: Seq<u8>) -> bool {
    &&& s.len() >= HEADER_LEN
    &&& s.len() - HEADER_LEN == spec_u32_from_le_bytes(s.subrange(KEY_LEN as int, HEADER_LEN as int))
}

/// The record a valid byte region holds.
pub open spec fn decoded(s: Seq<u8>) -> AssetView
    recommends
        valid_encoding(s),
{
    AssetView { owner: s.subrange(0, KEY_LEN as int), metadata: s.subrange(HEADER_LEN as int, s.len() as int) }
}

/// An encoded record is valid and decodes back to itself.
pub proof fn lemma_round_trip(v: AssetView)
    requires
        v.wf(),
        v.encodable(),
    ensures
        encoding_of(v).len() == HEADER_LEN + v.metadata.len(),
        valid_encoding(encoding_of(v)),
        decoded(encoding_of(v)) == v,
{
    vstd::bytes::lemma_auto_spec_u32_to_from_le_bytes();
    let s = encoding_of(v);
    assert(s.subrange(KEY_LEN as int, HEADER_LEN as int) =~= spec_u32_to_le_bytes(
        v.metadata.len() as u32,
    ));
    assert(decoded(s).owner =~= v.owner);
    assert(decoded(s).metadata =~= v.metadata);
}

/// Two valid encodings of equal byte regions hold equal records; conversely,
/// the encoding pins the bytes: equal records encode to equal bytes.
pub proof fn lemma_encoding_injective(v1: AssetView, v2: AssetView)
    requires
        v1.wf(),
        v1.encodable(),
        v2.wf(),
        v2.encodable(),
        encoding_of(v1) == encoding_of(v2),
    ensures
        v1 == v2,
{
    lemma_round_trip(v1);
    lemma_round_trip(v2);
}

/// Serializes a record into a fresh, exactly-sized byte vector.
pub fn encode(record: &Asset) -> (r: Result<Vec<u8>, AssetError>)
    requires
        record.wf(),
    ensures
        match r {
            Ok(bytes) => record@.encodable() && bytes@ == encoding_of(record@),
            Err(e) => e == AssetError::EncodeFailed && !record@.encodable(),
        },
{
    if record.metadata.len() as u64 > MAX_METADATA_LEN {
        return Err(AssetError::EncodeFailed);
    }
    let mut out: Vec<u8> = Vec::new();
    out.extend_from_slice(record.owner.bytes.as_slice());
    let mut len_bytes = u32_to_le_bytes(record.metadata.len() as u32);
    out.append(&mut len_bytes);
    out.extend_from_slice(record.metadata.as_slice());
    proof {
        assert(out@ =~= encoding_of(record@));
    }
    Ok(out)
}

/// Parses a byte region back into a record. Fails with `DecodeError` unless
/// the region holds exactly one validly encoded record.
pub fn decode(bytes: &[u8]) -> (r: Result<Asset, AssetError>)
    ensures
        match r {
            Ok(a) => {
                &&& valid_encoding(bytes@)
                &&& a.wf()
                &&& a@ == decoded(bytes@)
            },
            Err(e) => e == AssetError::DecodeError && !valid_encoding(bytes@),
        },
{
    if bytes.len() < HEADER_LEN {
        return Err(AssetError::DecodeError);
    }
    let meta_len = u32_from_le_bytes(slice_subrange(bytes, KEY_LEN, HEADER_LEN));
    if bytes.len() - HEADER_LEN != meta_len as usize {
        return Err(AssetError::DecodeError);
    }
    let owner = Pubkey::new(slice_to_vec(slice_subrange(bytes, 0, KEY_LEN)));
    let metadata = slice_to_vec(slice_subrange(bytes, HEADER_LEN, bytes.len()));
    let asset = Asset { owner, metadata };
    proof {
        assert(asset@ =~= decoded(bytes@));
    }
    Ok(asset)
}

/// What a slot holds after a record is written into it: the encoding at the
/// start, the remainder of the slot untouched.
pub open spec fn written(slot: Seq<u8>, v: AssetView) -> Seq<u8>
    recommends
        v.wf(),
        v.encodable(),
        slot.len() >= HEADER_LEN + v.metadata.len(),
{
    encoding_of(v) + slot.skip(HEADER_LEN + v.metadata.len())
}

/// Whether a record fits into a slot of the given size.
pub open spec fn fits(v: AssetView, slot_len: nat) -> bool {
    v.encodable() && HEADER_LEN + v.metadata.len() <= slot_len
}

/// Computes the new contents of a slot after writing a record into it, without
/// touching the slot: the caller assigns the result. Fails, changing nothing,
/// when the record is larger than the slot, rather than truncating.
pub fn encode_to_slot(slot: &Vec<u8>, owner: &Pubkey, metadata: &Vec<u8>) -> (r: Result<
    Vec<u8>,
    AssetError,
>)
    requires
        owner.wf(),
    ensures
        match r {
            Ok(out) => {
                &&& fits(AssetView { owner: owner@, metadata: metadata@ }, slot@.len())
                &&& out@ == written(slot@, AssetView { owner: owner@, metadata: metadata@ })
                &&& out@.len() == slot@.len()
            },
            Err(e) => {
                &&& e == AssetError::EncodeFailed
                &&& !fits(AssetView { owner: owner@, metadata: metadata@ }, slot@.len())
            },
        },
{
    let ghost v = AssetView { owner: owner@, metadata: metadata@ };
    if metadata.len() as u64 > MAX_METADATA_LEN {
        return Err(AssetError::EncodeFailed);
    }
    if slot.len() < HEADER_LEN || slot.len() - HEADER_LEN < metadata.len() {
        return Err(AssetError::EncodeFailed);
    }
    let mut out: Vec<u8> = Vec::new();
    out.extend_from_slice(owner.bytes.as_slice());
    let mut len_bytes = u32_to_le_bytes(metadata.len() as u32);
    out.append(&mut len_bytes);
    out.extend_from_slice(metadata.as_slice());
    proof {
        assert(out@ =~= encoding_of(v));
    }
    out.extend_from_slice(slice_subrange(slot.as_slice(), HEADER_LEN + metadata.len(), slot.len()));
    proof {
        assert(out@ =~= written(slot@, v));
    }
    Ok(out)
}

} // verus!
