//! The registry's laws: what each transition guarantees, proved once and for
//! all over the specification-level transitions that the executable
//! operations are verified against.

use vstd::prelude::*;

use crate::codec::{
    decoded, encoding_of, fits, lemma_round_trip, valid_encoding, written, AssetView, HEADER_LEN,
};
use crate::engine::{
    spec_create, spec_sell, spec_transfer_ownership, spec_update_metadata, wf_views, AccountView,
};
use crate::identity::KEY_LEN;
use crate::instruction::{SELECTOR_SELL, SELECTOR_TRANSFER_OWNERSHIP, SELL_PAYLOAD_LEN};
use crate::spec_dispatch;
use crate::AssetError;

verus! {

/// A record written into an exactly-sized slot reads back unchanged.
proof fn lemma_written_exact(slot: Seq<u8>, v: AssetView)
    requires
        v.wf(),
        v.encodable(),
        slot.len() == HEADER_LEN + v.metadata.len(),
    ensures
        valid_encoding(written(slot, v)),
        decoded(written(slot, v)) == v,
{
    assert(written(slot, v) =~= encoding_of(v));
    lemma_round_trip(v);
}

/// Create succeeds exactly when account 0 signed the call. The slot then
/// begins with the encoding of a record owned by account 0 and carrying the
/// supplied metadata — a slot sized exactly to the record decodes back to that
/// record — and nothing else about any account changes.
pub proof fn lemma_create_law(pre: Seq<AccountView>, metadata: Seq<u8>)
    requires
        wf_views(pre),
        pre.len() >= 1,
        fits(AssetView { owner: pre[0].key, metadata }, pre[0].data.len()),
    ensures
        spec_create(pre, metadata) is Ok <==> pre[0].is_signer,
        !pre[0].is_signer ==> spec_create(pre, metadata) == Err::<
            Seq<AccountView>,
            AssetError,
        >(AssetError::Unauthorized),
        pre[0].is_signer ==> ({
            let post = spec_create(pre, metadata)->Ok_0;
            let record = AssetView { owner: pre[0].key, metadata };
            &&& post.len() == pre.len()
            &&& forall|i: int| 1 <= i < pre.len() ==> post[i] == pre[i]
            &&& post[0] == pre[0].with_data(post[0].data)
            &&& post[0].data.len() == pre[0].data.len()
            &&& post[0].data.subrange(0, HEADER_LEN + metadata.len()) == encoding_of(record)
            &&& pre[0].data.len() == HEADER_LEN + metadata.len() ==> valid_encoding(post[0].data)
                && decoded(post[0].data) == record
        }),
{
    if pre[0].is_signer {
        let record = AssetView { owner: pre[0].key, metadata };
        let post = spec_create(pre, metadata)->Ok_0;
        lemma_round_trip(record);
        assert(post[0].data.subrange(0, HEADER_LEN + metadata.len() as int) =~= encoding_of(
            record,
        ));
        if pre[0].data.len() == HEADER_LEN + metadata.len() {
            lemma_written_exact(pre[0].data, record);
        }
    }
}

/// UpdateMetadata fails with `DecodeError` on a slot holding no valid record,
/// with `Unauthorized` when the stored owner differs from the slot's own
/// identity, and with `EncodeFailed` when the new metadata does not fit;
/// otherwise it replaces the metadata, keeps the owner, and changes nothing
/// else. A like-sized replacement reads back exactly.
pub proof fn lemma_update_metadata_law(pre: Seq<AccountView>, metadata: Seq<u8>)
    requires
        wf_views(pre),
        pre.len() >= 1,
    ensures
        !valid_encoding(pre[0].data) ==> spec_update_metadata(pre, metadata) == Err::<
            Seq<AccountView>,
            AssetError,
        >(AssetError::DecodeError),
        valid_encoding(pre[0].data) && decoded(pre[0].data).owner != pre[0].key
            ==> spec_update_metadata(pre, metadata) == Err::<
            Seq<AccountView>,
            AssetError,
        >(AssetError::Unauthorized),
        valid_encoding(pre[0].data) && decoded(pre[0].data).owner == pre[0].key ==> ({
            let old_record = decoded(pre[0].data);
            let record = AssetView { owner: pre[0].key, metadata };
            let post = spec_update_metadata(pre, metadata)->Ok_0;
            &&& metadata.len() > old_record.metadata.len() ==> spec_update_metadata(pre, metadata)
                == Err::<Seq<AccountView>, AssetError>(AssetError::EncodeFailed)
            &&& metadata.len() <= old_record.metadata.len() ==> {
                &&& spec_update_metadata(pre, metadata) is Ok
                &&& post.len() == pre.len()
                &&& forall|i: int| 1 <= i < pre.len() ==> post[i] == pre[i]
                &&& post[0] == pre[0].with_data(post[0].data)
                &&& post[0].data.subrange(0, HEADER_LEN + metadata.len()) == encoding_of(record)
            }
            &&& metadata.len() == old_record.metadata.len() ==> valid_encoding(post[0].data)
                && decoded(post[0].data) == record
        }),
{
    if valid_encoding(pre[0].data) && decoded(pre[0].data).owner == pre[0].key {
        let old_record = decoded(pre[0].data);
        let record = AssetView { owner: pre[0].key, metadata };
        assert(old_record.metadata.len() == pre[0].data.len() - HEADER_LEN);
        if metadata.len() <= old_record.metadata.len() {
            let post = spec_update_metadata(pre, metadata)->Ok_0;
            lemma_round_trip(record);
            assert(post[0].data.subrange(0, HEADER_LEN + metadata.len() as int) =~= encoding_of(
                record,
            ));
            if metadata.len() == old_record.metadata.len() {
                lemma_written_exact(pre[0].data, record);
            }
        }
    }
}

/// TransferOwnership fails exactly as UpdateMetadata does on an invalid slot
/// or a foreign owner; otherwise the owner becomes the supplied identity, the
/// metadata is kept unchanged, and nothing else about any account changes.
pub proof fn lemma_transfer_ownership_law(pre: Seq<AccountView>, new_owner: Seq<u8>)
    requires
        wf_views(pre),
        pre.len() >= 1,
        new_owner.len() == KEY_LEN,
    ensures
        !valid_encoding(pre[0].data) ==> spec_transfer_ownership(pre, new_owner) == Err::<
            Seq<AccountView>,
            AssetError,
        >(AssetError::DecodeError),
        valid_encoding(pre[0].data) && decoded(pre[0].data).owner != pre[0].key
            ==> spec_transfer_ownership(pre, new_owner) == Err::<
            Seq<AccountView>,
            AssetError,
        >(AssetError::Unauthorized),
        valid_encoding(pre[0].data) && decoded(pre[0].data).owner == pre[0].key ==> ({
            let record = AssetView { owner: new_owner, metadata: decoded(pre[0].data).metadata };
            let post = spec_transfer_ownership(pre, new_owner)->Ok_0;
            &&& spec_transfer_ownership(pre, new_owner) is Ok
            &&& post.len() == pre.len()
            &&& forall|i: int| 1 <= i < pre.len() ==> post[i] == pre[i]
            &&& post[0] == pre[0].with_data(post[0].data)
            &&& valid_encoding(post[0].data)
            &&& decoded(post[0].data) == record
        }),
{
    if valid_encoding(pre[0].data) && decoded(pre[0].data).owner == pre[0].key {
        let record = AssetView { owner: new_owner, metadata: decoded(pre[0].data).metadata };
        assert(record.metadata.len() == pre[0].data.len() - HEADER_LEN);
        lemma_written_exact(pre[0].data, record);
    }
}

/// Sell fails with `Unauthorized` when the stored owner is not the seller's
/// identity, and with `PaymentFailed` — leaving the record and every balance
/// untouched, since a specified failure applies no change — when the buyer
/// cannot cover the amount or the seller's balance would overflow. On success
/// the sale amount has moved from the buyer's balance to the seller's, the
/// owner becomes the supplied identity, and the metadata is kept unchanged.
pub proof fn lemma_sell_law(pre: Seq<AccountView>, new_owner: Seq<u8>, sale_amount: u64)
    requires
        wf_views(pre),
        pre.len() >= 4,
        new_owner.len() == KEY_LEN,
        valid_encoding(pre[1].data),
    ensures
        decoded(pre[1].data).owner != pre[0].key ==> spec_sell(pre, new_owner, sale_amount)
            == Err::<Seq<AccountView>, AssetError>(AssetError::Unauthorized),
        decoded(pre[1].data).owner == pre[0].key && (pre[2].lamports < sale_amount
            || pre[0].lamports + sale_amount > u64::MAX) ==> spec_sell(pre, new_owner, sale_amount)
            == Err::<Seq<AccountView>, AssetError>(AssetError::PaymentFailed),
        decoded(pre[1].data).owner == pre[0].key && pre[2].lamports >= sale_amount
            && pre[0].lamports + sale_amount <= u64::MAX ==> ({
            let record = AssetView { owner: new_owner, metadata: decoded(pre[1].data).metadata };
            let post = spec_sell(pre, new_owner, sale_amount)->Ok_0;
            &&& spec_sell(pre, new_owner, sale_amount) is Ok
            &&& post.len() == pre.len()
            &&& forall|i: int| 3 <= i < pre.len() ==> post[i] == pre[i]
            &&& post[0] == pre[0].with_lamports((pre[0].lamports + sale_amount) as u64)
            &&& post[2] == pre[2].with_lamports((pre[2].lamports - sale_amount) as u64)
            &&& post[1] == pre[1].with_data(post[1].data)
            &&& valid_encoding(post[1].data)
            &&& decoded(post[1].data) == record
        }),
{
    if decoded(pre[1].data).owner == pre[0].key && pre[2].lamports >= sale_amount && pre[0].lamports
        + sale_amount <= u64::MAX {
        let record = AssetView { owner: new_owner, metadata: decoded(pre[1].data).metadata };
        assert(record.metadata.len() == pre[1].data.len() - HEADER_LEN);
        lemma_written_exact(pre[1].data, record);
    }
}

/// Dispatch rejects, before any operation runs, an empty buffer, an unmapped
/// selector, a TransferOwnership payload shorter than one identity, and a Sell
/// payload shorter than an identity plus a sale amount.
pub proof fn lemma_dispatch_rejects_malformed(pre: Seq<AccountView>, data: Seq<u8>)
    requires
        data.len() == 0 || data[0] > SELECTOR_SELL || (data[0] == SELECTOR_TRANSFER_OWNERSHIP
            && data.len() < 1 + KEY_LEN) || (data[0] == SELECTOR_SELL && data.len() < 1
            + SELL_PAYLOAD_LEN),
    ensures
        spec_dispatch(pre, data) == Err::<
            Seq<AccountView>,
            AssetError,
        >(AssetError::InvalidInstructionData),
{
}

} // verus!
