//! The transition engine: the four operations over an ordered list of account
//! handles. Each operation validates authorization against the record decoded
//! from its slot, applies the transition, and writes the updated record back
//! through the codec. Every operation either applies fully or returns an error
//! with every account unchanged.

use vstd::prelude::*;

use crate::codec::{
    decode, decoded, encode_to_slot, fits, valid_encoding, written, AssetView,
};
use crate::identity::{Pubkey, KEY_LEN};
use crate::AssetError;

verus! {

/// One account handle as the platform lends it to the engine for a single
/// call: its identity, whether it cryptographically signed the call, its
/// balance in the smallest currency unit, and its byte slot.
#[derive(Debug)]
pub struct AccountHandle {
    pub key: Pubkey,
    pub is_signer: bool,
    pub lamports: u64,
    pub data: Vec<u8>,
}

/// The mathematical value of an account handle.
#[verifier::ext_equal]
pub ghost struct AccountView {
    pub key: Seq<u8>,
    pub is_signer: bool,
    pub lamports: u64,
    pub data: Seq<u8>,
}

impl View for AccountHandle {
    type V = AccountView;

    open spec fn view(&self) -> AccountView {
        AccountView {
            key: self.key@,
            is_signer: self.is_signer,
            lamports: self.lamports,
            data: self.data@,
        }
    }
}

impl AccountView {
    /// A well-formed handle carries a full-length identity.
    pub open spec fn wf(&self) -> bool {
        self.key.len() == KEY_LEN
    }

    /// The same account with new slot contents.
    pub open spec fn with_data(self, d: Seq<u8>) -> AccountView {
        AccountView { key: self.key, is_signer: self.is_signer, lamports: self.lamports, data: d }
    }

    /// The same account with a new balance.
    pub open spec fn with_lamports(self, l: u64) -> AccountView {
        AccountView { key: self.key, is_signer: self.is_signer, lamports: l, data: self.data }
    }
}

/// The mathematical values of a whole account list.
pub open spec fn views(s: Seq<AccountHandle>) -> Seq<AccountView> {
    Seq::new(s.len(), |i: int| s[i]@)
}

/// Every handle in the list is well formed.
pub open spec fn wf_views(s: Seq<AccountView>) -> bool {
    forall|i: int| 0 <= i < s.len() ==> (#[trigger] s[i]).wf()
}

/// How an operation's runtime outcome must relate to its specified outcome:
/// on success the accounts become exactly the specified post-state; on failure
/// the specified error is returned and no account changes.
pub open spec fn applies(
    pre: Seq<AccountView>,
    outcome: Result<Seq<AccountView>, AssetError>,
    post: Seq<AccountView>,
    r: Result<(), AssetError>,
) -> bool {
    match outcome {
        Ok(next) => r is Ok && post == next,
        Err(e) => r == Err::<(), AssetError>(e) && post == pre,
    }
}

/// Create: demands the new asset's account (position 0) signed the call, then
/// writes a fresh record owned by that account into its slot, overwriting any
/// prior contents without reading them.
pub open spec fn spec_create(pre: Seq<AccountView>, metadata: Seq<u8>) -> Result<
    Seq<AccountView>,
    AssetError,
> {
    if pre.len() < 1 {
        Err(AssetError::MissingAccount)
    } else if !pre[0].is_signer {
        Err(AssetError::Unauthorized)
    } else {
        let record = AssetView { owner: pre[0].key, metadata };
        if !fits(record, pre[0].data.len()) {
            Err(AssetError::EncodeFailed)
        } else {
            Ok(pre.update(0, pre[0].with_data(written(pre[0].data, record))))
        }
    }
}

/// UpdateMetadata: decodes the record in slot 0, demands the stored owner
/// equal the slot's own identity, then replaces the metadata and keeps the
/// owner.
pub open spec fn spec_update_metadata(pre: Seq<AccountView>, metadata: Seq<u8>) -> Result<
    Seq<AccountView>,
    AssetError,
> {
    if pre.len() < 1 {
        Err(AssetError::MissingAccount)
    } else if !valid_encoding(pre[0].data) {
        Err(AssetError::DecodeError)
    } else if decoded(pre[0].data).owner != pre[0].key {
        Err(AssetError::Unauthorized)
    } else {
        let record = AssetView { owner: decoded(pre[0].data).owner, metadata };
        if !fits(record, pre[0].data.len()) {
            Err(AssetError::EncodeFailed)
        } else {
            Ok(pre.update(0, pre[0].with_data(written(pre[0].data, record))))
        }
    }
}

/// TransferOwnership: same decode and self-ownership check as UpdateMetadata,
/// then replaces the owner with the supplied identity and keeps the metadata.
pub open spec fn spec_transfer_ownership(pre: Seq<AccountView>, new_owner: Seq<u8>) -> Result<
    Seq<AccountView>,
    AssetError,
> {
    if pre.len() < 1 {
        Err(AssetError::MissingAccount)
    } else if !valid_encoding(pre[0].data) {
        Err(AssetError::DecodeError)
    } else if decoded(pre[0].data).owner != pre[0].key {
        Err(AssetError::Unauthorized)
    } else {
        let record = AssetView { owner: new_owner, metadata: decoded(pre[0].data).metadata };
        Ok(pre.update(0, pre[0].with_data(written(pre[0].data, record))))
    }
}

/// Sell, over the fixed account order [seller, asset slot, buyer, transfer
/// capability]: decodes the record, demands the stored owner equal the
/// seller's identity, moves the sale amount from the buyer's balance to the
/// seller's, and only then replaces the owner with the supplied identity.
/// A payment that cannot be made (insufficient buyer balance, or a seller
/// balance that would overflow) fails the whole operation with the record
/// untouched.
pub open spec fn spec_sell(
    pre: Seq<AccountView>,
    new_owner: Seq<u8>,
    sale_amount: u64,
) -> Result<Seq<AccountView>, AssetError> {
    if pre.len() < 4 {
        Err(AssetError::MissingAccount)
    } else if !valid_encoding(pre[1].data) {
        Err(AssetError::DecodeError)
    } else if decoded(pre[1].data).owner != pre[0].key {
        Err(AssetError::Unauthorized)
    } else if pre[2].lamports < sale_amount || pre[0].lamports + sale_amount > u64::MAX {
        Err(AssetError::PaymentFailed)
    } else {
        let record = AssetView { owner: new_owner, metadata: decoded(pre[1].data).metadata };
        Ok(
            pre.update(0, pre[0].with_lamports((pre[0].lamports + sale_amount) as u64)).update(
                1,
                pre[1].with_data(written(pre[1].data, record)),
            ).update(2, pre[2].with_lamports((pre[2].lamports - sale_amount) as u64)),
        )
    }
}

/// The transition engine. Each operation is a stateless entry point over the
/// caller's account list.
pub struct Processor;

impl Processor {
    pub fn process_create_asset(accounts: &mut Vec<AccountHandle>, metadata: Vec<u8>) -> (r:
        Result<(), AssetError>)
        requires
            wf_views(views(old(accounts)@)),
        ensures
            applies(
                views(old(accounts)@),
                spec_create(views(old(accounts)@), metadata@),
                views(final(accounts)@),
                r,
            ),
    {
        let ghost pre = views(old(accounts)@);
        if accounts.len() < 1 {
            return Err(AssetError::MissingAccount);
        }
        if !accounts[0].is_signer {
            return Err(AssetError::Unauthorized);
        }
        assert(accounts@[0]@.wf());
        let new_data = match encode_to_slot(&accounts[0].data, &accounts[0].key, &metadata) {
            Err(e) => {
                return Err(e);
            },
            Ok(d) => d,
        };
        let mut account = accounts.remove(0);
        account.data = new_data;
        accounts.insert(0, account);
        proof {
            assert(views(accounts@) =~= pre.update(0, pre[0].with_data(account@.data)));
        }
        Ok(())
    }

    pub fn process_mint_asset(accounts: &mut Vec<AccountHandle>, metadata: Vec<u8>) -> (r: Result<
        (),
        AssetError,
    >)
        requires
            wf_views(views(old(accounts)@)),
        ensures
            applies(
                views(old(accounts)@),
                spec_update_metadata(views(old(accounts)@), metadata@),
                views(final(accounts)@),
                r,
            ),
    {
        let ghost pre = views(old(accounts)@);
        if accounts.len() < 1 {
            return Err(AssetError::MissingAccount);
        }
        let asset = match decode(accounts[0].data.as_slice()) {
            Err(e) => {
                return Err(e);
            },
            Ok(a) => a,
        };
        if !asset.owner.eq_key(&accounts[0].key) {
            return Err(AssetError::Unauthorized);
        }
        let new_data = match encode_to_slot(&accounts[0].data, &asset.owner, &metadata) {
            Err(e) => {
                return Err(e);
            },
            Ok(d) => d,
        };
        let mut account = accounts.remove(0);
        account.data = new_data;
        accounts.insert(0, account);
        proof {
            assert(views(accounts@) =~= pre.update(0, pre[0].with_data(account@.data)));
        }
        Ok(())
    }

    pub fn process_transfer_ownership(accounts: &mut Vec<AccountHandle>, new_owner: Pubkey) -> (r:
        Result<(), AssetError>)
        requires
            wf_views(views(old(accounts)@)),
            new_owner.wf(),
        ensures
            applies(
                views(old(accounts)@),
                spec_transfer_ownership(views(old(accounts)@), new_owner@),
                views(final(accounts)@),
                r,
            ),
    {
        let ghost pre = views(old(accounts)@);
        if accounts.len() < 1 {
            return Err(AssetError::MissingAccount);
        }
        let asset = match decode(accounts[0].data.as_slice()) {
            Err(e) => {
                return Err(e);
            },
            Ok(a) => a,
        };
        if !asset.owner.eq_key(&accounts[0].key) {
            return Err(AssetError::Unauthorized);
        }
        assert(fits(
            AssetView { owner: new_owner@, metadata: asset@.metadata },
            accounts@[0]@.data.len(),
        ));
        // A record decoded from this slot fills it exactly, and the owner
        // field is fixed-length, so re-encoding cannot fail.
        let new_data = match encode_to_slot(&accounts[0].data, &new_owner, &asset.metadata) {
            Err(_) => {
                proof {
                    assert(false);
                }
                return Err(AssetError::EncodeFailed);
            },
            Ok(d) => d,
        };
        let mut account = accounts.remove(0);
        account.data = new_data;
        accounts.insert(0, account);
        proof {
            assert(views(accounts@) =~= pre.update(0, pre[0].with_data(account@.data)));
        }
        Ok(())
    }

    pub fn process_sell_asset(
        accounts: &mut Vec<AccountHandle>,
        new_owner: Pubkey,
        sale_amount: u64,
    ) -> (r: Result<(), AssetError>)
        requires
            wf_views(views(old(accounts)@)),
            new_owner.wf(),
        ensures
            applies(
                views(old(accounts)@),
                spec_sell(views(old(accounts)@), new_owner@, sale_amount),
                views(final(accounts)@),
                r,
            ),
    {
        let ghost pre = views(old(accounts)@);
        if accounts.len() < 4 {
            return Err(AssetError::MissingAccount);
        }
        let asset = match decode(accounts[1].data.as_slice()) {
            Err(e) => {
                return Err(e);
            },
            Ok(a) => a,
        };
        if !asset.owner.eq_key(&accounts[0].key) {
            return Err(AssetError::Unauthorized);
        }
        if accounts[2].lamports < sale_amount {
            return Err(AssetError::PaymentFailed);
        }
        if accounts[0].lamports > u64::MAX - sale_amount {
            return Err(AssetError::PaymentFailed);
        }
        assert(fits(
            AssetView { owner: new_owner@, metadata: asset@.metadata },
            accounts@[1]@.data.len(),
        ));
        // As in a transfer, re-encoding a record into the slot it was decoded
        // from cannot fail.
        let new_data = match encode_to_slot(&accounts[1].data, &new_owner, &asset.metadata) {
            Err(_) => {
                proof {
                    assert(false);
                }
                return Err(AssetError::EncodeFailed);
            },
            Ok(d) => d,
        };
        let mut seller = accounts.remove(0);
        let mut asset_account = accounts.remove(0);
        let mut buyer = accounts.remove(0);
        seller.lamports = seller.lamports + sale_amount;
        asset_account.data = new_data;
        buyer.lamports = buyer.lamports - sale_amount;
        accounts.insert(0, buyer);
        accounts.insert(0, asset_account);
        accounts.insert(0, seller);
        proof {
            assert(views(accounts@) =~= pre.update(0, pre[0].with_lamports(seller@.lamports))
                .update(1, pre[1].with_data(asset_account@.data)).update(
                2,
                pre[2].with_lamports(buyer@.lamports),
            ));
        }
        Ok(())
    }
}

} // verus!
