//! An on-ledger asset registry: a single record type (owner identity plus
//! opaque metadata), its canonical binary codec, and four state transitions
//! (create, update-metadata, transfer-ownership, sell-with-payment), each
//! reading and writing its state through a caller-supplied byte slot.

use vstd::prelude::*;

pub mod codec;
pub mod engine;
pub mod identity;
pub mod instruction;
pub mod laws;

use crate::engine::{
    applies, spec_create, spec_sell, spec_transfer_ownership, spec_update_metadata, views,
    wf_views, AccountHandle, AccountView, Processor,
};
use crate::identity::Pubkey;
use crate::instruction::{parse_instruction, parse_spec, Instruction, InstructionView};

verus! {

/// The failure modes of the registry. Every operation either applies fully or
/// returns one of these with no state change.
#[derive(Clone, Copy, Debug, PartialEq, Eq, Structural)]
pub enum AssetError {
    /// The instruction buffer is empty, has an unknown selector, is shorter
    /// than its selector requires, or carries non-UTF-8 metadata.
    InvalidInstructionData,
    /// A slot expected to hold a valid encoded record does not.
    DecodeError,
    /// A required signer is missing, or the stored owner does not match the
    /// identity authorizing the transition.
    Unauthorized,
    /// The value transfer during a sale could not be performed.
    PaymentFailed,
    /// The account list is shorter than the operation requires.
    MissingAccount,
    /// The encoded record would not fit in the supplied slot.
    EncodeFailed,
}

impl AssetError {
    /// The diagnostic text of each failure.
    pub open spec fn spec_message(self) -> Seq<char> {
        match self {
            AssetError::InvalidInstructionData => "malformed instruction data"@,
            AssetError::DecodeError => "slot does not hold a valid asset record"@,
            AssetError::Unauthorized => "caller is not authorized to mutate this asset"@,
            AssetError::PaymentFailed => "the sale payment could not be made"@,
            AssetError::MissingAccount => "too few accounts for this operation"@,
            AssetError::EncodeFailed => "the encoded record does not fit its slot"@,
        }
    }

    /// The human-readable diagnostic accompanying the failure.
    pub fn message(&self) -> (r: &'static str)
        ensures
            r@ == self.spec_message(),
    {
        match self {
            AssetError::InvalidInstructionData => "malformed instruction data",
            AssetError::DecodeError => "slot does not hold a valid asset record",
            AssetError::Unauthorized => "caller is not authorized to mutate this asset",
            AssetError::PaymentFailed => "the sale payment could not be made",
            AssetError::MissingAccount => "too few accounts for this operation",
            AssetError::EncodeFailed => "the encoded record does not fit its slot",
        }
    }
}

/// What one dispatched call does to the account list: decode the instruction
/// buffer, then run the selected operation; a buffer that parses to nothing
/// fails before any operation runs.
pub open spec fn spec_dispatch(pre: Seq<AccountView>, data: Seq<u8>) -> Result<
    Seq<AccountView>,
    AssetError,
> {
    match parse_spec(data) {
        None => Err(AssetError::InvalidInstructionData),
        Some(InstructionView::Create { metadata }) => spec_create(pre, metadata),
        Some(InstructionView::UpdateMetadata { metadata }) => spec_update_metadata(pre, metadata),
        Some(InstructionView::TransferOwnership { new_owner }) => spec_transfer_ownership(
            pre,
            new_owner,
        ),
        Some(InstructionView::Sell { new_owner, sale_amount }) => spec_sell(
            pre,
            new_owner,
            sale_amount,
        ),
    }
}

/// The single entry point the external dispatcher calls: routes the
/// instruction buffer to one of the four operations over the caller's account
/// list. The program identity is taken for interface fidelity and not read.
pub fn process_instruction(
    _program_id: &Pubkey,
    accounts: &mut Vec<AccountHandle>,
    instruction_data: &[u8],
) -> (r: Result<(), AssetError>)
    requires
        wf_views(views(old(accounts)@)),
    ensures
        applies(
            views(old(accounts)@),
            spec_dispatch(views(old(accounts)@), instruction_data@),
            views(final(accounts)@),
            r,
        ),
{
    let instruction = match parse_instruction(instruction_data) {
        Err(e) => {
            return Err(e);
        },
        Ok(i) => i,
    };
    match instruction {
        Instruction::Create { metadata } => Processor::process_create_asset(accounts, metadata),
        Instruction::UpdateMetadata { metadata } => Processor::process_mint_asset(
            accounts,
            metadata,
        ),
        Instruction::TransferOwnership { new_owner } => Processor::process_transfer_ownership(
            accounts,
            new_owner,
        ),
        Instruction::Sell { new_owner, sale_amount } => Processor::process_sell_asset(
            accounts,
            new_owner,
            sale_amount,
        ),
    }
}

} // verus!
