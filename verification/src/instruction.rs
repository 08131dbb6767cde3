//! The inbound instruction format: a leading selector byte followed by an
//! operation-specific payload, decoded into a closed instruction type by a
//! single exhaustive parse.

use vstd::bytes::{spec_u64_from_le_bytes, u64_from_le_bytes};
use vstd::prelude::*;
use vstd::slice::{slice_index_get, slice_subrange, slice_to_vec};
use vstd::utf8::valid_utf8;

use crate::identity::{Pubkey, KEY_LEN};
use crate::AssetError;

verus! {

/// Selector byte of the Create operation.
pub const SELECTOR_CREATE: u8 = 0;

/// Selector byte of the UpdateMetadata operation.
pub const SELECTOR_UPDATE_METADATA: u8 = 1;

/// Selector byte of the TransferOwnership operation.
pub const SELECTOR_TRANSFER_OWNERSHIP: u8 = 2;

/// Selector byte of the Sell operation.
pub const SELECTOR_SELL: u8 = 3;

/// Payload bytes a Sell instruction requires: a new-owner identity followed by
/// an 8-byte little-endian sale amount.
pub const SELL_PAYLOAD_LEN: usize = 40;

/// One decoded instruction, one variant per operation.
#[derive(Debug)]
pub enum Instruction {
    Create { metadata: Vec<u8> },
    UpdateMetadata { metadata: Vec<u8> },
    TransferOwnership { new_owner: Pubkey },
    Sell { new_owner: Pubkey, sale_amount: u64 },
}

/// The mathematical value of a decoded instruction.
#[verifier::ext_equal]
pub ghost enum InstructionView {
    Create { metadata: Seq<u8> },
    UpdateMetadata { metadata: Seq<u8> },
    TransferOwnership { new_owner: Seq<u8> },
    Sell { new_owner: Seq<u8>, sale_amount: u64 },
}

impl View for Instruction {
    type V = InstructionView;

    open spec fn view(&self) -> InstructionView {
        match self {
            Instruction::Create { metadata } => InstructionView::Create { metadata: metadata@ },
            Instruction::UpdateMetadata { metadata } => InstructionView::UpdateMetadata {
                metadata: metadata@,
            },
            Instruction::TransferOwnership { new_owner } => InstructionView::TransferOwnership {
                new_owner: new_owner@,
            },
            Instruction::Sell { new_owner, sale_amount } => InstructionView::Sell {
                new_owner: new_owner@,
                sale_amount: *sale_amount,
            },
        }
    }
}

impl Instruction {
    /// Any identity the instruction carries is full length.
    pub open spec fn wf(&self) -> bool {
        match self {
            Instruction::TransferOwnership { new_owner } => new_owner.wf(),
            Instruction::Sell { new_owner, .. } => new_owner.wf(),
            _ => true,
        }
    }
}

/// What an instruction buffer parses to, if anything: byte 0 selects the
/// operation, the rest is its payload. A missing selector, an unknown
/// selector, a payload shorter than the selector requires, or non-UTF-8
/// metadata parses to nothing.
pub open spec fn parse_spec(d: Seq<u8>) -> Option<InstructionView> {
    if d.len() == 0 {
        None
    } else {
        let payload = d.skip(1);
        if d[0] == SELECTOR_CREATE {
            if valid_utf8(payload) {
                Some(InstructionView::Create { metadata: payload })
            } else {
                None
            }
        } else if d[0] == SELECTOR_UPDATE_METADATA {
            if valid_utf8(payload) {
                Some(InstructionView::UpdateMetadata { metadata: payload })
            } else {
                None
            }
        } else if d[0] == SELECTOR_TRANSFER_OWNERSHIP {
            if payload.len() >= KEY_LEN {
                Some(
                    InstructionView::TransferOwnership {
                        new_owner: payload.subrange(0, KEY_LEN as int),
                    },
                )
            } else {
                None
            }
        } else if d[0] == SELECTOR_SELL {
            if payload.len() >= SELL_PAYLOAD_LEN {
                Some(
                    InstructionView::Sell {
                        new_owner: payload.subrange(0, KEY_LEN as int),
                        sale_amount: spec_u64_from_le_bytes(
                            payload.subrange(KEY_LEN as int, SELL_PAYLOAD_LEN as int),
                        ),
                    },
                )
            } else {
                None
            }
        } else {
            None
        }
    }
}

/// Relies on `core::str::from_utf8`: it accepts a byte slice exactly when the
/// slice is valid UTF-8, the property vstd models as `valid_utf8`.
#[verifier::external_body]
fn utf8_ok(bytes: &[u8]) -> (r: bool)
    ensures
        r == valid_utf8(bytes@),
{
    core::str::from_utf8(bytes).is_ok()
}

/// Decodes an instruction buffer, or fails with `InvalidInstructionData`
/// exactly when the buffer parses to nothing.
pub fn parse_instruction(data: &[u8]) -> (r: Result<Instruction, AssetError>)
    ensures
        match r {
            Ok(i) => parse_spec(data@) == Some(i@) && i.wf(),
            Err(e) => e == AssetError::InvalidInstructionData && parse_spec(data@) is None,
        },
{
    let n = data.len();
    if n == 0 {
        return Err(AssetError::InvalidInstructionData);
    }
    let selector = *slice_index_get(data, 0);
    let payload = slice_subrange(data, 1, n);
    assert(payload@ =~= data@.skip(1));
    if selector == SELECTOR_CREATE {
        if utf8_ok(payload) {
            Ok(Instruction::Create { metadata: slice_to_vec(payload) })
        } else {
            Err(AssetError::InvalidInstructionData)
        }
    } else if selector == SELECTOR_UPDATE_METADATA {
        if utf8_ok(payload) {
            Ok(Instruction::UpdateMetadata { metadata: slice_to_vec(payload) })
        } else {
            Err(AssetError::InvalidInstructionData)
        }
    } else if selector == SELECTOR_TRANSFER_OWNERSHIP {
        if payload.len() < KEY_LEN {
            Err(AssetError::InvalidInstructionData)
        } else {
            let new_owner = Pubkey::new(slice_to_vec(slice_subrange(payload, 0, KEY_LEN)));
            Ok(Instruction::TransferOwnership { new_owner })
        }
    } else if selector == SELECTOR_SELL {
        if payload.len() < SELL_PAYLOAD_LEN {
            Err(AssetError::InvalidInstructionData)
        } else {
            let new_owner = Pubkey::new(slice_to_vec(slice_subrange(payload, 0, KEY_LEN)));
            let sale_amount = u64_from_le_bytes(
                slice_subrange(payload, KEY_LEN, SELL_PAYLOAD_LEN),
            );
            Ok(Instruction::Sell { new_owner, sale_amount })
        }
    } else {
        Err(AssetError::InvalidInstructionData)
    }
}

} // verus!
