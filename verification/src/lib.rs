//! Extraction of loan events from blockchain blocks: instructions of one
//! target on-chain program are classified by an eight-byte discriminator,
//! their fixed-layout payload is decoded, account references are resolved,
//! and one record per matched instruction is emitted as a text line.
use vstd::prelude::*;

pub mod assemble;
pub mod b58;
pub mod emit;
pub mod instruction;
pub mod matcher;
pub mod model;
pub mod resolve;

use crate::assemble::block_records;
use crate::assemble::extract_loans;
use crate::assemble::views_of;
use crate::b58::address_of;
use crate::b58::decode_address;
use crate::emit::emit;
use crate::emit::line_of;
use crate::model::Block;
use crate::model::RainError;

verus! {

/// The textual address of the watched on-chain program.
pub const RAIN_CONTRACT: &'static str = "RainEraPU5yDoJmTrHdYynK9739GkEfDsE4ffqce2BR";

/// The whole pipeline for one block: decodes the target program's textual
/// address, extracts one record per matched instruction, and serializes each
/// record to its text line. Fails with `InvalidAddress` exactly when the
/// target text is malformed; otherwise returns the lines of
/// [`block_records`], in order.
pub fn process_block(block: &Block, target_address: &str) -> (r: Result<Vec<String>, RainError>)
    ensures
        address_of(target_address@) is None ==> r == Err::<Vec<String>, RainError>(
            RainError::InvalidAddress,
        ),
        address_of(target_address@) matches Some(target) ==> (r matches Ok(lines) && {
            let records = block_records(block@, target);
            &&& lines@.len() == records.len()
            &&& forall|i: int| 0 <= i < records.len() ==> lines@[i]@ == line_of(records[i])
        }),
{
    let target = match decode_address(target_address) {
        Ok(target) => target,
        Err(e) => {
            return Err(e);
        },
    };
    let loans = extract_loans(block, &target);
    proof {
        assert(forall|i: int|
            0 <= i < loans@.len() ==> #[trigger] loans@[i]@ == views_of(loans@)[i]);
    }
    Ok(emit(&loans))
}

} // verus!
