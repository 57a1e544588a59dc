//! Instruction classification and payload decoding: the first 8 bytes of an
//! instruction buffer are matched against the table of known discriminators,
//! and the remainder is read as a fixed, ordered, little-endian field layout.
use vstd::prelude::*;

use vstd::bytes::lemma_auto_spec_u16_to_from_le_bytes;
use vstd::bytes::lemma_auto_spec_u32_to_from_le_bytes;
use vstd::bytes::lemma_auto_spec_u64_to_from_le_bytes;
use vstd::bytes::spec_u16_from_le_bytes;
use vstd::bytes::spec_u16_to_le_bytes;
use vstd::bytes::spec_u32_from_le_bytes;
use vstd::bytes::spec_u32_to_le_bytes;
use vstd::bytes::spec_u64_from_le_bytes;
use vstd::bytes::spec_u64_to_le_bytes;
use vstd::bytes::u16_from_le_bytes;
use vstd::bytes::u32_from_le_bytes;
use vstd::bytes::u64_from_le_bytes;
use vstd::slice::slice_subrange;

use crate::model::RainError;

verus! {

/// Number of bytes in an instruction discriminator.
pub const DISCRIMINATOR_LEN: usize = 8;

/// Number of payload bytes after the TakeLoan discriminator: 4 + 8 + 8 + 8 + 2.
pub const TAKE_LOAN_PAYLOAD_LEN: usize = 30;

/// The discriminator that marks a TakeLoan instruction.
pub open spec fn take_loan_discriminator() -> Seq<u8> {
    seq![153u8, 53u8, 51u8, 59u8, 222u8, 102u8, 52u8, 131u8]
}

/// The decoded body of a TakeLoan instruction: five unsigned little-endian
/// fields, contiguous, in this order, with no padding or framing.
pub struct RainLoanPayload {
    pub collection_id: u32,
    pub duration: u64,
    pub interest: u64,
    pub amount: u64,
    pub slippage: u16,
}

/// A classified instruction; new kinds extend this enum and the
/// discriminator table, nothing else.
pub enum RainInstruction {
    TakeLoan(RainLoanPayload),
}

/// The payload encoded by a 30-byte remainder, field by field.
pub open spec fn take_loan_payload_of(rest: Seq<u8>) -> RainLoanPayload
    recommends
        rest.len() == TAKE_LOAN_PAYLOAD_LEN,
{
    RainLoanPayload {
        collection_id: spec_u32_from_le_bytes(rest.subrange(0, 4)),
        duration: spec_u64_from_le_bytes(rest.subrange(4, 12)),
        interest: spec_u64_from_le_bytes(rest.subrange(12, 20)),
        amount: spec_u64_from_le_bytes(rest.subrange(20, 28)),
        slippage: spec_u16_from_le_bytes(rest.subrange(28, 30)),
    }
}

/// What classification and decoding return for a given instruction buffer:
/// `TooShort` under 8 bytes, `UnknownInstruction` on an unrecognized
/// discriminator, `DecodeError` when the remainder does not fit the fixed
/// layout exactly, and otherwise the decoded instruction.
pub open spec fn unpack_spec(input: Seq<u8>) -> Result<RainInstruction, RainError> {
    if input.len() < DISCRIMINATOR_LEN {
        Err(RainError::TooShort)
    } else if input.subrange(0, DISCRIMINATOR_LEN as int) != take_loan_discriminator() {
        Err(RainError::UnknownInstruction)
    } else if input.len() != DISCRIMINATOR_LEN + TAKE_LOAN_PAYLOAD_LEN {
        Err(RainError::DecodeError)
    } else {
        Ok(RainInstruction::TakeLoan(take_loan_payload_of(input.skip(DISCRIMINATOR_LEN as int))))
    }
}

/// Deserializes the bytes after a TakeLoan discriminator. All fields decode
/// or the whole call fails: success exactly when `rest` has the layout's
/// length, and then every field equals the little-endian reading of its byte
/// range.
pub fn decode_take_loan(rest: &[u8]) -> (r: Result<RainLoanPayload, RainError>)
    ensures
        rest@.len() == TAKE_LOAN_PAYLOAD_LEN ==> (r matches Ok(p) && p
            == take_loan_payload_of(rest@)),
        rest@.len() != TAKE_LOAN_PAYLOAD_LEN ==> r == Err::<RainLoanPayload, RainError>(
            RainError::DecodeError,
        ),
{
    if rest.len() != TAKE_LOAN_PAYLOAD_LEN {
        return Err(RainError::DecodeError);
    }
    let collection_id = u32_from_le_bytes(slice_subrange(rest, 0, 4));
    let duration = u64_from_le_bytes(slice_subrange(rest, 4, 12));
    let interest = u64_from_le_bytes(slice_subrange(rest, 12, 20));
    let amount = u64_from_le_bytes(slice_subrange(rest, 20, 28));
    let slippage = u16_from_le_bytes(slice_subrange(rest, 28, 30));
    Ok(RainLoanPayload { collection_id, duration, interest, amount, slippage })
}

impl RainInstruction {
    /// Classifies one raw instruction buffer and decodes its payload,
    /// returning exactly what [`unpack_spec`] assigns to the bytes.
    pub fn unpack(input: &Vec<u8>) -> (r: Result<Self, RainError>)
        ensures
            r == unpack_spec(input@),
    {
        if input.len() < DISCRIMINATOR_LEN {
            return Err(RainError::TooShort);
        }
        let matched = input[0] == 153 && input[1] == 53 && input[2] == 51 && input[3] == 59
            && input[4] == 222 && input[5] == 102 && input[6] == 52 && input[7] == 131;
        if !matched {
            proof {
                let s = input@.subrange(0, DISCRIMINATOR_LEN as int);
                let d = take_loan_discriminator();
                if s == d {
                    assert(input@[0] == s[0] && input@[1] == s[1] && input@[2] == s[2] && input@[3]
                        == s[3] && input@[4] == s[4] && input@[5] == s[5] && input@[6] == s[6]
                        && input@[7] == s[7]);
                    assert(false);
                }
            }
            return Err(RainError::UnknownInstruction);
        }
        proof {
            assert(input@.subrange(0, DISCRIMINATOR_LEN as int) =~= take_loan_discriminator());
        }
        let rest = slice_subrange(input.as_slice(), DISCRIMINATOR_LEN, input.len());
        proof {
            assert(rest@ =~= input@.skip(DISCRIMINATOR_LEN as int));
        }
        match decode_take_loan(rest) {
            Ok(payload) => Ok(RainInstruction::TakeLoan(payload)),
            Err(e) => Err(e),
        }
    }
}

/// The byte layout of a TakeLoan instruction holding the given payload: the
/// discriminator followed by each field in little-endian form.
pub open spec fn encode_take_loan(p: RainLoanPayload) -> Seq<u8> {
    take_loan_discriminator() + spec_u32_to_le_bytes(p.collection_id) + spec_u64_to_le_bytes(
        p.duration,
    ) + spec_u64_to_le_bytes(p.interest) + spec_u64_to_le_bytes(p.amount) + spec_u16_to_le_bytes(
        p.slippage,
    )
}

/// Law: laying out any payload with the fixed layout behind the TakeLoan
/// discriminator and unpacking the buffer gives back exactly that payload.
pub proof fn lemma_take_loan_round_trip(p: RainLoanPayload)
    ensures
        unpack_spec(encode_take_loan(p)) == Ok::<RainInstruction, RainError>(
            RainInstruction::TakeLoan(p),
        ),
{
    lemma_auto_spec_u16_to_from_le_bytes();
    lemma_auto_spec_u32_to_from_le_bytes();
    lemma_auto_spec_u64_to_from_le_bytes();
    let e = encode_take_loan(p);
    assert(e.len() == 38);
    assert(e.subrange(0, DISCRIMINATOR_LEN as int) =~= take_loan_discriminator());
    let rest = e.skip(DISCRIMINATOR_LEN as int);
    assert(rest.subrange(0, 4) =~= spec_u32_to_le_bytes(p.collection_id));
    assert(rest.subrange(4, 12) =~= spec_u64_to_le_bytes(p.duration));
    assert(rest.subrange(12, 20) =~= spec_u64_to_le_bytes(p.interest));
    assert(rest.subrange(20, 28) =~= spec_u64_to_le_bytes(p.amount));
    assert(rest.subrange(28, 30) =~= spec_u16_to_le_bytes(p.slippage));
    assert(take_loan_payload_of(rest) == p);
}

} // verus!
