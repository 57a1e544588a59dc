//! Account resolution: mapping a fixed role index through an instruction's
//! account-index list into the message's account-key table, and rendering the
//! raw address as base-58 text.
use vstd::prelude::*;

use crate::b58::b58_encode;
use crate::b58::b58_encode_spec;
use crate::model::Instruction;
use crate::model::InstructionView;
use crate::model::Message;
use crate::model::MessageView;
use crate::model::RainError;

verus! {

/// Role index of the loan initiator in a TakeLoan instruction's account
/// list, fixed by the watched program's instruction schema.
pub const LOANER_ROLE: usize = 0;

/// Role index of the pool account in a TakeLoan instruction's account list,
/// fixed by the watched program's instruction schema.
pub const POOL_ROLE: usize = 8;

/// What resolving a role index yields: `IndexOutOfRange` when the role lies
/// beyond the instruction's account indices, `AccountKeyMissing` when the
/// account index lies beyond the message's key table, and otherwise the
/// base-58 text of the addressed key.
pub open spec fn resolve_spec(msg: MessageView, ix: InstructionView, role: int) -> Result<
    Seq<char>,
    RainError,
> {
    if role >= ix.accounts.len() {
        Err(RainError::IndexOutOfRange)
    } else if ix.accounts[role] as int >= msg.account_keys.len() {
        Err(RainError::AccountKeyMissing)
    } else {
        Ok(b58_encode_spec(msg.account_keys[ix.accounts[role] as int]))
    }
}

/// Looks up `ix.accounts[role_index]`, uses it to index the message's
/// account-key table, and text-encodes the raw address found there,
/// returning exactly what [`resolve_spec`] assigns.
pub fn resolve(msg: &Message, ix: &Instruction, role_index: usize) -> (r: Result<
    String,
    RainError,
>)
    ensures
        match r {
            Ok(s) => resolve_spec(msg@, ix@, role_index as int) == Ok::<Seq<char>, RainError>(s@),
            Err(e) => resolve_spec(msg@, ix@, role_index as int) == Err::<Seq<char>, RainError>(e),
        },
{
    if role_index >= ix.accounts.len() {
        return Err(RainError::IndexOutOfRange);
    }
    let key_index = ix.accounts[role_index] as usize;
    if key_index >= msg.account_keys.len() {
        return Err(RainError::AccountKeyMissing);
    }
    Ok(b58_encode(&msg.account_keys[key_index]))
}

} // verus!
