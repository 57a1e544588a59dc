//! Data model of the pipeline: the shape of a block as this library reads it,
//! the error taxonomy, and the output record.
use vstd::prelude::*;

verus! {

/// Everything that can go wrong while handling one instruction, plus the
/// startup failure of a malformed target address.
#[derive(Clone, Copy, Debug, PartialEq, Eq, Structural)]
pub enum RainError {
    /// The configured target address is not valid base-58 text for an address.
    InvalidAddress,
    /// The instruction buffer has fewer than 8 bytes, so it has no discriminator.
    TooShort,
    /// The 8-byte discriminator matches no known instruction kind.
    UnknownInstruction,
    /// The bytes after the discriminator do not fit the fixed field layout.
    DecodeError,
    /// A role index lies beyond the instruction's account-index list.
    IndexOutOfRange,
    /// An account index lies beyond the message's account-key table.
    AccountKeyMissing,
}

/// One on-chain operation request: an opaque data buffer and the indices of
/// the accounts it touches, each indexing the enclosing message's key table.
pub struct Instruction {
    pub data: Vec<u8>,
    pub accounts: Vec<u8>,
}

/// Mathematical image of an [`Instruction`].
pub struct InstructionView {
    pub data: Seq<u8>,
    pub accounts: Seq<u8>,
}

impl View for Instruction {
    type V = InstructionView;

    open spec fn view(&self) -> InstructionView {
        InstructionView { data: self.data@, accounts: self.accounts@ }
    }
}

/// The instruction-bearing part of a transaction: an ordered, position
/// significant table of raw 32-byte account keys, and the instructions.
pub struct Message {
    pub account_keys: Vec<Vec<u8>>,
    pub instructions: Vec<Instruction>,
}

/// Mathematical image of a [`Message`].
pub struct MessageView {
    pub account_keys: Seq<Seq<u8>>,
    pub instructions: Seq<InstructionView>,
}

impl View for Message {
    type V = MessageView;

    open spec fn view(&self) -> MessageView {
        MessageView {
            account_keys: self.account_keys@.map_values(|k: Vec<u8>| k@),
            instructions: self.instructions@.map_values(|i: Instruction| i@),
        }
    }
}

/// A transaction; one without a message carries nothing of interest here.
pub struct Transaction {
    pub message: Option<Message>,
}

/// Mathematical image of a [`Transaction`].
pub struct TransactionView {
    pub message: Option<MessageView>,
}

impl View for Transaction {
    type V = TransactionView;

    open spec fn view(&self) -> TransactionView {
        TransactionView {
            message: match self.message {
                Some(m) => Some(m@),
                None => None,
            },
        }
    }
}

/// One block: an ordered sequence of transactions and, when the chain
/// supplied one, the block time in seconds.
pub struct Block {
    pub transactions: Vec<Transaction>,
    pub block_time: Option<u64>,
}

/// Mathematical image of a [`Block`].
pub struct BlockView {
    pub transactions: Seq<TransactionView>,
    pub block_time: Option<u64>,
}

impl View for Block {
    type V = BlockView;

    open spec fn view(&self) -> BlockView {
        BlockView {
            transactions: self.transactions@.map_values(|t: Transaction| t@),
            block_time: self.block_time,
        }
    }
}

/// The normalized output event for one successfully decoded loan-taking
/// instruction. `pool` and `loaner` hold base-58 text; `slippage` is widened
/// from the payload's 16 bits; `timestamp` is the block time when the block
/// carried one.
pub struct RainLoan {
    pub pool: String,
    pub loaner: String,
    pub collection: u32,
    pub amount: u64,
    pub duration: u64,
    pub interest: u64,
    pub slippage: u32,
    pub timestamp: Option<u64>,
}

/// Mathematical image of a [`RainLoan`].
pub struct RainLoanView {
    pub pool: Seq<char>,
    pub loaner: Seq<char>,
    pub collection: u32,
    pub amount: u64,
    pub duration: u64,
    pub interest: u64,
    pub slippage: u32,
    pub timestamp: Option<u64>,
}

impl View for RainLoan {
    type V = RainLoanView;

    open spec fn view(&self) -> RainLoanView {
        RainLoanView {
            pool: self.pool@,
            loaner: self.loaner@,
            collection: self.collection,
            amount: self.amount,
            duration: self.duration,
            interest: self.interest,
            slippage: self.slippage,
            timestamp: self.timestamp,
        }
    }
}

} // verus!
