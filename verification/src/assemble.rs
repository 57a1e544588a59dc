//! Event assembly: one pass over a block's transactions, classifying and
//! decoding each instruction of the transactions that reference the target
//! program, and producing records in transaction-then-instruction order.
//! Every per-instruction failure is local: the instruction is skipped and its
//! siblings are still processed.
use vstd::prelude::*;

use crate::instruction::take_loan_payload_of;
use crate::instruction::unpack_spec;
use crate::instruction::RainInstruction;
use crate::instruction::DISCRIMINATOR_LEN;
use crate::matcher::message_references;
use crate::matcher::transaction_references;
use crate::matcher::tx_references;
use crate::model::Block;
use crate::model::BlockView;
use crate::model::Instruction;
use crate::model::InstructionView;
use crate::model::Message;
use crate::model::MessageView;
use crate::model::RainLoan;
use crate::model::RainLoanView;
use crate::model::TransactionView;
use crate::resolve::resolve;
use crate::resolve::resolve_spec;
use crate::resolve::LOANER_ROLE;
use crate::resolve::POOL_ROLE;

verus! {

/// The instruction yields a record: it classifies and decodes, and both role
/// indices resolve within the instruction's account list and the message's
/// key table.
pub open spec fn instruction_emits(msg: MessageView, ix: InstructionView) -> bool {
    &&& unpack_spec(ix.data) is Ok
    &&& POOL_ROLE < ix.accounts.len()
    &&& LOANER_ROLE < ix.accounts.len()
    &&& (ix.accounts[POOL_ROLE as int] as int) < msg.account_keys.len()
    &&& (ix.accounts[LOANER_ROLE as int] as int) < msg.account_keys.len()
}

/// The record assembled for an emitting instruction: resolved pool and loaner
/// addresses, the decoded payload fields with slippage widened, and the block
/// time when the block carried one.
pub open spec fn record_for(msg: MessageView, ix: InstructionView, time: Option<u64>) -> RainLoanView
    recommends
        instruction_emits(msg, ix),
{
    let p = take_loan_payload_of(ix.data.skip(DISCRIMINATOR_LEN as int));
    RainLoanView {
        pool: resolve_spec(msg, ix, POOL_ROLE as int)->Ok_0,
        loaner: resolve_spec(msg, ix, LOANER_ROLE as int)->Ok_0,
        collection: p.collection_id,
        amount: p.amount,
        duration: p.duration,
        interest: p.interest,
        slippage: p.slippage as u32,
        timestamp: time,
    }
}

/// The records of a sequence of instructions within one message, in
/// instruction order; a non-emitting instruction contributes nothing.
pub open spec fn instruction_records(
    msg: MessageView,
    ixs: Seq<InstructionView>,
    time: Option<u64>,
) -> Seq<RainLoanView>
    decreases ixs.len(),
{
    if ixs.len() == 0 {
        Seq::empty()
    } else {
        instruction_records(msg, ixs.drop_last(), time) + (if instruction_emits(msg, ixs.last()) {
            seq![record_for(msg, ixs.last(), time)]
        } else {
            Seq::empty()
        })
    }
}

/// The records of one transaction: those of its message's instructions when
/// the message references the target, and nothing otherwise.
pub open spec fn tx_records(tx: TransactionView, target: Seq<u8>, time: Option<u64>) -> Seq<
    RainLoanView,
> {
    match tx.message {
        Some(m) => if message_references(m, target) {
            instruction_records(m, m.instructions, time)
        } else {
            Seq::empty()
        },
        None => Seq::empty(),
    }
}

/// The records of a sequence of transactions, in transaction order.
pub open spec fn txs_records(
    txs: Seq<TransactionView>,
    target: Seq<u8>,
    time: Option<u64>,
) -> Seq<RainLoanView>
    decreases txs.len(),
{
    if txs.len() == 0 {
        Seq::empty()
    } else {
        txs_records(txs.drop_last(), target, time) + tx_records(txs.last(), target, time)
    }
}

/// All records a block yields for the given target program address.
pub open spec fn block_records(b: BlockView, target: Seq<u8>) -> Seq<RainLoanView> {
    txs_records(b.transactions, target, b.block_time)
}

/// The views of a sequence of records.
pub open spec fn views_of(s: Seq<RainLoan>) -> Seq<RainLoanView> {
    s.map_values(|l: RainLoan| l@)
}

/// Classifies, decodes and resolves one instruction; any classification,
/// decode or resolution failure yields `None` and is thereby local to this
/// instruction.
fn instruction_loan(msg: &Message, ix: &Instruction, time: Option<u64>) -> (r: Option<RainLoan>)
    ensures
        instruction_emits(msg@, ix@) ==> (r matches Some(l) && l@ == record_for(msg@, ix@, time)),
        !instruction_emits(msg@, ix@) ==> r is None,
{
    let instruction = match RainInstruction::unpack(&ix.data) {
        Ok(instruction) => instruction,
        Err(_) => {
            return None;
        },
    };
    let pool = match resolve(msg, ix, POOL_ROLE) {
        Ok(pool) => pool,
        Err(_) => {
            return None;
        },
    };
    let loaner = match resolve(msg, ix, LOANER_ROLE) {
        Ok(loaner) => loaner,
        Err(_) => {
            return None;
        },
    };
    match instruction {
        RainInstruction::TakeLoan(payload) => Some(
            RainLoan {
                pool,
                loaner,
                collection: payload.collection_id,
                amount: payload.amount,
                duration: payload.duration,
                interest: payload.interest,
                slippage: payload.slippage as u32,
                timestamp: time,
            },
        ),
    }
}

/// Appends to `out` the records of every emitting instruction of `msg`, in
/// instruction order.
fn message_loans(msg: &Message, time: Option<u64>, out: &mut Vec<RainLoan>)
    ensures
        views_of(final (out)@) == views_of(old(out)@) + instruction_records(
            msg@,
            msg@.instructions,
            time,
        ),
{
    let n = msg.instructions.len();
    let mut j: usize = 0;
    proof {
        assert(views_of(out@) =~= views_of(out@) + instruction_records(
            msg@,
            msg@.instructions.take(0),
            time,
        ));
    }
    while j < n
        invariant
            n == msg.instructions@.len(),
            j <= n,
            views_of(out@) == views_of(old(out)@) + instruction_records(
                msg@,
                msg@.instructions.take(j as int),
                time,
            ),
        decreases n - j,
    {
        let ix = &msg.instructions[j];
        proof {
            assert(ix@ == msg@.instructions[j as int]);
        }
        let ghost prev = out@;
        match instruction_loan(msg, ix, time) {
            Some(loan) => {
                let ghost lv = loan@;
                out.push(loan);
                proof {
                    assert(views_of(out@) =~= views_of(prev) + seq![lv]);
                }
            },
            None => {},
        }
        proof {
            let ixs = msg@.instructions;
            assert(ixs.take(j as int + 1).drop_last() =~= ixs.take(j as int));
            assert(ixs.take(j as int + 1).last() == ixs[j as int]);
            assert(views_of(out@) =~= views_of(old(out)@) + instruction_records(
                msg@,
                ixs.take(j as int + 1),
                time,
            ));
        }
        j = j + 1;
    }
    proof {
        assert(msg@.instructions.take(n as int) =~= msg@.instructions);
    }
}

/// Single pass over the block: for each transaction that carries a message
/// referencing the target program, every instruction is classified, decoded
/// and resolved, and each success adds one record; every failure skips only
/// that instruction. The output is exactly [`block_records`], in
/// transaction-then-instruction order.
pub fn extract_loans(block: &Block, target: &Vec<u8>) -> (out: Vec<RainLoan>)
    ensures
        views_of(out@) == block_records(block@, target@),
{
    let mut out: Vec<RainLoan> = Vec::new();
    let n = block.transactions.len();
    let mut i: usize = 0;
    proof {
        assert(views_of(out@) =~= txs_records(
            block@.transactions.take(0),
            target@,
            block@.block_time,
        ));
    }
    while i < n
        invariant
            n == block.transactions@.len(),
            i <= n,
            views_of(out@) == txs_records(
                block@.transactions.take(i as int),
                target@,
                block@.block_time,
            ),
        decreases n - i,
    {
        let tx = &block.transactions[i];
        proof {
            assert(tx@ == block@.transactions[i as int]);
        }
        let ghost prev = out@;
        if transaction_references(tx, target) {
            match tx.message {
                Some(ref msg) => {
                    message_loans(msg, block.block_time, &mut out);
                    proof {
                        assert(tx@.message == Some(msg@));
                        assert(views_of(out@) =~= views_of(prev) + tx_records(
                            tx@,
                            target@,
                            block@.block_time,
                        ));
                    }
                },
                None => {
                    proof {
                        assert(false);
                    }
                },
            }
        } else {
            proof {
                assert(views_of(out@) =~= views_of(prev) + tx_records(
                    tx@,
                    target@,
                    block@.block_time,
                ));
            }
        }
        proof {
            let txs = block@.transactions;
            assert(txs.take(i as int + 1).drop_last() =~= txs.take(i as int));
            assert(txs.take(i as int + 1).last() == txs[i as int]);
            assert(views_of(out@) =~= txs_records(
                txs.take(i as int + 1),
                target@,
                block@.block_time,
            ));
        }
        i = i + 1;
    }
    proof {
        assert(block@.transactions.take(n as int) =~= block@.transactions);
    }
    out
}

/// Law: a transaction whose account keys do not reference the target program
/// contributes no records, whatever its instructions hold.
pub proof fn lemma_non_matching_contributes_nothing(
    tx: TransactionView,
    target: Seq<u8>,
    time: Option<u64>,
)
    requires
        !tx_references(tx, target),
    ensures
        tx_records(tx, target, time) == Seq::<RainLoanView>::empty(),
{
}

/// Law: a block none of whose transactions references the target yields an
/// empty record sequence.
pub proof fn lemma_no_match_yields_empty(b: BlockView, target: Seq<u8>)
    requires
        forall|i: int| 0 <= i < b.transactions.len() ==> !tx_references(
            #[trigger] b.transactions[i],
            target,
        ),
    ensures
        block_records(b, target) == Seq::<RainLoanView>::empty(),
{
    lemma_txs_records_no_match(b.transactions, target, b.block_time);
}

proof fn lemma_txs_records_no_match(txs: Seq<TransactionView>, target: Seq<u8>, time: Option<u64>)
    requires
        forall|i: int| 0 <= i < txs.len() ==> !tx_references(#[trigger] txs[i], target),
    ensures
        txs_records(txs, target, time) == Seq::<RainLoanView>::empty(),
    decreases txs.len(),
{
    if txs.len() > 0 {
        lemma_txs_records_no_match(txs.drop_last(), target, time);
        assert(!tx_references(txs.last(), target));
        assert(txs_records(txs, target, time) =~= Seq::<RainLoanView>::empty());
    }
}

/// Law: processing is order-preserving across transactions; splitting the
/// transaction sequence anywhere splits the record sequence at the matching
/// point.
pub proof fn lemma_txs_records_concat(
    txs1: Seq<TransactionView>,
    txs2: Seq<TransactionView>,
    target: Seq<u8>,
    time: Option<u64>,
)
    ensures
        txs_records(txs1 + txs2, target, time) == txs_records(txs1, target, time) + txs_records(
            txs2,
            target,
            time,
        ),
    decreases txs2.len(),
{
    if txs2.len() == 0 {
        assert(txs1 + txs2 =~= txs1);
        assert(txs_records(txs1, target, time) + txs_records(txs2, target, time) =~= txs_records(
            txs1,
            target,
            time,
        ));
    } else {
        lemma_txs_records_concat(txs1, txs2.drop_last(), target, time);
        assert((txs1 + txs2).drop_last() =~= txs1 + txs2.drop_last());
        assert((txs1 + txs2).last() == txs2.last());
        assert(txs_records(txs1 + txs2, target, time) =~= txs_records(txs1, target, time)
            + txs_records(txs2, target, time));
    }
}

/// Law: processing is order-preserving across instructions within one
/// message; splitting the instruction sequence anywhere splits the record
/// sequence at the matching point.
pub proof fn lemma_instruction_records_concat(
    msg: MessageView,
    ixs1: Seq<InstructionView>,
    ixs2: Seq<InstructionView>,
    time: Option<u64>,
)
    ensures
        instruction_records(msg, ixs1 + ixs2, time) == instruction_records(msg, ixs1, time)
            + instruction_records(msg, ixs2, time),
    decreases ixs2.len(),
{
    if ixs2.len() == 0 {
        assert(ixs1 + ixs2 =~= ixs1);
        assert(instruction_records(msg, ixs1, time) + instruction_records(msg, ixs2, time)
            =~= instruction_records(msg, ixs1, time));
    } else {
        lemma_instruction_records_concat(msg, ixs1, ixs2.drop_last(), time);
        assert((ixs1 + ixs2).drop_last() =~= ixs1 + ixs2.drop_last());
        assert((ixs1 + ixs2).last() == ixs2.last());
        assert(instruction_records(msg, ixs1 + ixs2, time) =~= instruction_records(msg, ixs1, time)
            + instruction_records(msg, ixs2, time));
    }
}

} // verus!
