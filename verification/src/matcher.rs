//! Program address matching: whether a transaction's account-key table
//! contains the target program's raw address.
use vstd::prelude::*;

use crate::model::Message;
use crate::model::MessageView;
use crate::model::Transaction;
use crate::model::TransactionView;

verus! {

/// The message's account-key table contains the target address verbatim.
pub open spec fn message_references(msg: MessageView, target: Seq<u8>) -> bool {
    exists|i: int| 0 <= i < msg.account_keys.len() && #[trigger] msg.account_keys[i] == target
}

/// The transaction carries a message whose account keys contain the target.
pub open spec fn tx_references(tx: TransactionView, target: Seq<u8>) -> bool {
    match tx.message {
        Some(m) => message_references(m, target),
        None => false,
    }
}

/// Byte-for-byte equality of two buffers.
fn bytes_eq(a: &Vec<u8>, b: &Vec<u8>) -> (r: bool)
    ensures
        r == (a@ == b@),
{
    if a.len() != b.len() {
        return false;
    }
    let mut i: usize = 0;
    while i < a.len()
        invariant
            a@.len() == b@.len(),
            i <= a@.len(),
            forall|j: int| 0 <= j < i ==> a@[j] == b@[j],
        decreases a@.len() - i,
    {
        if a[i] != b[i] {
            return false;
        }
        i = i + 1;
    }
    proof {
        assert(a@ =~= b@);
    }
    true
}

/// Returns whether `target` appears verbatim in the message's account-key
/// sequence.
pub fn message_references_exec(msg: &Message, target: &Vec<u8>) -> (r: bool)
    ensures
        r == message_references(msg@, target@),
{
    let n = msg.account_keys.len();
    let mut i: usize = 0;
    while i < n
        invariant
            n == msg.account_keys@.len(),
            i <= n,
            forall|j: int| 0 <= j < i ==> msg.account_keys@[j]@ != target@,
        decreases n - i,
    {
        if bytes_eq(&msg.account_keys[i], target) {
            proof {
                assert(msg@.account_keys[i as int] == target@);
            }
            return true;
        }
        i = i + 1;
    }
    proof {
        assert(forall|j: int| 0 <= j < msg@.account_keys.len() ==> msg@.account_keys[j] != target@);
    }
    false
}

/// Returns whether `target` appears verbatim in the transaction's
/// account-key sequence; a transaction without a message references nothing.
pub fn transaction_references(tx: &Transaction, target: &Vec<u8>) -> (r: bool)
    ensures
        r == tx_references(tx@, target@),
{
    match tx.message {
        None => false,
        Some(ref msg) => message_references_exec(msg, target),
    }
}

} // verus!
