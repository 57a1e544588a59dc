//! Record emission: each assembled record becomes one self-contained,
//! field-keyed text line. The address fields hold base-58 text, whose
//! characters never need escaping, so the line is plain concatenation; the
//! numeric fields are written in decimal. A pure format adapter: length and
//! order of the output match the input exactly.
use vstd::prelude::*;

use vstd::string::StringExecFns;

use crate::model::RainLoan;
use crate::model::RainLoanView;

verus! {

/// The character of one decimal digit.
pub open spec fn dec_digit(d: nat) -> char
    recommends
        d < 10,
{
    if d == 0 {
        '0'
    } else if d == 1 {
        '1'
    } else if d == 2 {
        '2'
    } else if d == 3 {
        '3'
    } else if d == 4 {
        '4'
    } else if d == 5 {
        '5'
    } else if d == 6 {
        '6'
    } else if d == 7 {
        '7'
    } else if d == 8 {
        '8'
    } else {
        '9'
    }
}

/// The decimal writing of a number: most significant digit first, no sign,
/// no leading zero except for the number zero itself.
pub open spec fn dec_str(n: nat) -> Seq<char>
    decreases n,
{
    if n < 10 {
        seq![dec_digit(n)]
    } else {
        dec_str(n / 10) + seq![dec_digit(n % 10)]
    }
}

/// The one-character text of a decimal digit.
fn digit_str(d: u64) -> (r: &'static str)
    requires
        d < 10,
    ensures
        r@ == seq![dec_digit(d as nat)],
{
    if d == 0 {
        proof {
            reveal_strlit("0");
            assert("0"@ =~= seq![dec_digit(0)]);
        }
        "0"
    } else if d == 1 {
        proof {
            reveal_strlit("1");
            assert("1"@ =~= seq![dec_digit(1)]);
        }
        "1"
    } else if d == 2 {
        proof {
            reveal_strlit("2");
            assert("2"@ =~= seq![dec_digit(2)]);
        }
        "2"
    } else if d == 3 {
        proof {
            reveal_strlit("3");
            assert("3"@ =~= seq![dec_digit(3)]);
        }
        "3"
    } else if d == 4 {
        proof {
            reveal_strlit("4");
            assert("4"@ =~= seq![dec_digit(4)]);
        }
        "4"
    } else if d == 5 {
        proof {
            reveal_strlit("5");
            assert("5"@ =~= seq![dec_digit(5)]);
        }
        "5"
    } else if d == 6 {
        proof {
            reveal_strlit("6");
            assert("6"@ =~= seq![dec_digit(6)]);
        }
        "6"
    } else if d == 7 {
        proof {
            reveal_strlit("7");
            assert("7"@ =~= seq![dec_digit(7)]);
        }
        "7"
    } else if d == 8 {
        proof {
            reveal_strlit("8");
            assert("8"@ =~= seq![dec_digit(8)]);
        }
        "8"
    } else {
        proof {
            reveal_strlit("9");
            assert("9"@ =~= seq![dec_digit(9)]);
        }
        "9"
    }
}

/// Writes a number in decimal.
pub fn u64_to_dec(n: u64) -> (s: String)
    ensures
        s@ == dec_str(n as nat),
    decreases n,
{
    if n < 10 {
        digit_str(n).to_owned()
    } else {
        let mut s = u64_to_dec(n / 10);
        s.append(digit_str(n % 10));
        s
    }
}

/// The text line for one record: the fields in declared order under their
/// keys, `timestamp` present exactly when the record carries one.
pub open spec fn line_of(r: RainLoanView) -> Seq<char> {
    "{\"pool\":\""@ + r.pool + "\",\"loaner\":\""@ + r.loaner + "\",\"collection\":"@ + dec_str(
        r.collection as nat,
    ) + ",\"amount\":"@ + dec_str(r.amount as nat) + ",\"duration\":"@ + dec_str(r.duration as nat)
        + ",\"interest\":"@ + dec_str(r.interest as nat) + ",\"slippage\":"@ + dec_str(
        r.slippage as nat,
    ) + (match r.timestamp {
        Some(t) => ",\"timestamp\":"@ + dec_str(t as nat),
        None => Seq::<char>::empty(),
    }) + "}"@
}

/// Formats one record as its text line.
pub fn emit_line(r: &RainLoan) -> (s: String)
    ensures
        s@ == line_of(r@),
{
    let mut s = "{\"pool\":\"".to_owned();
    s.append(r.pool.as_str());
    s.append("\",\"loaner\":\"");
    s.append(r.loaner.as_str());
    s.append("\",\"collection\":");
    let collection = u64_to_dec(r.collection as u64);
    s.append(collection.as_str());
    s.append(",\"amount\":");
    let amount = u64_to_dec(r.amount);
    s.append(amount.as_str());
    s.append(",\"duration\":");
    let duration = u64_to_dec(r.duration);
    s.append(duration.as_str());
    s.append(",\"interest\":");
    let interest = u64_to_dec(r.interest);
    s.append(interest.as_str());
    s.append(",\"slippage\":");
    let slippage = u64_to_dec(r.slippage as u64);
    s.append(slippage.as_str());
    match r.timestamp {
        Some(t) => {
            s.append(",\"timestamp\":");
            let timestamp = u64_to_dec(t);
            s.append(timestamp.as_str());
        },
        None => {},
    }
    s.append("}");
    proof {
        assert(s@ =~= line_of(r@));
    }
    s
}

/// Serializes the records, one line each, keeping length and order.
pub fn emit(records: &Vec<RainLoan>) -> (lines: Vec<String>)
    ensures
        lines@.len() == records@.len(),
        forall|i: int| 0 <= i < records@.len() ==> lines@[i]@ == line_of(records@[i]@),
{
    let mut lines: Vec<String> = Vec::new();
    let n = records.len();
    let mut i: usize = 0;
    while i < n
        invariant
            n == records@.len(),
            i <= n,
            lines@.len() == i,
            forall|k: int| 0 <= k < i ==> lines@[k]@ == line_of(records@[k]@),
        decreases n - i,
    {
        lines.push(emit_line(&records[i]));
        i = i + 1;
    }
    lines
}

} // verus!
