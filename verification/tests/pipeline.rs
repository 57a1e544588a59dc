use rain_loans::assemble::extract_loans;
use rain_loans::b58::decode_address;
use rain_loans::emit::emit;
use rain_loans::emit::emit_line;
use rain_loans::emit::u64_to_dec;
use rain_loans::instruction::decode_take_loan;
use rain_loans::instruction::RainInstruction;
use rain_loans::model::Block;
use rain_loans::model::Instruction;
use rain_loans::model::Message;
use rain_loans::model::RainError;
use rain_loans::model::RainLoan;
use rain_loans::model::Transaction;
use rain_loans::process_block;
use rain_loans::resolve::resolve;
use rain_loans::RAIN_CONTRACT;

const DISCRIMINATOR: [u8; 8] = [153, 53, 51, 59, 222, 102, 52, 131];

fn take_loan_data(
    collection_id: u32,
    duration: u64,
    interest: u64,
    amount: u64,
    slippage: u16,
) -> Vec<u8> {
    let mut data = DISCRIMINATOR.to_vec();
    data.extend_from_slice(&collection_id.to_le_bytes());
    data.extend_from_slice(&duration.to_le_bytes());
    data.extend_from_slice(&interest.to_le_bytes());
    data.extend_from_slice(&amount.to_le_bytes());
    data.extend_from_slice(&slippage.to_le_bytes());
    data
}

fn key(tag: u8) -> Vec<u8> {
    let mut k = vec![tag; 32];
    k[0] = tag.wrapping_add(1);
    k
}

fn target_key() -> Vec<u8> {
    decode_address(RAIN_CONTRACT).ok().unwrap()
}

#[test]
fn unpack_empty_buffer_is_too_short() {
    let r = RainInstruction::unpack(&vec![]);
    assert!(matches!(r, Err(RainError::TooShort)));
}

#[test]
fn unpack_seven_bytes_is_too_short() {
    let r = RainInstruction::unpack(&vec![153, 53, 51, 59, 222, 102, 52]);
    assert!(matches!(r, Err(RainError::TooShort)));
}

#[test]
fn unpack_unknown_discriminator() {
    let r = RainInstruction::unpack(&vec![1, 2, 3, 4, 5, 6, 7, 8]);
    assert!(matches!(r, Err(RainError::UnknownInstruction)));
}

#[test]
fn unpack_almost_matching_discriminator() {
    let mut data = take_loan_data(7, 100, 5, 1000, 50);
    data[7] = data[7].wrapping_add(1);
    let r = RainInstruction::unpack(&data);
    assert!(matches!(r, Err(RainError::UnknownInstruction)));
}

#[test]
fn unpack_decodes_exact_little_endian_fields() {
    let data = take_loan_data(7, 100, 5, 1000, 50);
    assert_eq!(data.len(), 38);
    match RainInstruction::unpack(&data) {
        Ok(RainInstruction::TakeLoan(p)) => {
            assert_eq!(p.collection_id, 7);
            assert_eq!(p.duration, 100);
            assert_eq!(p.interest, 5);
            assert_eq!(p.amount, 1000);
            assert_eq!(p.slippage, 50);
        }
        _ => panic!("expected a TakeLoan instruction"),
    }
}

#[test]
fn unpack_round_trips_extreme_values() {
    let data = take_loan_data(u32::MAX, u64::MAX, 0, 1, u16::MAX);
    match RainInstruction::unpack(&data) {
        Ok(RainInstruction::TakeLoan(p)) => {
            assert_eq!(p.collection_id, u32::MAX);
            assert_eq!(p.duration, u64::MAX);
            assert_eq!(p.interest, 0);
            assert_eq!(p.amount, 1);
            assert_eq!(p.slippage, u16::MAX);
        }
        _ => panic!("expected a TakeLoan instruction"),
    }
}

#[test]
fn decode_multibyte_field_values() {
    // bytes chosen by hand: collection 0x04030201, duration 0x0807060504030201
    let rest: Vec<u8> = vec![
        1, 2, 3, 4, // collection_id
        1, 2, 3, 4, 5, 6, 7, 8, // duration
        0, 0, 0, 0, 0, 0, 0, 0, // interest
        255, 255, 255, 255, 255, 255, 255, 255, // amount
        0x34, 0x12, // slippage
    ];
    let p = decode_take_loan(&rest).ok().unwrap();
    assert_eq!(p.collection_id, 0x04030201);
    assert_eq!(p.duration, 0x0807060504030201);
    assert_eq!(p.interest, 0);
    assert_eq!(p.amount, u64::MAX);
    assert_eq!(p.slippage, 0x1234);
}

#[test]
fn unpack_truncated_payload_is_decode_error() {
    let mut data = take_loan_data(7, 100, 5, 1000, 50);
    data.pop();
    let r = RainInstruction::unpack(&data);
    assert!(matches!(r, Err(RainError::DecodeError)));
}

#[test]
fn unpack_discriminator_alone_is_decode_error() {
    let r = RainInstruction::unpack(&DISCRIMINATOR.to_vec());
    assert!(matches!(r, Err(RainError::DecodeError)));
}

#[test]
fn unpack_trailing_bytes_are_decode_error() {
    let mut data = take_loan_data(7, 100, 5, 1000, 50);
    data.push(0);
    let r = RainInstruction::unpack(&data);
    assert!(matches!(r, Err(RainError::DecodeError)));
}

#[test]
fn resolve_role_beyond_account_indices() {
    let msg = Message {
        account_keys: vec![key(1), key(2)],
        instructions: vec![],
    };
    let ix = Instruction {
        data: vec![],
        accounts: vec![0, 1],
    };
    let r = resolve(&msg, &ix, 8);
    assert!(matches!(r, Err(RainError::IndexOutOfRange)));
}

#[test]
fn resolve_account_index_beyond_key_table() {
    let msg = Message {
        account_keys: vec![key(1), key(2)],
        instructions: vec![],
    };
    let ix = Instruction {
        data: vec![],
        accounts: vec![0, 1, 2, 3, 4, 5, 6, 7, 9],
    };
    let r = resolve(&msg, &ix, 8);
    assert!(matches!(r, Err(RainError::AccountKeyMissing)));
}

#[test]
fn resolve_encodes_the_addressed_key() {
    let msg = Message {
        account_keys: vec![key(1), key(2)],
        instructions: vec![],
    };
    let ix = Instruction {
        data: vec![],
        accounts: vec![1],
    };
    let s = resolve(&msg, &ix, 0).ok().unwrap();
    assert_eq!(s, bs58::encode(key(2)).into_string());
    // the encoding is text, not the raw bytes handed back unchanged
    assert_ne!(s.as_bytes().to_vec(), key(2));
}

#[test]
fn decode_address_round_trips_through_bs58() {
    let t = target_key();
    assert_eq!(t.len(), 32);
    assert_eq!(t, bs58::decode(RAIN_CONTRACT).into_vec().unwrap());
    assert_eq!(bs58::encode(&t).into_string(), RAIN_CONTRACT);
}

#[test]
fn decode_address_rejects_invalid_base58() {
    // '0' is not in the base-58 alphabet
    let r = decode_address("0invalid");
    assert!(matches!(r, Err(RainError::InvalidAddress)));
}

#[test]
fn decode_address_rejects_wrong_length() {
    // valid base-58 text, but far too short for a 32-byte address
    let r = decode_address("abc");
    assert!(matches!(r, Err(RainError::InvalidAddress)));
}

fn instruction_with_accounts(data: Vec<u8>) -> Instruction {
    Instruction {
        data,
        // role 0 -> key 1 (loaner), role 8 -> key 2 (pool)
        accounts: vec![1, 0, 0, 0, 0, 0, 0, 0, 2],
    }
}

fn matching_block(time: Option<u64>, instructions: Vec<Instruction>) -> Block {
    Block {
        transactions: vec![Transaction {
            message: Some(Message {
                account_keys: vec![target_key(), key(10), key(20)],
                instructions,
            }),
        }],
        block_time: time,
    }
}

#[test]
fn end_to_end_single_loan() {
    let block = matching_block(
        Some(1_700_000_000),
        vec![instruction_with_accounts(take_loan_data(7, 100, 5, 1000, 50))],
    );
    let target = target_key();
    let loans = extract_loans(&block, &target);
    assert_eq!(loans.len(), 1);
    let loan = &loans[0];
    assert_eq!(loan.collection, 7);
    assert_eq!(loan.duration, 100);
    assert_eq!(loan.interest, 5);
    assert_eq!(loan.amount, 1000);
    assert_eq!(loan.slippage, 50);
    assert_eq!(loan.loaner, bs58::encode(key(10)).into_string());
    assert_eq!(loan.pool, bs58::encode(key(20)).into_string());
    assert_eq!(loan.timestamp, Some(1_700_000_000));
}

#[test]
fn end_to_end_lines_parse_as_json() {
    let block = matching_block(
        Some(1_700_000_000),
        vec![instruction_with_accounts(take_loan_data(7, 100, 5, 1000, 50))],
    );
    let lines = process_block(&block, RAIN_CONTRACT).ok().unwrap();
    assert_eq!(lines.len(), 1);
    let v: serde_json::Value = serde_json::from_str(&lines[0]).unwrap();
    assert_eq!(v["pool"], serde_json::Value::from(bs58::encode(key(20)).into_string()));
    assert_eq!(v["loaner"], serde_json::Value::from(bs58::encode(key(10)).into_string()));
    assert_eq!(v["collection"], serde_json::Value::from(7u32));
    assert_eq!(v["amount"], serde_json::Value::from(1000u64));
    assert_eq!(v["duration"], serde_json::Value::from(100u64));
    assert_eq!(v["interest"], serde_json::Value::from(5u64));
    assert_eq!(v["slippage"], serde_json::Value::from(50u32));
    assert_eq!(v["timestamp"], serde_json::Value::from(1_700_000_000u64));
}

#[test]
fn process_block_rejects_malformed_target() {
    let block = matching_block(None, vec![]);
    let r = process_block(&block, "not//a//valid//address");
    assert!(matches!(r, Err(RainError::InvalidAddress)));
}

#[test]
fn emitted_line_has_exact_shape() {
    let loan = RainLoan {
        pool: "P".to_owned(),
        loaner: "L".to_owned(),
        collection: 7,
        amount: 1000,
        duration: 100,
        interest: 5,
        slippage: 50,
        timestamp: Some(42),
    };
    let line = emit_line(&loan);
    assert_eq!(
        line,
        "{\"pool\":\"P\",\"loaner\":\"L\",\"collection\":7,\"amount\":1000,\
         \"duration\":100,\"interest\":5,\"slippage\":50,\"timestamp\":42}"
    );
}

#[test]
fn emitted_line_omits_absent_timestamp() {
    let loan = RainLoan {
        pool: "P".to_owned(),
        loaner: "L".to_owned(),
        collection: 0,
        amount: 0,
        duration: 0,
        interest: 0,
        slippage: 0,
        timestamp: None,
    };
    let line = emit_line(&loan);
    assert_eq!(
        line,
        "{\"pool\":\"P\",\"loaner\":\"L\",\"collection\":0,\"amount\":0,\
         \"duration\":0,\"interest\":0,\"slippage\":0}"
    );
}

#[test]
fn emit_keeps_length_and_order() {
    let mk = |amount: u64| RainLoan {
        pool: "P".to_owned(),
        loaner: "L".to_owned(),
        collection: 1,
        amount,
        duration: 2,
        interest: 3,
        slippage: 4,
        timestamp: None,
    };
    let lines = emit(&vec![mk(11), mk(22)]);
    assert_eq!(lines.len(), 2);
    assert!(lines[0].contains("\"amount\":11"));
    assert!(lines[1].contains("\"amount\":22"));
}

#[test]
fn decimal_writing_matches_std() {
    for n in [0u64, 1, 9, 10, 99, 100, 12345, u64::MAX] {
        assert_eq!(u64_to_dec(n), format!("{}", n));
    }
}

#[test]
fn non_matching_transaction_contributes_nothing() {
    // the same decodable instruction, but no account key equals the target
    let block = Block {
        transactions: vec![Transaction {
            message: Some(Message {
                account_keys: vec![key(10), key(20), key(30)],
                instructions: vec![instruction_with_accounts(take_loan_data(7, 100, 5, 1000, 50))],
            }),
        }],
        block_time: Some(1),
    };
    let loans = extract_loans(&block, &target_key());
    assert_eq!(loans.len(), 0);
}

#[test]
fn block_with_no_matches_yields_empty_lines() {
    let block = Block {
        transactions: vec![
            Transaction { message: None },
            Transaction {
                message: Some(Message {
                    account_keys: vec![key(1)],
                    instructions: vec![],
                }),
            },
        ],
        block_time: None,
    };
    let lines = process_block(&block, RAIN_CONTRACT).ok().unwrap();
    assert!(lines.is_empty());
}

#[test]
fn failing_instructions_do_not_abort_siblings() {
    let bad_short = Instruction { data: vec![1, 2, 3], accounts: vec![] };
    let bad_unknown = instruction_with_accounts(vec![0; 38]);
    let bad_truncated = instruction_with_accounts(take_loan_data(1, 1, 1, 1, 1)[..30].to_vec());
    let bad_role = Instruction {
        data: take_loan_data(9, 9, 9, 9, 9),
        accounts: vec![1, 0],
    };
    let bad_key = Instruction {
        data: take_loan_data(9, 9, 9, 9, 9),
        accounts: vec![1, 0, 0, 0, 0, 0, 0, 0, 200],
    };
    let good = instruction_with_accounts(take_loan_data(7, 100, 5, 1000, 50));
    let block = matching_block(
        None,
        vec![bad_short, bad_unknown, bad_truncated, bad_role, bad_key, good],
    );
    let loans = extract_loans(&block, &target_key());
    assert_eq!(loans.len(), 1);
    assert_eq!(loans[0].collection, 7);
    assert_eq!(loans[0].timestamp, None);
}

#[test]
fn records_keep_transaction_then_instruction_order() {
    let tx = |amounts: &[u64]| Transaction {
        message: Some(Message {
            account_keys: vec![target_key(), key(10), key(20)],
            instructions: amounts
                .iter()
                .map(|&a| instruction_with_accounts(take_loan_data(1, 2, 3, a, 4)))
                .collect(),
        }),
    };
    let block = Block {
        transactions: vec![tx(&[11, 22]), Transaction { message: None }, tx(&[33])],
        block_time: Some(5),
    };
    let loans = extract_loans(&block, &target_key());
    let amounts: Vec<u64> = loans.iter().map(|l| l.amount).collect();
    assert_eq!(amounts, vec![11, 22, 33]);
}
