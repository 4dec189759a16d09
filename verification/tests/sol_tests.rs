use alloy_primitives::{keccak256, Address, Bytes, FixedBytes, U256};
use alloy_sol_types::{sol_data, SolType};
use insolvent_detect_signal::sol::{DecodeError, TornadoCashSol, WithdrawCall};

type Arguments = (
    sol_data::Address,
    sol_data::Bytes,
    sol_data::FixedBytes<32>,
    sol_data::FixedBytes<32>,
    sol_data::Address,
    sol_data::Address,
    sol_data::Uint<256>,
    sol_data::Uint<256>,
);

const SELECTOR: [u8; 4] = [0xb4, 0x38, 0x68, 0x9f];

fn sample_call(proof_len: usize) -> WithdrawCall {
    WithdrawCall {
        tornado: (1..=20).collect(),
        proof: (0..proof_len).map(|i| (i % 251) as u8).collect(),
        root: (32..64).collect(),
        nullifier_hash: (64..96).collect(),
        recipient: (101..=120).collect(),
        relayer: (201..=220).collect(),
        fee: (128..160).collect(),
        refund: (160..192).collect(),
    }
}

fn encode(call: &WithdrawCall) -> Vec<u8> {
    let mut data = SELECTOR.to_vec();
    data.extend(Arguments::abi_encode_sequence(&(
        Address::from_slice(&call.tornado),
        Bytes::copy_from_slice(&call.proof),
        FixedBytes::<32>::from_slice(&call.root),
        FixedBytes::<32>::from_slice(&call.nullifier_hash),
        Address::from_slice(&call.recipient),
        Address::from_slice(&call.relayer),
        U256::from_be_slice(&call.fee),
        U256::from_be_slice(&call.refund),
    )));
    data
}

/// What the reference decoder makes of the arguments, in this crate's
/// terms.
fn reference_decode(data: &[u8]) -> Result<WithdrawCall, DecodeError> {
    let body = match data.strip_prefix(&SELECTOR) {
        Some(body) => body,
        None => return Err(DecodeError::SelectorMismatch),
    };
    match Arguments::abi_decode_sequence(body, false) {
        Ok((tornado, proof, root, nullifier_hash, recipient, relayer, fee, refund)) => {
            Ok(WithdrawCall {
                tornado: tornado.to_vec(),
                proof: proof.to_vec(),
                root: root.to_vec(),
                nullifier_hash: nullifier_hash.to_vec(),
                recipient: recipient.to_vec(),
                relayer: relayer.to_vec(),
                fee: fee.to_be_bytes::<32>().to_vec(),
                refund: refund.to_be_bytes::<32>().to_vec(),
            })
        }
        Err(_) => Err(DecodeError::Overrun),
    }
}

#[test]
fn selector_is_the_hash_of_the_signature() {
    let hash = keccak256(
        "withdraw(address,bytes,bytes32,bytes32,address,address,uint256,uint256)".as_bytes(),
    );
    assert_eq!(&hash[..4], &SELECTOR[..]);
    // The decoder goes by the same four bytes.
    let data = encode(&sample_call(0));
    assert!(TornadoCashSol::decode(&data).is_ok());
}

#[test]
fn decodes_what_was_encoded() {
    for proof_len in [0usize, 1, 31, 32, 33, 64, 256, 1000] {
        let call = sample_call(proof_len);
        let data = encode(&call);
        assert_eq!(TornadoCashSol::decode(&data), Ok(call));
    }
}

#[test]
fn decodes_each_field_from_its_place() {
    let call = sample_call(5);
    let data = encode(&call);
    // selector, eight head words, the length word, one padded word of bytes
    assert_eq!(data.len(), 4 + 8 * 32 + 32 + 32);
    let decoded = TornadoCashSol::decode(&data).unwrap();
    assert_eq!(decoded.tornado, data[4 + 12..4 + 32].to_vec());
    assert_eq!(decoded.root, data[4 + 64..4 + 96].to_vec());
    assert_eq!(decoded.nullifier_hash, data[4 + 96..4 + 128].to_vec());
    assert_eq!(decoded.recipient, data[4 + 128 + 12..4 + 160].to_vec());
    assert_eq!(decoded.relayer, data[4 + 160 + 12..4 + 192].to_vec());
    assert_eq!(decoded.fee, data[4 + 192..4 + 224].to_vec());
    assert_eq!(decoded.refund, data[4 + 224..4 + 256].to_vec());
    assert_eq!(decoded.proof, data[4 + 256 + 32..4 + 256 + 32 + 5].to_vec());
    assert_eq!(decoded.proof, vec![0, 1, 2, 3, 4]);
}

#[test]
fn rejects_another_selector() {
    let mut data = encode(&sample_call(3));
    data[3] ^= 1;
    assert_eq!(TornadoCashSol::decode(&data), Err(DecodeError::SelectorMismatch));
    assert_eq!(TornadoCashSol::decode(&[]), Err(DecodeError::SelectorMismatch));
    assert_eq!(TornadoCashSol::decode(&[0xb4, 0x38, 0x68]), Err(DecodeError::SelectorMismatch));
    // a plain transfer's input
    assert_eq!(
        TornadoCashSol::decode(&[0xa9, 0x05, 0x9c, 0xbb, 0, 0, 0, 0]),
        Err(DecodeError::SelectorMismatch)
    );
}

#[test]
fn rejects_truncated_arguments() {
    let data = encode(&sample_call(40));
    assert_eq!(TornadoCashSol::decode(&SELECTOR), Err(DecodeError::Overrun));
    assert_eq!(TornadoCashSol::decode(&data[..4 + 255]), Err(DecodeError::Overrun));
    // the head is whole, the length word is missing
    assert_eq!(TornadoCashSol::decode(&data[..4 + 256]), Err(DecodeError::Overrun));
    assert_eq!(TornadoCashSol::decode(&data[..4 + 256 + 31]), Err(DecodeError::Overrun));
    // the length word is there, the bytes are short by one
    assert_eq!(TornadoCashSol::decode(&data[..4 + 256 + 32 + 39]), Err(DecodeError::Overrun));
    // the bytes are there; their padding is not asked for
    let unpadded = &data[..4 + 256 + 32 + 40];
    assert_eq!(TornadoCashSol::decode(unpadded), Ok(sample_call(40)));
}

#[test]
fn reads_addresses_and_lengths_leniently() {
    let call = sample_call(2);
    let mut data = encode(&call);
    // bytes before an address are not looked at
    data[4] = 0xff;
    data[4 + 128 + 11] = 0x01;
    // nor are the first 24 bytes of a position or a length
    data[4 + 32] = 0xff;
    data[4 + 256 + 23] = 0x7f;
    // nor what follows the last argument
    data.extend([0xee; 7]);
    assert_eq!(TornadoCashSol::decode(&data), Ok(call));
}

#[test]
fn rejects_positions_and_lengths_beyond_the_data() {
    let data = encode(&sample_call(2));
    let mut far = data.clone();
    far[4 + 63] = 0xff;
    far[4 + 62] = 0xff;
    assert_eq!(TornadoCashSol::decode(&far), Err(DecodeError::Overrun));
    let mut long = data.clone();
    long[4 + 256 + 31] = 0xff;
    assert_eq!(TornadoCashSol::decode(&long), Err(DecodeError::Overrun));
    let mut huge = data.clone();
    for i in 24..32 {
        huge[4 + 32 + i] = 0xff;
    }
    assert_eq!(TornadoCashSol::decode(&huge), Err(DecodeError::Overrun));
}

#[test]
fn follows_the_position_of_the_bytes() {
    // The bytes may stand anywhere after the selector, also inside the head.
    let mut data = encode(&sample_call(0));
    // position 0: the length word is the first word, the pool's address
    data[4 + 63] = 0;
    data[4 + 62] = 0;
    for i in 0..32 {
        data[4 + i] = 0;
    }
    data[4 + 31] = 3;
    let decoded = TornadoCashSol::decode(&data).unwrap();
    assert_eq!(decoded.proof, data[4 + 32..4 + 35].to_vec());
    assert_eq!(reference_decode(&data), Ok(decoded));
}

#[test]
fn agrees_with_the_reference_decoder() {
    let mut cases: Vec<Vec<u8>> = Vec::new();
    for proof_len in [0usize, 7, 32, 100] {
        let data = encode(&sample_call(proof_len));
        for cut in [0usize, 3, 4, 5, 36, 259, 260, 261, 291, 292, 293] {
            if cut <= data.len() {
                cases.push(data[..cut].to_vec());
            }
        }
        for drop in 0..40usize {
            if drop <= data.len() {
                cases.push(data[..data.len() - drop].to_vec());
            }
        }
        for at in [0usize, 3, 4, 15, 16, 35, 36, 59, 60, 66, 67, 100, 263, 284, 290, 291] {
            for mask in [0x01u8, 0x80, 0xff] {
                if at < data.len() {
                    let mut changed = data.clone();
                    changed[at] ^= mask;
                    cases.push(changed);
                }
            }
        }
        cases.push(data);
    }
    assert!(cases.len() > 300);
    for case in cases {
        assert_eq!(TornadoCashSol::decode(&case), reference_decode(&case));
    }
}

/// A small generator of numbers that looks random and always gives the
/// same run.
fn next(state: &mut u64) -> usize {
    *state = state.wrapping_mul(6364136223846793005).wrapping_add(1442695040888963407);
    (*state >> 33) as usize
}

#[test]
fn agrees_with_the_reference_decoder_on_damaged_data() {
    let mut state: u64 = 0x5eed;
    let mut accepted = 0;
    let mut rejected = 0;
    for round in 0..4000 {
        let mut data = encode(&sample_call(round % 70));
        // Damage up to three bytes, mostly where the decoder looks.
        for _ in 0..next(&mut state) % 4 {
            let at = if next(&mut state) % 2 == 0 {
                next(&mut state) % data.len()
            } else {
                4 + 32 + 24 + next(&mut state) % 8
            };
            let values = [0x00, 0x01, 0x20, 0x40, 0x7f, 0x80, 0xff, next(&mut state) as u8];
            data[at] = values[next(&mut state) % values.len()];
        }
        if next(&mut state) % 3 == 0 {
            let keep = next(&mut state) % (data.len() + 1);
            data.truncate(keep);
        }
        let mine = TornadoCashSol::decode(&data);
        assert_eq!(mine, reference_decode(&data), "round {}", round);
        if mine.is_ok() {
            accepted += 1;
        } else {
            rejected += 1;
        }
    }
    assert!(accepted > 500, "{}", accepted);
    assert!(rejected > 500, "{}", rejected);
}
