use parity_scale_codec::{Decode, Encode};
use polkadot_parachain::primitives::{
    HeadData, UpwardMessages, HorizontalMessages, ValidationCode, ValidationParams,
    ValidationResult,
};
use pvf_harness::error::HarnessError;
use pvf_harness::wire::{
    decode_validation_result, encode_validation_params, relay_parent_number, ValidationOutput,
};

fn result_bytes(head: Vec<u8>, code: Option<Vec<u8>>, processed: u32, watermark: u32) -> Vec<u8> {
    ValidationResult {
        head_data: HeadData(head),
        new_validation_code: code.map(ValidationCode),
        upward_messages: UpwardMessages::default(),
        horizontal_messages: HorizontalMessages::default(),
        processed_downward_messages: processed,
        hrmp_watermark: watermark,
    }
    .encode()
}

#[test]
fn relay_parent_number_is_one_more_than_the_low_word() {
    assert_eq!(relay_parent_number(0), 1);
    assert_eq!(relay_parent_number(41), 42);
    assert_eq!(relay_parent_number(0xFFFF_FFFE), u32::MAX);
    assert_eq!(relay_parent_number(0x1_0000_0000), 1);
    assert_eq!(relay_parent_number(0x7_0000_0005), 6);
}

#[test]
fn params_of_an_adder_cycle_have_their_exact_bytes() {
    let head: Vec<u8> = (0u8..72).collect();
    let block: Vec<u8> = (100u8..116).collect();
    let mut expected: Vec<u8> = vec![0x21, 0x01];
    expected.extend_from_slice(&head);
    expected.push(0x40);
    expected.extend_from_slice(&block);
    expected.extend_from_slice(&[0x08, 0x00, 0x00, 0x00]);
    expected.extend_from_slice(&[0u8; 32]);
    assert_eq!(expected.len(), 127);
    assert_eq!(encode_validation_params(head, block, 7), expected);
}

#[test]
fn params_with_empty_payloads() {
    let mut expected: Vec<u8> = vec![0x00, 0x00, 0x01, 0x00, 0x00, 0x00];
    expected.extend_from_slice(&[0u8; 32]);
    assert_eq!(encode_validation_params(Vec::new(), Vec::new(), 0), expected);
}

#[test]
fn params_write_lengths_in_compact_form() {
    let cases: [(usize, Vec<u8>); 7] = [
        (1, vec![0x04]),
        (63, vec![0xFC]),
        (64, vec![0x01, 0x01]),
        (16383, vec![0xFD, 0xFF]),
        (16384, vec![0x02, 0x00, 0x01, 0x00]),
        (65536, vec![0x02, 0x00, 0x04, 0x00]),
        (1_000_000, vec![0x02, 0x09, 0x3D, 0x00]),
    ];
    for (length, prefix) in cases.iter() {
        let head = vec![0x5Au8; *length];
        let block = vec![0xA5u8; 3];
        let mut expected = prefix.clone();
        expected.extend_from_slice(&head);
        expected.push(0x0C);
        expected.extend_from_slice(&block);
        expected.extend_from_slice(&[0x78, 0x56, 0x34, 0x12]);
        expected.extend_from_slice(&[0u8; 32]);
        assert_eq!(encode_validation_params(head, block, 0x1234_5677), expected);
    }
}

#[test]
fn params_write_a_block_length_in_compact_form() {
    let block = vec![7u8; 300];
    let mut expected: Vec<u8> = vec![0x08, 1, 2, 0xB1, 0x04];
    expected.extend_from_slice(&block);
    expected.extend_from_slice(&[0xFF, 0xFF, 0xFF, 0xFF]);
    expected.extend_from_slice(&[0u8; 32]);
    assert_eq!(encode_validation_params(vec![1, 2], block, 0xFFFF_FFFE), expected);
}

#[test]
fn params_are_read_back_by_the_codec() {
    let head: Vec<u8> = (0u8..72).collect();
    let block: Vec<u8> = (0u8..16).collect();
    let bytes = encode_validation_params(head.clone(), block.clone(), 0x2_0000_0009);
    let params = ValidationParams::decode(&mut &bytes[..]).unwrap();
    assert_eq!(params.parent_head.0, head);
    assert_eq!(params.block_data.0, block);
    assert_eq!(params.relay_parent_number, 10);
    assert_eq!(params.relay_parent_storage_root.as_bytes(), &[0u8; 32]);
}

#[test]
fn result_decodes_to_its_head_data() {
    let head: Vec<u8> = (0u8..72).collect();
    let bytes = result_bytes(head.clone(), None, 0, 0);
    assert_eq!(decode_validation_result(&bytes), Ok(ValidationOutput { head_data: head }));
}

#[test]
fn result_with_code_and_counters_decodes_to_its_head_data() {
    let bytes = result_bytes(vec![9, 8, 7], Some(vec![1, 2, 3, 4]), 5, 77);
    assert_eq!(
        decode_validation_result(&bytes),
        Ok(ValidationOutput { head_data: vec![9, 8, 7] })
    );
    let empty_head = result_bytes(Vec::new(), None, 1, 2);
    assert_eq!(
        decode_validation_result(&empty_head),
        Ok(ValidationOutput { head_data: Vec::new() })
    );
}

#[test]
fn result_from_written_out_bytes() {
    let bytes: Vec<u8> = vec![0x08, 0xAB, 0xCD, 0x00, 0x00, 0x00, 0, 0, 0, 0, 0, 0, 0, 0];
    assert_eq!(
        decode_validation_result(&bytes),
        Ok(ValidationOutput { head_data: vec![0xAB, 0xCD] })
    );
}

#[test]
fn bytes_after_the_result_do_not_count() {
    let mut bytes = result_bytes(vec![1, 2, 3], None, 0, 0);
    bytes.extend_from_slice(&[0xFF, 0xFF, 0xFF]);
    assert_eq!(
        decode_validation_result(&bytes),
        Ok(ValidationOutput { head_data: vec![1, 2, 3] })
    );
}

#[test]
fn malformed_result_is_a_decode_error() {
    assert_eq!(decode_validation_result(&[]), Err(HarnessError::DecodeError));
    assert_eq!(decode_validation_result(&[0x08, 0xAB]), Err(HarnessError::DecodeError));
    let whole = result_bytes(vec![1, 2, 3], None, 4, 5);
    for cut in 0..whole.len() {
        assert_eq!(decode_validation_result(&whole[..cut]), Err(HarnessError::DecodeError));
    }
    assert_eq!(
        decode_validation_result(&[0x04, 0x01, 0x02, 0, 0, 0, 0, 0, 0, 0, 0, 0, 0]),
        Err(HarnessError::DecodeError)
    );
}

fn compact(length: usize) -> Vec<u8> {
    let n = length as u32;
    if n < 0x40 {
        vec![(n << 2) as u8]
    } else if n < 0x4000 {
        (((n << 2) | 1) as u16).to_le_bytes().to_vec()
    } else if n < 0x4000_0000 {
        ((n << 2) | 2).to_le_bytes().to_vec()
    } else {
        let mut bytes = vec![3u8];
        bytes.extend_from_slice(&n.to_le_bytes());
        bytes
    }
}

#[test]
fn params_have_the_stated_layout_at_every_width_of_length() {
    let lengths: [usize; 12] = [0, 1, 62, 63, 64, 65, 255, 256, 16382, 16383, 16384, 70_000];
    let numbers: [u64; 4] = [0, 0xFF, 0xFFFF_FFFE, 0xABCD_0000_0102_0304];
    for (i, &head_length) in lengths.iter().enumerate() {
        for (j, &block_length) in lengths.iter().enumerate() {
            let head: Vec<u8> = (0..head_length).map(|k| (k % 251) as u8).collect();
            let block: Vec<u8> = (0..block_length).map(|k| (k % 13) as u8 + 1).collect();
            let number = numbers[(i + j) % numbers.len()];
            let mut expected = compact(head_length);
            expected.extend_from_slice(&head);
            expected.extend_from_slice(&compact(block_length));
            expected.extend_from_slice(&block);
            expected.extend_from_slice(&((number as u32) + 1).to_le_bytes());
            expected.extend_from_slice(&[0u8; 32]);
            assert_eq!(encode_validation_params(head, block, number), expected);
        }
    }
}
