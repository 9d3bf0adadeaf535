use r55::bytes::{u32_from_be_bytes, u32_to_be_bytes, u64_from_be_bytes, u64_to_be_bytes, u64_to_le_bytes};
use r55::codec::{
    craft_init_code, decode_init_code, encode_init_code, is_riscv_initcode, HOST_TRAILING_WORD,
};

#[test]
fn init_code_round_trip() {
    let runtime = vec![0xffu8, 0x7f, b'E', b'L', b'F', 1, 2, 3];
    let args = vec![0u8, 0, 0, 42];
    let init_code = encode_init_code(&runtime, &args);
    assert_eq!(
        init_code,
        vec![0xff, 0, 0, 0, 8, 0xff, 0x7f, b'E', b'L', b'F', 1, 2, 3, 0, 0, 0, 42]
    );
    assert_eq!(decode_init_code(&init_code, 0), Some((runtime.clone(), args.clone())));
    let mut padded = init_code.clone();
    padded.extend_from_slice(&[0u8; 32]);
    assert_eq!(decode_init_code(&padded, HOST_TRAILING_WORD), Some((runtime, args)));
}

#[test]
fn init_code_without_arguments() {
    let init_code = encode_init_code(&[1, 2, 3], &[]);
    assert_eq!(init_code, vec![0xff, 0, 0, 0, 3, 1, 2, 3]);
    assert_eq!(decode_init_code(&init_code, 0), Some((vec![1, 2, 3], vec![])));
    let empty = encode_init_code(&[], &[]);
    assert_eq!(empty, vec![0xff, 0, 0, 0, 0]);
    assert_eq!(decode_init_code(&empty, 0), Some((vec![], vec![])));
}

#[test]
fn the_length_is_written_big_endian() {
    let runtime = vec![5u8; 0x0102];
    let init_code = encode_init_code(&runtime, &[7]);
    assert_eq!(&init_code[0..5], &[0xff, 0, 0, 1, 2]);
    assert_eq!(init_code.len(), 5 + 0x0102 + 1);
    assert_eq!(decode_init_code(&init_code, 0), Some((runtime, vec![7])));
}

#[test]
fn what_is_no_frame_is_not_decoded() {
    assert_eq!(decode_init_code(&[], 0), None);
    assert_eq!(decode_init_code(&[0xff, 0, 0, 0], 0), None);
    assert_eq!(decode_init_code(&[0xfe, 0, 0, 0, 0], 0), None);
    assert_eq!(decode_init_code(&[0xff, 0, 0, 0, 2, 1], 0), None);
    assert_eq!(decode_init_code(&[0xff, 0xff, 0xff, 0xff, 0xff, 1], 0), None);
    assert_eq!(decode_init_code(&[0xff, 0, 0, 0, 1, 1, 2], 2), None);
    assert_eq!(decode_init_code(&[0xff, 0, 0, 0, 1, 1, 2], 1), Some((vec![1], vec![])));
}

#[test]
fn only_marked_bytecode_is_framed() {
    assert!(is_riscv_initcode(&[0xff]));
    assert!(!is_riscv_initcode(&[]));
    assert!(!is_riscv_initcode(&[0x60, 0xff]));
    assert_eq!(
        craft_init_code(vec![0xff, 1], Some(vec![2, 3])),
        vec![0xff, 0, 0, 0, 2, 0xff, 1, 2, 3]
    );
    assert_eq!(craft_init_code(vec![0xff, 1], None), vec![0xff, 0, 0, 0, 2, 0xff, 1]);
    assert_eq!(craft_init_code(vec![0x60, 0x80], Some(vec![2, 3])), vec![0x60, 0x80]);
    assert_eq!(craft_init_code(vec![], Some(vec![2, 3])), vec![]);
}

#[test]
fn numbers_as_bytes() {
    assert_eq!(u32_to_be_bytes(0x0102_0304), vec![1, 2, 3, 4]);
    assert_eq!(u32_from_be_bytes(&[9, 1, 2, 3, 4], 1), 0x0102_0304);
    assert_eq!(u32_from_be_bytes(&[0xff, 0xff, 0xff, 0xff], 0), u32::MAX);
    assert_eq!(u64_to_le_bytes(0x0102_0304_0506_0708), vec![8, 7, 6, 5, 4, 3, 2, 1]);
    assert_eq!(u64_to_be_bytes(0x0102_0304_0506_0708), vec![1, 2, 3, 4, 5, 6, 7, 8]);
    assert_eq!(u64_to_be_bytes(u64::MAX), vec![0xff; 8]);
    assert_eq!(u64_from_be_bytes(&[1, 2, 3, 4, 5, 6, 7, 8], 0), 0x0102_0304_0506_0708);
    assert_eq!(u64_to_le_bytes(0), vec![0; 8]);
}
