use oshash::digest::{accumulate, digit_text, format_digest, read_word, to_uint64};
use oshash::digest::{CHUNK_SIZE, MIN_FILE_SIZE};

#[test]
fn window_size_and_minimum_length() {
    assert_eq!(CHUNK_SIZE, 65536);
    assert_eq!(MIN_FILE_SIZE, 2 * 65536);
}

#[test]
fn word_is_little_endian() {
    let bytes = [1u8, 2, 3, 4, 5, 6, 7, 8];
    assert_eq!(read_word(&bytes, 0), 0x0807_0605_0403_0201);
}

#[test]
fn word_is_taken_at_its_index() {
    let mut bytes = vec![0u8; 24];
    bytes[8] = 0x2a;
    bytes[23] = 0x80;
    assert_eq!(read_word(&bytes, 0), 0);
    assert_eq!(read_word(&bytes, 1), 0x2a);
    assert_eq!(read_word(&bytes, 2), 0x8000_0000_0000_0000);
}

#[test]
fn word_agrees_with_from_le_bytes() {
    let bytes = [0xffu8, 0x00, 0x12, 0x34, 0x56, 0x78, 0x9a, 0xbc];
    assert_eq!(read_word(&bytes, 0), u64::from_le_bytes(bytes));
}

#[test]
fn mask_leaves_the_accumulator() {
    let mut hash = 0xdead_beef_0123_4567u64;
    to_uint64(&mut hash);
    assert_eq!(hash, 0xdead_beef_0123_4567);
    let mut top = u64::MAX;
    to_uint64(&mut top);
    assert_eq!(top, u64::MAX);
}

#[test]
fn accumulate_adds_each_word() {
    let mut window = vec![0u8; 16];
    window[0] = 5;
    window[8] = 7;
    assert_eq!(accumulate(100, &window), 112);
}

#[test]
fn accumulate_wraps_around() {
    let window = [1u8, 0, 0, 0, 0, 0, 0, 0];
    assert_eq!(accumulate(u64::MAX, &window), 0);
    let all = [0xffu8; 8];
    assert_eq!(accumulate(2, &all), 1);
}

#[test]
fn accumulate_skips_an_incomplete_word() {
    let window = [1u8, 0, 0, 0, 0, 0, 0, 0, 9, 9, 9];
    assert_eq!(accumulate(0, &window), 1);
    assert_eq!(accumulate(41, &[9u8; 7]), 41);
    assert_eq!(accumulate(41, &[]), 41);
}

#[test]
fn digits_are_lowercase() {
    assert_eq!(digit_text(0), "0");
    assert_eq!(digit_text(9), "9");
    assert_eq!(digit_text(10), "a");
    assert_eq!(digit_text(15), "f");
}

#[test]
fn digest_text_is_sixteen_padded_digits() {
    assert_eq!(format_digest(0), "0000000000000000");
    assert_eq!(format_digest(0x2_0000), "0000000000020000");
    assert_eq!(format_digest(0x40d3_54da_f3ac_ce9c), "40d354daf3acce9c");
    assert_eq!(format_digest(u64::MAX), "ffffffffffffffff");
}

#[test]
fn digest_text_agrees_with_std_formatting() {
    let mut value: u64 = 0x9e37_79b9_7f4a_7c15;
    for _ in 0..200 {
        assert_eq!(format_digest(value), format!("{value:016x}"));
        value = value.wrapping_mul(6364136223846793005).wrapping_add(1442695040888963407);
    }
}
