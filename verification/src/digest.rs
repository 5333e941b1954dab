//! The digest arithmetic: little-endian words, their sum over a window, and
//! the sixteen-digit rendering of the accumulator.

use vstd::prelude::*;

verus! {

/// Number of bytes in one window.
pub const CHUNK_SIZE: u64 = 65536;

/// Smallest length that can be fingerprinted: one head and one tail window.
pub const MIN_FILE_SIZE: u64 = 131072;

/// Two to the power 64, the modulus of the accumulator.
pub open spec fn modulus() -> int {
    0x1_0000_0000_0000_0000
}

/// The `k`-th eight-byte group of `bytes`, read as a little-endian number.
pub open spec fn word_at(bytes: Seq<u8>, k: int) -> int {
    bytes[8 * k] as int
        + 0x100 * (bytes[8 * k + 1] as int)
        + 0x1_0000 * (bytes[8 * k + 2] as int)
        + 0x100_0000 * (bytes[8 * k + 3] as int)
        + 0x1_0000_0000 * (bytes[8 * k + 4] as int)
        + 0x100_0000_0000 * (bytes[8 * k + 5] as int)
        + 0x1_0000_0000_0000 * (bytes[8 * k + 6] as int)
        + 0x100_0000_0000_0000 * (bytes[8 * k + 7] as int)
}

/// Sum of the first `n` words of `bytes`.
pub open spec fn words_sum(bytes: Seq<u8>, n: nat) -> int
    decreases n,
{
    if n == 0 {
        0
    } else {
        words_sum(bytes, (n - 1) as nat) + word_at(bytes, n - 1)
    }
}

/// Sum of all complete words of a window; trailing bytes that do not fill a
/// word are not counted.
pub open spec fn window_sum(bytes: Seq<u8>) -> int {
    words_sum(bytes, bytes.len() / 8)
}

/// The accumulator after a window has been added to it.
pub open spec fn absorb(acc: u64, bytes: Seq<u8>) -> u64 {
    ((acc + window_sum(bytes)) % modulus()) as u64
}

/// The digest of a resource of `len` bytes with the given head and tail
/// windows: the length plus every word of both windows, modulo 2^64.
pub open spec fn digest_value(len: u64, head: Seq<u8>, tail: Seq<u8>) -> u64 {
    ((len + window_sum(head) + window_sum(tail)) % modulus()) as u64
}

/// Masks the accumulator to 64 bits. On a 64-bit word this changes nothing;
/// it is kept because the algorithm prescribes it after every addition.
pub fn to_uint64(hash: &mut u64)
    ensures
        *final(hash) == *old(hash) & 0xFFFF_FFFF_FFFF_FFFF,
        *final(hash) == *old(hash),
{
    let masked: u64 = *hash & 0xFFFF_FFFF_FFFF_FFFF;
    assert(masked == *hash) by (bit_vector)
        requires
            masked == *hash & 0xFFFF_FFFF_FFFF_FFFF,
    ;
    *hash = masked;
}

/// Reads the `k`-th little-endian word of `window`.
pub fn read_word(window: &[u8], k: usize) -> (word: u64)
    requires
        8 * k + 8 <= window@.len(),
    ensures
        word == word_at(window@, k as int),
{
    let total: usize = window.len();
    assert(8 * k + 8 <= total);
    let at: usize = 8 * k;
    let b0: u64 = window[at] as u64;
    let b1: u64 = window[at + 1] as u64;
    let b2: u64 = window[at + 2] as u64;
    let b3: u64 = window[at + 3] as u64;
    let b4: u64 = window[at + 4] as u64;
    let b5: u64 = window[at + 5] as u64;
    let b6: u64 = window[at + 6] as u64;
    let b7: u64 = window[at + 7] as u64;
    b0 + 0x100 * b1 + 0x1_0000 * b2 + 0x100_0000 * b3 + 0x1_0000_0000 * b4
        + 0x100_0000_0000 * b5 + 0x1_0000_0000_0000 * b6 + 0x100_0000_0000_0000 * b7
}

/// Adds every complete word of `window` to `acc`, wrapping modulo 2^64 and
/// masking after each addition.
pub fn accumulate(acc: u64, window: &[u8]) -> (sum: u64)
    ensures
        sum == absorb(acc, window@),
{
    let words: usize = window.len() / 8;
    let mut file_hash: u64 = acc;
    let mut k: usize = 0;
    while k < words
        invariant
            words == window@.len() / 8,
            k <= words,
            file_hash == (acc + words_sum(window@, k as nat)) % modulus(),
        decreases words - k,
    {
        let word: u64 = read_word(window, k);
        file_hash = file_hash.wrapping_add(word);
        to_uint64(&mut file_hash);
        k = k + 1;
    }
    file_hash
}

/// Sixteen to the power `n`.
pub open spec fn sixteen_to(n: nat) -> int
    decreases n,
{
    if n == 0 {
        1
    } else {
        16 * sixteen_to((n - 1) as nat)
    }
}

/// The lowercase hex digit for a value below sixteen.
pub open spec fn hex_char(d: int) -> char {
    seq!['0', '1', '2', '3', '4', '5', '6', '7', '8', '9', 'a', 'b', 'c', 'd', 'e', 'f'][d]
}

/// The digit at position `i` of the sixteen-digit rendering of `value`,
/// counted from the left.
pub open spec fn hex_digit_at(value: u64, i: int) -> char {
    hex_char((value as int / sixteen_to((15 - i) as nat)) % 16)
}

/// The rendering of `value`: sixteen lowercase hex digits, most significant
/// first, padded with zeros, without prefix or separator.
pub open spec fn hex16(value: u64) -> Seq<char> {
    Seq::new(16, |i: int| hex_digit_at(value, i))
}

/// The rendering has sixteen characters, each a digit or a letter from `a`
/// to `f`.
pub proof fn lemma_hex16_shape(value: u64)
    ensures
        hex16(value).len() == 16,
        forall|i: int|
            0 <= i < 16 ==> {
                let c = #[trigger] hex16(value)[i];
                ('0' <= c && c <= '9') || ('a' <= c && c <= 'f')
            },
{
    assert forall|i: int| 0 <= i < 16 implies {
        let c = #[trigger] hex16(value)[i];
        ('0' <= c && c <= '9') || ('a' <= c && c <= 'f')
    } by {
        let d: int = (value as int / sixteen_to((15 - i) as nat)) % 16;
        assert(0 <= d < 16);
        assert(hex16(value)[i] == hex_char(d));
    }
}

/// The one-character text of a hex digit.
pub fn digit_text(d: u64) -> (text: &'static str)
    requires
        d < 16,
    ensures
        text@ == seq![hex_char(d as int)],
{
    proof {
        reveal_strlit("0");
        reveal_strlit("1");
        reveal_strlit("2");
        reveal_strlit("3");
        reveal_strlit("4");
        reveal_strlit("5");
        reveal_strlit("6");
        reveal_strlit("7");
        reveal_strlit("8");
        reveal_strlit("9");
        reveal_strlit("a");
        reveal_strlit("b");
        reveal_strlit("c");
        reveal_strlit("d");
        reveal_strlit("e");
        reveal_strlit("f");
    }
    let text: &'static str = match d {
        0 => "0",
        1 => "1",
        2 => "2",
        3 => "3",
        4 => "4",
        5 => "5",
        6 => "6",
        7 => "7",
        8 => "8",
        9 => "9",
        10 => "a",
        11 => "b",
        12 => "c",
        13 => "d",
        14 => "e",
        _ => "f",
    };
    assert(text@ =~= seq![hex_char(d as int)]);
    text
}

/// Renders the accumulator as the digest text.
pub fn format_digest(value: u64) -> (text: String)
    ensures
        text@ == hex16(value),
{
    let mut text: String = String::new();
    let mut place: u64 = 0x1000_0000_0000_0000;
    let mut i: usize = 0;
    assert(place == sixteen_to(15)) by {
        reveal_with_fuel(sixteen_to, 16);
    }
    while i < 16
        invariant
            i <= 16,
            i < 16 ==> place == sixteen_to((15 - i) as nat),
            text@.len() == i,
            forall|j: int| 0 <= j < i ==> text@[j] == hex_digit_at(value, j),
        decreases 16 - i,
    {
        assert(place >= 1 && (i < 15 ==> place / 16 == sixteen_to((14 - i) as nat))) by {
            reveal_with_fuel(sixteen_to, 16);
        }
        let digit: u64 = (value / place) % 16;
        text.append(digit_text(digit));
        place = place / 16;
        i = i + 1;
    }
    assert(text@ =~= hex16(value));
    text
}

} // verus!
