use vstd::prelude::*;
use crate::strutil::{ascii_to_string, chars_of_ascii};

verus! {

/// The ASCII byte of the lowercase hexadecimal digit of `n`.
pub open spec fn lower_hex_digit(n: u8) -> u8
    recommends
        n < 16,
{
    if n < 10 {
        (n + 0x30) as u8
    } else {
        (n + 0x57) as u8
    }
}

/// The two lowercase hexadecimal digits of one byte, as ASCII bytes.
pub open spec fn hex_bytes_of_byte(b: u8) -> Seq<u8> {
    seq![lower_hex_digit(b / 16), lower_hex_digit(b % 16)]
}

/// The lowercase hexadecimal rendering of a byte sequence, as ASCII bytes.
pub open spec fn hex_bytes_of(bytes: Seq<u8>) -> Seq<u8>
    decreases bytes.len(),
{
    if bytes.len() == 0 {
        Seq::empty()
    } else {
        hex_bytes_of(bytes.drop_last()) + hex_bytes_of_byte(bytes.last())
    }
}

/// The lowercase hexadecimal rendering of a byte sequence.
pub open spec fn hex_of(bytes: Seq<u8>) -> Seq<char> {
    chars_of_ascii(hex_bytes_of(bytes))
}

pub proof fn lemma_hex_bytes_len(bytes: Seq<u8>)
    ensures
        hex_bytes_of(bytes).len() == 2 * bytes.len(),
    decreases bytes.len(),
{
    if bytes.len() > 0 {
        lemma_hex_bytes_len(bytes.drop_last());
    }
}

proof fn lemma_hex_bytes_ascii(bytes: Seq<u8>)
    ensures
        forall|i: int| 0 <= i < hex_bytes_of(bytes).len() ==> hex_bytes_of(bytes)[i] < 128,
    decreases bytes.len(),
{
    if bytes.len() > 0 {
        lemma_hex_bytes_ascii(bytes.drop_last());
        let pre = hex_bytes_of(bytes.drop_last());
        let tail = hex_bytes_of_byte(bytes.last());
        assert forall|i: int| 0 <= i < hex_bytes_of(bytes).len() implies hex_bytes_of(
            bytes,
        )[i] < 128 by {
            if i < pre.len() {
                assert(hex_bytes_of(bytes)[i] == pre[i]);
            } else {
                assert(hex_bytes_of(bytes)[i] == tail[i - pre.len()]);
            }
        }
    }
}

/// Whether a character is a lowercase hexadecimal digit.
pub open spec fn is_lower_hex_char(c: char) -> bool {
    (0x30 <= c as u32 && c as u32 <= 0x39) || (0x61 <= c as u32 && c as u32 <= 0x66)
}

proof fn lemma_hex_chars_lower_hex(bytes: Seq<u8>)
    ensures
        forall|i: int| 0 <= i < hex_of(bytes).len() ==> is_lower_hex_char(#[trigger] hex_of(bytes)[i]),
    decreases bytes.len(),
{
    if bytes.len() > 0 {
        lemma_hex_chars_lower_hex(bytes.drop_last());
        let pre = hex_bytes_of(bytes.drop_last());
        let tail = hex_bytes_of_byte(bytes.last());
        assert forall|i: int| 0 <= i < hex_of(bytes).len() implies is_lower_hex_char(
            hex_of(bytes)[i],
        ) by {
            if i < pre.len() {
                assert(hex_bytes_of(bytes)[i] == pre[i]);
                assert(hex_of(bytes.drop_last())[i] == pre[i] as char);
            } else {
                assert(hex_bytes_of(bytes)[i] == tail[i - pre.len()]);
            }
        }
    }
}

fn hex_digit_byte(n: u8) -> (r: u8)
    requires
        n < 16,
    ensures
        r == lower_hex_digit(n),
{
    if n < 10 {
        n + 0x30
    } else {
        n + 0x57
    }
}

/// Renders bytes as lowercase hexadecimal, two digits per byte.
pub fn to_hex(bytes: &Vec<u8>) -> (r: String)
    ensures
        r@ == hex_of(bytes@),
{
    let mut out: Vec<u8> = Vec::new();
    let mut i: usize = 0;
    while i < bytes.len()
        invariant
            i <= bytes@.len(),
            out@ == hex_bytes_of(bytes@.take(i as int)),
        decreases bytes@.len() - i,
    {
        let b = bytes[i];
        out.push(hex_digit_byte(b / 16));
        out.push(hex_digit_byte(b % 16));
        proof {
            let t1 = bytes@.take(i as int + 1);
            assert(t1.drop_last() =~= bytes@.take(i as int));
            assert(t1.last() == bytes@[i as int]);
            assert(out@ =~= hex_bytes_of(t1));
        }
        i += 1;
    }
    proof {
        assert(bytes@.take(bytes@.len() as int) =~= bytes@);
        lemma_hex_bytes_ascii(bytes@);
    }
    ascii_to_string(&out)
}

/// Relies on rand::random: an unpredictable value of the requested type,
/// drawn from the thread-local generator.
pub assume_specification<T>[ rand::random::<T> ]() -> (r: T)
    where
        rand::distributions::Standard: rand::distributions::Distribution<T>,
;

/// Produces `size` unpredictable bytes rendered as lowercase hexadecimal.
/// One such value serves as both the `state` and the `nonce` parameter of a
/// single authorization request; nothing ties two calls together, so every
/// attempt gets a fresh value.
pub fn generate_random_bytes(size: usize) -> (r: String)
    ensures
        r@.len() == 2 * size,
        forall|i: int| 0 <= i < r@.len() ==> is_lower_hex_char(#[trigger] r@[i]),
{
    let mut bytes: Vec<u8> = Vec::new();
    let mut i: usize = 0;
    while i < size
        invariant
            i <= size,
            bytes@.len() == i,
        decreases size - i,
    {
        bytes.push(rand::random::<u8>());
        i += 1;
    }
    let r = to_hex(&bytes);
    proof {
        lemma_hex_bytes_len(bytes@);
        lemma_hex_chars_lower_hex(bytes@);
    }
    r
}

} // verus!
