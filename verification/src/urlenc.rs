use vstd::prelude::*;
use vstd::string::StringSliceAdditionalSpecFns;
use vstd::utf8::encode_utf8;
use crate::strutil::{ascii_to_string, chars_of_ascii};

verus! {

/// Whether a byte passes through form-urlencoding unchanged: the ASCII
/// alphanumerics and `*`, `-`, `.`, `_`.
pub open spec fn form_unchanged(b: u8) -> bool {
    b == 0x2a || b == 0x2d || b == 0x2e || b == 0x5f || (0x30 <= b && b <= 0x39) || (0x41 <= b
        && b <= 0x5a) || (0x61 <= b && b <= 0x7a)
}

/// The ASCII byte of the uppercase hexadecimal digit of `n`.
pub open spec fn upper_hex_digit(n: u8) -> u8
    recommends
        n < 16,
{
    if n < 10 {
        (n + 0x30) as u8
    } else {
        (n + 0x37) as u8
    }
}

/// The application/x-www-form-urlencoded rendering of one byte: an unchanged
/// byte stays, a space becomes `+`, every other byte becomes `%` and two
/// uppercase hexadecimal digits.
pub open spec fn form_encoded_byte(b: u8) -> Seq<u8> {
    if form_unchanged(b) {
        seq![b]
    } else if b == 0x20 {
        seq![0x2bu8]
    } else {
        seq![0x25u8, upper_hex_digit(b / 16), upper_hex_digit(b % 16)]
    }
}

/// The form-urlencoded rendering of a byte sequence.
pub open spec fn form_encoded(s: Seq<u8>) -> Seq<u8>
    decreases s.len(),
{
    if s.len() == 0 {
        Seq::empty()
    } else {
        form_encoded(s.drop_last()) + form_encoded_byte(s.last())
    }
}

/// The form-urlencoded rendering of one key/value pair, over the UTF-8 bytes
/// of key and value.
pub open spec fn encoded_pair(k: Seq<char>, v: Seq<char>) -> Seq<u8> {
    form_encoded(encode_utf8(k)) + seq![0x3du8] + form_encoded(encode_utf8(v))
}

/// The serialized query of the first `n` pairs, separated by `&`.
pub open spec fn encoded_pairs_prefix(pairs: Seq<(Seq<char>, Seq<char>)>, n: int) -> Seq<u8>
    decreases n,
{
    if n <= 0 {
        Seq::empty()
    } else if n == 1 {
        encoded_pair(pairs[0].0, pairs[0].1)
    } else {
        encoded_pairs_prefix(pairs, n - 1) + seq![0x26u8] + encoded_pair(
            pairs[n - 1].0,
            pairs[n - 1].1,
        )
    }
}

/// The serialized form-urlencoded query of a pair sequence.
pub open spec fn encoded_query(pairs: Seq<(Seq<char>, Seq<char>)>) -> Seq<u8> {
    encoded_pairs_prefix(pairs, pairs.len() as int)
}

/// The character views of a vector of owned key/value pairs.
pub open spec fn pairs_view(ps: Seq<(String, String)>) -> Seq<(Seq<char>, Seq<char>)> {
    ps.map_values(|p: (String, String)| (p.0@, p.1@))
}

proof fn lemma_form_encoded_ascii(s: Seq<u8>)
    ensures
        forall|i: int| 0 <= i < form_encoded(s).len() ==> form_encoded(s)[i] < 128,
    decreases s.len(),
{
    if s.len() > 0 {
        lemma_form_encoded_ascii(s.drop_last());
        let pre = form_encoded(s.drop_last());
        let tail = form_encoded_byte(s.last());
        assert forall|i: int| 0 <= i < form_encoded(s).len() implies form_encoded(s)[i]
            < 128 by {
            if i < pre.len() {
                assert(form_encoded(s)[i] == pre[i]);
            } else {
                assert(form_encoded(s)[i] == tail[i - pre.len()]);
            }
        }
    }
}

proof fn lemma_encoded_pairs_ascii(pairs: Seq<(Seq<char>, Seq<char>)>, n: int)
    ensures
        forall|i: int|
            0 <= i < encoded_pairs_prefix(pairs, n).len() ==> encoded_pairs_prefix(pairs, n)[i]
                < 128,
    decreases n,
{
    if n == 1 {
        lemma_form_encoded_ascii(encode_utf8(pairs[0].0));
        lemma_form_encoded_ascii(encode_utf8(pairs[0].1));
    } else if n > 1 {
        lemma_encoded_pairs_ascii(pairs, n - 1);
        lemma_form_encoded_ascii(encode_utf8(pairs[n - 1].0));
        lemma_form_encoded_ascii(encode_utf8(pairs[n - 1].1));
        let pre = encoded_pairs_prefix(pairs, n - 1) + seq![0x26u8];
        let tail = encoded_pair(pairs[n - 1].0, pairs[n - 1].1);
        assert forall|i: int| 0 <= i < encoded_pairs_prefix(pairs, n).len() implies
            encoded_pairs_prefix(pairs, n)[i] < 128 by {
            if i < pre.len() {
                assert(encoded_pairs_prefix(pairs, n)[i] == pre[i]);
            } else {
                assert(encoded_pairs_prefix(pairs, n)[i] == tail[i - pre.len()]);
            }
        }
    }
}

fn form_unchanged_exec(b: u8) -> (r: bool)
    ensures
        r == form_unchanged(b),
{
    b == 0x2a || b == 0x2d || b == 0x2e || b == 0x5f || (0x30 <= b && b <= 0x39) || (0x41 <= b
        && b <= 0x5a) || (0x61 <= b && b <= 0x7a)
}

fn upper_hex_digit_exec(n: u8) -> (r: u8)
    requires
        n < 16,
    ensures
        r == upper_hex_digit(n),
{
    if n < 10 {
        n + 0x30
    } else {
        n + 0x37
    }
}

fn push_form_encoded(out: &mut Vec<u8>, s: &[u8])
    ensures
        final(out)@ == old(out)@ + form_encoded(s@),
{
    let mut i: usize = 0;
    while i < s.len()
        invariant
            i <= s@.len(),
            out@ == old(out)@ + form_encoded(s@.take(i as int)),
        decreases s@.len() - i,
    {
        let b = s[i];
        if form_unchanged_exec(b) {
            out.push(b);
        } else if b == 0x20 {
            out.push(0x2b);
        } else {
            out.push(0x25);
            out.push(upper_hex_digit_exec(b / 16));
            out.push(upper_hex_digit_exec(b % 16));
        }
        proof {
            let t1 = s@.take(i as int + 1);
            assert(t1.drop_last() =~= s@.take(i as int));
            assert(t1.last() == s@[i as int]);
            assert(out@ =~= old(out)@ + form_encoded(t1));
        }
        i += 1;
    }
    proof {
        assert(s@.take(s@.len() as int) =~= s@);
    }
}

/// Serializes key/value pairs as an application/x-www-form-urlencoded query:
/// pairs separated by `&`, key and value separated by `=`, both encoded over
/// their UTF-8 bytes.
pub fn encode_query(pairs: &Vec<(String, String)>) -> (r: String)
    ensures
        r@ == chars_of_ascii(encoded_query(pairs_view(pairs@))),
{
    let mut out: Vec<u8> = Vec::new();
    let mut i: usize = 0;
    while i < pairs.len()
        invariant
            i <= pairs@.len(),
            out@ == encoded_pairs_prefix(pairs_view(pairs@), i as int),
        decreases pairs@.len() - i,
    {
        if i > 0 {
            out.push(0x26);
        }
        push_form_encoded(&mut out, pairs[i].0.as_str().as_bytes());
        out.push(0x3d);
        push_form_encoded(&mut out, pairs[i].1.as_str().as_bytes());
        proof {
            assert(pairs_view(pairs@)[i as int] == (pairs@[i as int].0@, pairs@[i as int].1@));
            assert(out@ =~= encoded_pairs_prefix(pairs_view(pairs@), i as int + 1));
        }
        i += 1;
    }
    proof {
        lemma_encoded_pairs_ascii(pairs_view(pairs@), pairs@.len() as int);
    }
    ascii_to_string(&out)
}

} // verus!
