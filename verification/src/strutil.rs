use vstd::prelude::*;

verus! {

/// The characters of an ASCII byte sequence, one character per byte.
pub open spec fn chars_of_ascii(bytes: Seq<u8>) -> Seq<char> {
    bytes.map_values(|b: u8| b as char)
}

/// Relies on String::from_utf8: ASCII bytes are valid UTF-8 and decode to
/// one character per byte.
#[verifier::external_body]
pub fn ascii_to_string(bytes: &Vec<u8>) -> (r: String)
    requires
        forall|i: int| 0 <= i < bytes@.len() ==> bytes@[i] < 128,
    ensures
        r@ == chars_of_ascii(bytes@),
{
    String::from_utf8(bytes.clone()).expect("ASCII bytes are valid UTF-8")
}

/// Whether `p` stands at the beginning of `s`.
pub open spec fn is_char_prefix(p: Seq<char>, s: Seq<char>) -> bool {
    p.len() <= s.len() && s.subrange(0, p.len() as int) == p
}

/// Whether `s` begins with `prefix`, compared character by character.
pub fn str_starts_with(s: &str, prefix: &str) -> (r: bool)
    ensures
        r == is_char_prefix(prefix@, s@),
{
    let n = prefix.unicode_len();
    let m = s.unicode_len();
    if n > m {
        return false;
    }
    let mut i: usize = 0;
    while i < n
        invariant
            i <= n,
            n == prefix@.len(),
            m == s@.len(),
            n <= m,
            forall|j: int| 0 <= j < i ==> s@[j] == prefix@[j],
        decreases n - i,
    {
        if s.get_char(i) != prefix.get_char(i) {
            proof {
                if is_char_prefix(prefix@, s@) {
                    assert(s@.subrange(0, n as int)[i as int] == s@[i as int]);
                }
            }
            return false;
        }
        i += 1;
    }
    proof {
        assert(s@.subrange(0, n as int) =~= prefix@);
    }
    true
}

/// Whether two string slices hold the same characters.
pub fn str_eq(a: &str, b: &str) -> (r: bool)
    ensures
        r == (a@ == b@),
{
    let n = a.unicode_len();
    if n != b.unicode_len() {
        return false;
    }
    let mut i: usize = 0;
    while i < n
        invariant
            i <= n,
            n == a@.len(),
            n == b@.len(),
            forall|j: int| 0 <= j < i ==> a@[j] == b@[j],
        decreases n - i,
    {
        if a.get_char(i) != b.get_char(i) {
            return false;
        }
        i += 1;
    }
    proof {
        assert(a@ =~= b@);
    }
    true
}

} // verus!
