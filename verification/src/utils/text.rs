//! Cutting text down to a number of UTF-8 bytes without splitting a
//! character.

use vstd::prelude::*;
use vstd::utf8::{encode_scalar, encode_utf8};

verus! {

/// The number of bytes of the UTF-8 encoding of `s`, as `str::len` counts them.
pub open spec fn utf8_len(s: Seq<char>) -> nat {
    encode_utf8(s).len()
}

/// Encoding one more character appends that character's encoding.
proof fn lemma_encode_utf8_push(s: Seq<char>, c: char)
    ensures
        encode_utf8(s.push(c)) == encode_utf8(s) + encode_scalar(c as u32),
    decreases s.len(),
{
    if s.len() == 0 {
        assert(s.push(c).drop_first() =~= Seq::<char>::empty());
        assert(encode_utf8(Seq::<char>::empty()) =~= Seq::<u8>::empty());
        assert(encode_utf8(s) =~= Seq::<u8>::empty());
        assert(encode_utf8(s.push(c)) =~= encode_utf8(s) + encode_scalar(c as u32));
    } else {
        lemma_encode_utf8_push(s.drop_first(), c);
        assert(s.push(c).drop_first() =~= s.drop_first().push(c));
        assert(s.push(c)[0] == s[0]);
        assert(encode_utf8(s.push(c)) =~= encode_utf8(s) + encode_scalar(c as u32));
    }
}

/// The number of bytes `c` takes in UTF-8, as `char::len_utf8` gives it.
fn char_width(c: char) -> (w: usize)
    ensures
        w == encode_scalar(c as u32).len(),
        1 <= w <= 4,
{
    let v = c as u32;
    proof {
        vstd::utf8::char_is_scalar(c);
    }
    if v <= 0x7F {
        1
    } else if v <= 0x7FF {
        2
    } else if v <= 0xFFFF {
        3
    } else {
        4
    }
}

/// The longest prefix of `s` whose UTF-8 encoding fits in `max` bytes:
/// `s` truncated at its last character boundary at or before byte `max`.
pub fn truncate_utf8(s: &str, max: usize) -> (r: String)
    ensures
        r@ == s@.take(r@.len() as int),
        utf8_len(r@) <= max,
        r@.len() < s@.len() ==> utf8_len(s@.take(r@.len() + 1 as int)) > max,
{
    let n = s.unicode_len();
    let mut k: usize = 0;
    let mut bytes: usize = 0;
    proof {
        assert(s@.take(0) =~= Seq::<char>::empty());
        assert(encode_utf8(Seq::<char>::empty()) =~= Seq::<u8>::empty());
    }
    while k < n
        invariant
            n == s@.len(),
            k <= n,
            bytes <= max,
            bytes == utf8_len(s@.take(k as int)),
        ensures
            k <= n,
            bytes == utf8_len(s@.take(k as int)),
            bytes <= max,
            k == n || utf8_len(s@.take(k + 1 as int)) > max,
        decreases n - k,
    {
        let c = s.get_char(k);
        let w = char_width(c);
        proof {
            assert(s@.take(k + 1) =~= s@.take(k as int).push(c));
            lemma_encode_utf8_push(s@.take(k as int), c);
        }
        if w > max - bytes {
            break;
        }
        bytes = bytes + w;
        k = k + 1;
    }
    let r = String::from_str(s.substring_char(0, k));
    assert(r@ =~= s@.take(k as int));
    r
}

} // verus!
