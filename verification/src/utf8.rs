use vstd::prelude::*;
use vstd::string::StrSliceExecFns;
use vstd::utf8::{encode_scalar, encode_utf8};

verus! {

/// UTF-8 encoding distributes over concatenation.
pub proof fn lemma_encode_utf8_concat(a: Seq<char>, b: Seq<char>)
    ensures
        encode_utf8(a + b) == encode_utf8(a) + encode_utf8(b),
    decreases a.len(),
{
    if a.len() == 0 {
        assert(a + b =~= b);
        assert(encode_utf8(a) =~= Seq::<u8>::empty());
        assert(encode_utf8(a) + encode_utf8(b) =~= encode_utf8(b));
    } else {
        assert((a + b).drop_first() =~= a.drop_first() + b);
        lemma_encode_utf8_concat(a.drop_first(), b);
        assert((a + b)[0] == a[0]);
        assert(encode_utf8(a + b) =~= encode_scalar(a[0] as u32) + encode_utf8(a.drop_first() + b));
        assert(encode_utf8(a) + encode_utf8(b) =~= encode_scalar(a[0] as u32) + (encode_utf8(a.drop_first()) + encode_utf8(b)));
    }
}

/// Byte length of the UTF-8 encoding of the first `k` characters.
pub proof fn lemma_encode_utf8_prefix_step(s: Seq<char>, k: int)
    requires
        0 <= k < s.len(),
    ensures
        encode_utf8(s.take(k + 1)).len() == encode_utf8(s.take(k)).len() + encode_scalar(s[k] as u32).len(),
        encode_utf8(s.take(k + 1)).len() <= encode_utf8(s).len(),
{
    assert(s.take(k + 1) =~= s.take(k) + seq![s[k]]);
    lemma_encode_utf8_concat(s.take(k), seq![s[k]]);
    assert(seq![s[k]].drop_first() =~= Seq::<char>::empty());
    assert(encode_utf8(seq![s[k]]) =~= encode_scalar(s[k] as u32) + encode_utf8(Seq::<char>::empty()));
    assert(s =~= s.take(k + 1) + s.skip(k + 1));
    lemma_encode_utf8_concat(s.take(k + 1), s.skip(k + 1));
}

/// Number of bytes of the UTF-8 encoding of `c`.
pub fn utf8_width(c: char) -> (r: usize)
    ensures
        r == encode_scalar(c as u32).len(),
        1 <= r <= 4,
{
    broadcast use vstd::utf8::char_is_scalar;
    let v = c as u32;
    if v <= 0x7F {
        1
    } else if v <= 0x7FF {
        2
    } else if v <= 0xFFFF {
        3
    } else {
        4
    }
}

/// Byte offset, in the UTF-8 encoding of `s`, of character `k`.
pub open spec fn byte_offset(s: Seq<char>, k: int) -> int {
    encode_utf8(s.take(k)).len() as int
}

/// Returns the byte index of the character at `char_idx`, or `None` when the line is shorter.
pub fn char_to_index(line: &str, char_idx: usize) -> (r: Option<usize>)
    requires
        encode_utf8(line@).len() <= usize::MAX,
    ensures
        r == (if char_idx < line@.len() { Some(byte_offset(line@, char_idx as int) as usize) } else { None }),
{
    let n = line.unicode_len();
    if char_idx >= n {
        return None;
    }
    let mut i: usize = 0;
    let mut bytes: usize = 0;
    assert(line@.take(0) =~= Seq::<char>::empty());
    while i < char_idx
        invariant
            i <= char_idx < n,
            n == line@.len(),
            encode_utf8(line@).len() <= usize::MAX,
            bytes == byte_offset(line@, i as int),
        decreases char_idx - i,
    {
        let c = line.get_char(i);
        proof {
            lemma_encode_utf8_prefix_step(line@, i as int);
        }
        bytes = bytes + utf8_width(c);
        i = i + 1;
    }
    Some(bytes)
}

} // verus!
