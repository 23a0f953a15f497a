use vstd::prelude::*;
use vstd::string::StrSliceExecFns;
use vstd::string::StringSliceAdditionalSpecFns;
use vstd::utf8::encode_scalar;
use vstd::utf8::encode_utf8;

verus! {

/// Byte offset at which the code point with index `i` starts inside the
/// UTF-8 encoding of `s`; for `i == s.len()` it is the total encoded length.
pub open spec fn byte_index_of(s: Seq<char>, i: int) -> int
    recommends
        0 <= i <= s.len(),
{
    encode_utf8(s.subrange(0, i)).len() as int
}

/// UTF-8 encoding distributes over concatenation of character sequences.
pub proof fn lemma_encode_utf8_concat(a: Seq<char>, b: Seq<char>)
    ensures
        encode_utf8(a + b) == encode_utf8(a) + encode_utf8(b),
    decreases a.len(),
{
    if a.len() == 0 {
        assert(a + b =~= b);
        assert(encode_utf8(a) + encode_utf8(b) =~= encode_utf8(b));
    } else {
        lemma_encode_utf8_concat(a.drop_first(), b);
        assert((a + b).drop_first() =~= a.drop_first() + b);
        assert((a + b)[0] == a[0]);
        assert(encode_scalar((a + b)[0] as u32) + (encode_utf8(a.drop_first()) + encode_utf8(b))
            =~= (encode_scalar(a[0] as u32) + encode_utf8(a.drop_first())) + encode_utf8(b));
    }
}

/// The bytes between two code-point offsets are exactly the UTF-8 encoding
/// of the code points between the two indices; in particular byte offsets
/// grow with the code-point index.
pub proof fn lemma_byte_index_split(s: Seq<char>, i: int, j: int)
    requires
        0 <= i <= j <= s.len(),
    ensures
        byte_index_of(s, j) == byte_index_of(s, i) + encode_utf8(s.subrange(i, j)).len(),
        byte_index_of(s, i) <= byte_index_of(s, j),
{
    lemma_encode_utf8_concat(s.subrange(0, i), s.subrange(i, j));
    assert(s.subrange(0, j) =~= s.subrange(0, i) + s.subrange(i, j));
}

/// Byte offset of the code point with index `char_idx`, found by walking the
/// code points from the front; an index at or beyond the end of the buffer
/// maps to the total byte length.
pub fn char_idx_to_byte_idx(s: &str, char_idx: usize) -> (r: usize)
    ensures
        r == byte_index_of(s@, if char_idx <= s@.len() { char_idx as int } else { s@.len() as int }),
{
    broadcast use vstd::slice::axiom_spec_len;

    let n = s.unicode_len();
    let i = if char_idx <= n {
        char_idx
    } else {
        n
    };
    let prefix = s.substring_char(0, i);
    proof {
        assert(prefix@ =~= s@.subrange(0, i as int));
    }
    prefix.as_bytes().len()
}

} // verus!
