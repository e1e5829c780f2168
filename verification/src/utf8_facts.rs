use vstd::prelude::*;
use vstd::utf8::*;

verus! {

/// The byte that encodes `&`.
pub open spec fn ampersand_byte() -> u8 {
    0x26
}

/// UTF-8 encoding distributes over concatenation.
pub proof fn lemma_encode_utf8_concat(a: Seq<char>, b: Seq<char>)
    ensures
        encode_utf8(a + b) == encode_utf8(a) + encode_utf8(b),
    decreases a.len(),
{
    if a.len() == 0 {
        assert(a + b =~= b);
        assert(encode_utf8(a) + encode_utf8(b) =~= encode_utf8(b));
    } else {
        assert((a + b).drop_first() =~= a.drop_first() + b);
        lemma_encode_utf8_concat(a.drop_first(), b);
        assert((a + b)[0] == a[0]);
        assert(encode_utf8(a + b) =~= encode_scalar(a[0] as u32) + (encode_utf8(a.drop_first())
            + encode_utf8(b)));
    }
}

proof fn lemma_scalar_bytes_not_ampersand(c: u32)
    by (bit_vector)
    ensures
        (c <= 0x7F && c != 0x26) ==> (c & 0x7F) as u8 != 0x26u8,
        0xC0u8 | ((c >> 6) & 0x1F) as u8 != 0x26u8,
        0xE0u8 | ((c >> 12) & 0x0F) as u8 != 0x26u8,
        0xF0u8 | ((c >> 18) & 0x7) as u8 != 0x26u8,
        0x80u8 | (c & 0x3F) as u8 != 0x26u8,
        0x80u8 | ((c >> 6) & 0x3F) as u8 != 0x26u8,
        0x80u8 | ((c >> 12) & 0x3F) as u8 != 0x26u8,
{
}

/// Text without `&` encodes to bytes without the `&` byte.
pub proof fn lemma_encode_without_ampersand(s: Seq<char>)
    requires
        !s.contains('&'),
    ensures
        forall|i: int|
            0 <= i < encode_utf8(s).len() ==> #[trigger] encode_utf8(s)[i] != ampersand_byte(),
    decreases s.len(),
{
    if s.len() > 0 {
        let rest = s.drop_first();
        assert(!rest.contains('&')) by {
            if rest.contains('&') {
                let j: int = choose|j: int| 0 <= j < rest.len() && rest[j] == '&';
                assert(s[j + 1] == '&');
            }
        }
        lemma_encode_without_ampersand(rest);
        let c: u32 = s[0] as u32;
        assert(s[0] != '&');
        char_u32_cast(s[0], c);
        char_u32_cast('&', '&' as u32);
        assert(('&' as u32) == 0x26);
        assert(c != 0x26);
        lemma_scalar_bytes_not_ampersand(c);
        let head = encode_scalar(c);
        assert forall|i: int| 0 <= i < head.len() implies #[trigger] head[i] != ampersand_byte() by {
        }
        assert forall|i: int| 0 <= i < encode_utf8(s).len() implies #[trigger] encode_utf8(s)[i]
            != ampersand_byte() by {
            if i < head.len() {
                assert(encode_utf8(s)[i] == head[i]);
            } else {
                assert(encode_utf8(s)[i] == encode_utf8(rest)[i - head.len()]);
            }
        }
    }
}

/// The position right after the encoding of a prefix is a character boundary.
pub proof fn lemma_boundary_after_prefix(a: Seq<char>, b: Seq<char>)
    ensures
        valid_utf8(encode_utf8(a + b)),
        is_char_boundary(encode_utf8(a + b), encode_utf8(a).len() as int),
    decreases a.len(),
{
    encode_utf8_valid_utf8(a + b);
    if a.len() > 0 {
        let ab = a + b;
        let bytes = encode_utf8(ab);
        encode_utf8_first_scalar(ab);
        assert(ab[0] == a[0]);
        assert(ab.drop_first() =~= a.drop_first() + b);
        assert(pop_first_scalar(bytes) =~= encode_utf8(a.drop_first() + b));
        lemma_boundary_after_prefix(a.drop_first(), b);
        lemma_encode_utf8_concat(a, b);
        assert(encode_utf8(a).len() == encode_scalar(a[0] as u32).len() + encode_utf8(
            a.drop_first(),
        ).len());
    }
}

} // verus!
