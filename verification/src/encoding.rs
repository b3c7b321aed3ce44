//! Padded base64 over the standard alphabet, as mathematics: what the encoding of
//! a byte sequence is, which texts are encodings, and why no two byte sequences
//! share one.

use vstd::prelude::*;

verus! {

/// The character that stands for the six-bit value `v`: `A` to `Z` for 0 to 25,
/// `a` to `z` for 26 to 51, `0` to `9` for 52 to 61, then `+` and `/`.
pub open spec fn symbol(v: int) -> char {
    if v < 26 {
        ('A' as int + v) as char
    } else if v < 52 {
        ('a' as int + v - 26) as char
    } else if v < 62 {
        ('0' as int + v - 52) as char
    } else if v == 62 {
        '+'
    } else {
        '/'
    }
}

/// Whether `c` is one of the sixty-four symbols.
pub open spec fn is_symbol(c: char) -> bool {
    ('A' <= c <= 'Z') || ('a' <= c <= 'z') || ('0' <= c <= '9') || c == '+' || c == '/'
}

/// The six-bit value that a symbol stands for.
pub open spec fn value(c: char) -> int {
    if 'A' <= c <= 'Z' {
        c as int - 'A' as int
    } else if 'a' <= c <= 'z' {
        c as int - 'a' as int + 26
    } else if '0' <= c <= '9' {
        c as int - '0' as int + 52
    } else if c == '+' {
        62
    } else {
        63
    }
}

/// The four symbols that carry the twenty-four bits of three bytes, six bits
/// each, the high bits first.
pub open spec fn quad(b0: u8, b1: u8, b2: u8) -> Seq<char> {
    seq![
        symbol(b0 as int / 4),
        symbol((b0 as int % 4) * 16 + b1 as int / 16),
        symbol((b1 as int % 16) * 4 + b2 as int / 64),
        symbol(b2 as int % 64),
    ]
}

/// The three bytes that four symbols carry.
pub open spec fn triple(c0: char, c1: char, c2: char, c3: char) -> Seq<u8> {
    seq![
        (value(c0) * 4 + value(c1) / 16) as u8,
        ((value(c1) % 16) * 16 + value(c2) / 4) as u8,
        ((value(c2) % 4) * 64 + value(c3)) as u8,
    ]
}

/// The encoding of a byte sequence: four symbols for every three bytes; a last
/// group of one or two bytes is filled up with zero bits, and the symbols that
/// would carry only filling are replaced by `=`.
pub open spec fn encoded(bytes: Seq<u8>) -> Seq<char>
    decreases bytes.len(),
{
    if bytes.len() == 0 {
        Seq::empty()
    } else if bytes.len() == 1 {
        quad(bytes[0], 0, 0).take(2) + seq!['=', '=']
    } else if bytes.len() == 2 {
        quad(bytes[0], bytes[1], 0).take(3) + seq!['=']
    } else {
        quad(bytes[0], bytes[1], bytes[2]) + encoded(bytes.skip(3))
    }
}

/// Number of characters in the encoding of `n` bytes.
pub open spec fn encoded_len(n: nat) -> nat {
    (n + 2) / 3 * 4
}

/// Whether `text` is the encoding of some byte sequence.
pub open spec fn is_encoding(text: Seq<char>) -> bool {
    exists|bytes: Seq<u8>| encoded(bytes) == text
}

/// Whether `text` has the form of an encoding: whole groups of four characters,
/// all of them symbols but for one or two `=` that may end the last group, and
/// in the symbol before the `=` no bit set that belongs to no byte.
pub open spec fn well_formed(text: Seq<char>) -> bool {
    &&& text.len() % 4 == 0
    &&& forall|i: int| 0 <= i < text.len() - 2 ==> is_symbol(#[trigger] text[i])
    &&& text.len() > 0 ==> {
        let (c1, c2, c3) = (text[text.len() - 3], text[text.len() - 2], text[text.len() - 1]);
        ||| is_symbol(c2) && is_symbol(c3)
        ||| is_symbol(c2) && c3 == '=' && value(c2) % 4 == 0
        ||| c2 == '=' && c3 == '=' && value(c1) % 16 == 0
    }
}

/// The bytes that a well-formed text carries.
pub open spec fn carried(text: Seq<char>) -> Seq<u8>
    decreases text.len(),
{
    if text.len() < 4 {
        Seq::empty()
    } else if text.len() == 4 && text[2] == '=' {
        triple(text[0], text[1], 'A', 'A').take(1)
    } else if text.len() == 4 && text[3] == '=' {
        triple(text[0], text[1], text[2], 'A').take(2)
    } else {
        triple(text[0], text[1], text[2], text[3]) + carried(text.skip(4))
    }
}

/// Symbols and six-bit values stand for each other, and `=` is no symbol.
pub proof fn lemma_symbol_value(v: int, c: char)
    ensures
        0 <= v < 64 ==> is_symbol(symbol(v)) && value(symbol(v)) == v,
        is_symbol(c) ==> 0 <= value(c) < 64 && symbol(value(c)) == c,
        !is_symbol('='),
{
}

/// Three bytes can be read back from the four symbols that carry them.
pub proof fn lemma_quad_injective(a0: u8, a1: u8, a2: u8, b0: u8, b1: u8, b2: u8)
    requires
        quad(a0, a1, a2) == quad(b0, b1, b2),
    ensures
        a0 == b0,
        a1 == b1,
        a2 == b2,
{
    let (p, q) = (quad(a0, a1, a2), quad(b0, b1, b2));
    assert(p[0] == q[0] && p[1] == q[1] && p[2] == q[2] && p[3] == q[3]);
    lemma_symbol_value(a0 as int / 4, 'A');
    lemma_symbol_value(b0 as int / 4, 'A');
    lemma_symbol_value((a0 as int % 4) * 16 + a1 as int / 16, 'A');
    lemma_symbol_value((b0 as int % 4) * 16 + b1 as int / 16, 'A');
    lemma_symbol_value((a1 as int % 16) * 4 + a2 as int / 64, 'A');
    lemma_symbol_value((b1 as int % 16) * 4 + b2 as int / 64, 'A');
    lemma_symbol_value(a2 as int % 64, 'A');
    lemma_symbol_value(b2 as int % 64, 'A');
}

/// Four symbols are the encoding of the three bytes they carry.
pub proof fn lemma_quad_of_triple(c0: char, c1: char, c2: char, c3: char)
    requires
        is_symbol(c0),
        is_symbol(c1),
        is_symbol(c2),
        is_symbol(c3),
    ensures
        ({
            let t = triple(c0, c1, c2, c3);
            quad(t[0], t[1], t[2]) == seq![c0, c1, c2, c3]
        }),
{
    let (v0, v1, v2, v3) = (value(c0), value(c1), value(c2), value(c3));
    let t = triple(c0, c1, c2, c3);
    lemma_symbol_value(0, c0);
    lemma_symbol_value(0, c1);
    lemma_symbol_value(0, c2);
    lemma_symbol_value(0, c3);
    assert(t[0] as int == v0 * 4 + v1 / 16);
    assert(t[1] as int == (v1 % 16) * 16 + v2 / 4);
    assert(t[2] as int == (v2 % 4) * 64 + v3);
    assert(t[0] as int / 4 == v0);
    assert((t[0] as int % 4) * 16 + t[1] as int / 16 == v1);
    assert((t[1] as int % 16) * 4 + t[2] as int / 64 == v2);
    assert(t[2] as int % 64 == v3);
    assert(quad(t[0], t[1], t[2]) =~= seq![c0, c1, c2, c3]);
}

/// The encoding of `n` bytes has `encoded_len(n)` characters.
pub proof fn lemma_encoded_len(bytes: Seq<u8>)
    ensures
        encoded(bytes).len() == encoded_len(bytes.len()),
    decreases bytes.len(),
{
    if bytes.len() >= 3 {
        lemma_encoded_len(bytes.skip(3));
    }
}

/// The end of an encoding shows how many bytes its last group carries: `==` for
/// one, a single `=` for two, no `=` for three.
pub proof fn lemma_encoded_padding(bytes: Seq<u8>)
    ensures
        ({
            let text = encoded(bytes);
            &&& bytes.len() % 3 == 1 ==> text[text.len() - 2] == '=' && text[text.len() - 1] == '='
            &&& bytes.len() % 3 == 2 ==> text[text.len() - 2] != '=' && text[text.len() - 1] == '='
            &&& bytes.len() % 3 == 0 && bytes.len() > 0 ==> text[text.len() - 1] != '='
        }),
    decreases bytes.len(),
{
    lemma_encoded_len(bytes);
    if bytes.len() >= 3 {
        lemma_encoded_padding(bytes.skip(3));
        lemma_encoded_len(bytes.skip(3));
        lemma_symbol_value(bytes[2] as int % 64, 'A');
    } else if bytes.len() == 2 {
        lemma_symbol_value((bytes[1] as int % 16) * 4, 'A');
    }
}

/// Every encoding is well formed.
pub proof fn lemma_encoded_well_formed(bytes: Seq<u8>)
    ensures
        well_formed(encoded(bytes)),
    decreases bytes.len(),
{
    let text = encoded(bytes);
    lemma_encoded_len(bytes);
    if bytes.len() >= 3 {
        let rest = encoded(bytes.skip(3));
        lemma_encoded_well_formed(bytes.skip(3));
        lemma_encoded_len(bytes.skip(3));
        lemma_symbol_value(bytes[0] as int / 4, 'A');
        lemma_symbol_value((bytes[0] as int % 4) * 16 + bytes[1] as int / 16, 'A');
        lemma_symbol_value((bytes[1] as int % 16) * 4 + bytes[2] as int / 64, 'A');
        lemma_symbol_value(bytes[2] as int % 64, 'A');
        assert forall|i: int| 0 <= i < text.len() - 2 implies is_symbol(#[trigger] text[i]) by {
            if i >= 4 {
                assert(text[i] == rest[i - 4]);
            }
        }
        if rest.len() > 0 {
            assert(text[text.len() - 1] == rest[rest.len() - 1]);
            assert(text[text.len() - 2] == rest[rest.len() - 2]);
            assert(text[text.len() - 3] == rest[rest.len() - 3]);
        }
    } else if bytes.len() == 2 {
        lemma_symbol_value(bytes[0] as int / 4, 'A');
        lemma_symbol_value((bytes[0] as int % 4) * 16 + bytes[1] as int / 16, 'A');
        lemma_symbol_value((bytes[1] as int % 16) * 4, 'A');
    } else if bytes.len() == 1 {
        lemma_symbol_value(bytes[0] as int / 4, 'A');
        lemma_symbol_value((bytes[0] as int % 4) * 16, 'A');
    }
}

/// Every well-formed text is the encoding of the bytes it carries.
pub proof fn lemma_well_formed_encodes_carried(text: Seq<char>)
    requires
        well_formed(text),
    ensures
        encoded(carried(text)) == text,
    decreases text.len(),
{
    let bytes = carried(text);
    if text.len() == 0 {
        assert(encoded(bytes) =~= text);
    } else if text.len() == 4 && text[2] == '=' {
        let t = triple(text[0], text[1], 'A', 'A');
        lemma_quad_of_triple(text[0], text[1], 'A', 'A');
        lemma_symbol_value(0, text[1]);
        assert(t[1] == 0);
        assert(bytes.len() == 1 && bytes[0] == t[0]);
        assert(encoded(bytes) =~= text);
    } else if text.len() == 4 && text[3] == '=' {
        let t = triple(text[0], text[1], text[2], 'A');
        lemma_quad_of_triple(text[0], text[1], text[2], 'A');
        lemma_symbol_value(0, text[2]);
        assert(t[2] == 0);
        assert(bytes.len() == 2 && bytes[0] == t[0] && bytes[1] == t[1]);
        assert(encoded(bytes) =~= text);
    } else {
        let rest = text.skip(4);
        let t = triple(text[0], text[1], text[2], text[3]);
        assert(well_formed(rest)) by {
            assert forall|i: int| 0 <= i < rest.len() - 2 implies is_symbol(#[trigger] rest[i]) by {
                assert(rest[i] == text[i + 4]);
            }
        }
        lemma_well_formed_encodes_carried(rest);
        assert(is_symbol(text[0]) && is_symbol(text[1]));
        assert(is_symbol(text[2]) && is_symbol(text[3]));
        lemma_quad_of_triple(text[0], text[1], text[2], text[3]);
        assert(bytes.len() >= 3 && bytes[0] == t[0] && bytes[1] == t[1] && bytes[2] == t[2]);
        assert(bytes.skip(3) =~= carried(rest));
        assert(encoded(bytes) =~= text);
    }
}

/// A text is the encoding of some bytes exactly when it is well formed.
pub proof fn lemma_is_encoding_iff_well_formed(text: Seq<char>)
    ensures
        is_encoding(text) <==> well_formed(text),
{
    if is_encoding(text) {
        lemma_encoded_well_formed(choose|bytes: Seq<u8>| encoded(bytes) == text);
    }
    if well_formed(text) {
        lemma_well_formed_encodes_carried(text);
    }
}

/// Distinct byte sequences have distinct encodings.
pub proof fn lemma_encoded_injective(a: Seq<u8>, b: Seq<u8>)
    requires
        encoded(a) == encoded(b),
    ensures
        a == b,
    decreases a.len(),
{
    lemma_encoded_len(a);
    lemma_encoded_len(b);
    lemma_encoded_padding(a);
    lemma_encoded_padding(b);
    if a.len() >= 3 {
        let (ha, hb) = (quad(a[0], a[1], a[2]), quad(b[0], b[1], b[2]));
        let (ta, tb) = (encoded(a.skip(3)), encoded(b.skip(3)));
        assert(ha =~= (ha + ta).subrange(0, 4));
        assert(hb =~= (hb + tb).subrange(0, 4));
        assert(ta =~= (ha + ta).subrange(4, (ha + ta).len() as int));
        assert(tb =~= (hb + tb).subrange(4, (hb + tb).len() as int));
        lemma_quad_injective(a[0], a[1], a[2], b[0], b[1], b[2]);
        lemma_encoded_injective(a.skip(3), b.skip(3));
        assert forall|i: int| 0 <= i < a.len() implies a[i] == b[i] by {
            if i >= 3 {
                assert(a[i] == a.skip(3)[i - 3]);
                assert(b[i] == b.skip(3)[i - 3]);
            }
        }
    } else if a.len() == 2 {
        let (ha, hb) = (quad(a[0], a[1], 0), quad(b[0], b[1], 0));
        assert(forall|i: int| 0 <= i < 3 ==> ha[i] == encoded(a)[i] && hb[i] == encoded(b)[i]);
        assert(ha =~= hb);
        lemma_quad_injective(a[0], a[1], 0, b[0], b[1], 0);
    } else if a.len() == 1 {
        let (ha, hb) = (quad(a[0], 0, 0), quad(b[0], 0, 0));
        assert(forall|i: int| 0 <= i < 2 ==> ha[i] == encoded(a)[i] && hb[i] == encoded(b)[i]);
        assert(ha =~= hb);
        lemma_quad_injective(a[0], 0, 0, b[0], 0, 0);
    }
    assert(a =~= b);
}

} // verus!
