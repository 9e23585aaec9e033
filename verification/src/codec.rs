//! Base64 text, as the translation service carries audio.
use vstd::prelude::*;

verus! {

/// `base64::DecodeError`, opaque.
#[verifier::external_type_specification]
#[verifier::external_body]
pub struct ExDecodeError(base64::DecodeError);

/// The character that stands for six bits: the capitals, the small letters, the digits, `+` and
/// `/`, in this order.
pub open spec fn symbol(bits: int) -> char {
    if bits < 26 {
        ('A' as u32 + bits) as char
    } else if bits < 52 {
        ('a' as u32 + bits - 26) as char
    } else if bits < 62 {
        ('0' as u32 + bits - 52) as char
    } else if bits == 62 {
        '+'
    } else {
        '/'
    }
}

/// The four characters of twenty-four bits, six bits each from the highest on.
#[verifier::opaque]
pub open spec fn symbols(bits: int) -> Seq<char> {
    seq![symbol(bits / 262144), symbol(bits / 4096 % 64), symbol(bits / 64 % 64), symbol(bits % 64)]
}

/// The four characters of three bytes.
pub open spec fn quad(a: u8, b: u8, c: u8) -> Seq<char> {
    symbols(65536 * a + 256 * b + c)
}

/// The standard, padded base64 text of some bytes: three bytes at a time, `=` in place of the
/// characters that stand for no byte at the end.
pub open spec fn base64_encoded(bytes: Seq<u8>) -> Seq<char>
    decreases bytes.len(),
{
    if bytes.len() == 0 {
        Seq::empty()
    } else if bytes.len() == 1 {
        quad(bytes[0], 0, 0).take(2) + seq!['=', '=']
    } else if bytes.len() == 2 {
        quad(bytes[0], bytes[1], 0).take(3) + seq!['=']
    } else {
        quad(bytes[0], bytes[1], bytes[2]) + base64_encoded(bytes.skip(3))
    }
}

/// The bytes that a text is the standard, padded base64 text of: `None` where there are none.
pub open spec fn base64_decoded(text: Seq<char>) -> Option<Seq<u8>> {
    if exists|bytes: Seq<u8>| #[trigger] base64_encoded(bytes) == text {
        Some(choose|bytes: Seq<u8>| #[trigger] base64_encoded(bytes) == text)
    } else {
        None
    }
}

/// Whether the base64 text of so many bytes fits in memory.
pub open spec fn base64_fits(len: int) -> bool {
    len / 3 * 4 + 4 <= isize::MAX
}

/// Whether the base64 text of so many bytes fits in memory.
pub fn can_encode(len: usize) -> (r: bool)
    ensures
        r == base64_fits(len as int),
{
    len / 3 <= ((isize::MAX as usize) - 4) / 4
}

/// Calls `encode` of `base64::engine::general_purpose::STANDARD`. Claimed: it gives the
/// standard, padded base64 text of the bytes.
#[verifier::external_body]
pub(crate) fn encode_base64(bytes: &[u8]) -> (r: String)
    requires
        base64_fits(bytes@.len() as int),
    ensures
        r@ == base64_encoded(bytes@),
{
    base64::Engine::encode(&base64::engine::general_purpose::STANDARD, bytes)
}

/// Calls `decode` of `base64::engine::general_purpose::STANDARD`. Claimed: it gives bytes that
/// the text is the standard, padded base64 text of, and reports an error where there are none:
/// padding must be there, and bits that stand for no byte must be zero.
#[verifier::external_body]
fn decode_base64(text: &str) -> (r: Result<Vec<u8>, base64::DecodeError>)
    ensures
        match r {
            Ok(bytes) => text@ == base64_encoded(bytes@),
            Err(_) => forall|bytes: Seq<u8>| text@ != #[trigger] base64_encoded(bytes),
        },
{
    base64::Engine::decode(&base64::engine::general_purpose::STANDARD, text)
}

/// Reads the bytes that a base64 text stands for; `None` where it is no such text.
pub(crate) fn read_base64(text: &str) -> (r: Option<Vec<u8>>)
    ensures
        match r {
            Some(bytes) => base64_decoded(text@) == Some(bytes@),
            None => base64_decoded(text@) is None,
        },
{
    match decode_base64(text) {
        Ok(bytes) => {
            proof {
                law_base64_comes_back(bytes@);
            }
            Some(bytes)
        },
        Err(_) => None,
    }
}

/// Different bits have different characters, none of them `=`.
proof fn lemma_symbols(m: int, n: int)
    requires
        0 <= m < 64,
        0 <= n < 64,
    ensures
        symbol(m) == symbol(n) <==> m == n,
        symbol(m) != '=',
{
}

/// The first characters tell the bits that they stand for.
proof fn lemma_bits(m: int, n: int, count: int)
    requires
        0 <= m < 16777216,
        0 <= n < 16777216,
        2 <= count <= 4,
        symbols(m).take(count) == symbols(n).take(count),
    ensures
        m / 4096 == n / 4096,
        count >= 3 ==> m / 64 == n / 64,
        count == 4 ==> m == n,
{
    reveal(symbols);
    let (x, y) = (symbols(m), symbols(n));
    assert forall|i: int| 0 <= i < count implies x[i] == y[i] by {
        assert(x[i] == x.take(count)[i]);
        assert(y[i] == y.take(count)[i]);
    }
    assert(x[0] == y[0] && x[1] == y[1]);
    lemma_symbols(m / 262144, n / 262144);
    lemma_symbols(m / 4096 % 64, n / 4096 % 64);
    assert(m / 4096 / 64 == m / 262144 && n / 4096 / 64 == n / 262144);
    if count >= 3 {
        assert(x[2] == y[2]);
        lemma_symbols(m / 64 % 64, n / 64 % 64);
        assert(m / 64 / 64 == m / 4096 && n / 64 / 64 == n / 4096);
    }
    if count == 4 {
        assert(x[3] == y[3]);
        lemma_symbols(m % 64, n % 64);
    }
}

/// Three bytes have four characters, the last two of them no `=`.
proof fn lemma_no_padding(a: u8, b: u8, c: u8)
    ensures
        quad(a, b, c)[2] != '=',
        quad(a, b, c).len() == 4,
        quad(a, b, c)[3] != '=',
{
    reveal(symbols);
    let bits = 65536 * a + 256 * b + c;
    lemma_symbols(bits / 64 % 64, 0);
    lemma_symbols(bits % 64, 0);
}

/// The start of a base64 text: empty for no bytes, else four characters, of which the paddings
/// tell how many bytes they stand for.
proof fn lemma_first_quad(bytes: Seq<u8>)
    ensures
        bytes.len() == 0 <==> base64_encoded(bytes).len() == 0,
        bytes.len() > 0 ==> {
            let text = base64_encoded(bytes);
            &&& text.len() >= 4
            &&& text[2] == '=' <==> bytes.len() == 1
            &&& text[3] == '=' <==> bytes.len() <= 2
        },
{
    if bytes.len() == 1 {
        lemma_no_padding(bytes[0], 0, 0);
    } else if bytes.len() == 2 {
        lemma_no_padding(bytes[0], bytes[1], 0);
    } else if bytes.len() > 2 {
        lemma_no_padding(bytes[0], bytes[1], bytes[2]);
    }
}

/// Three bytes are known by their four characters, the first two by three of them, and the first
/// by two.
proof fn lemma_quads(a: u8, b: u8, c: u8, x: u8, y: u8, z: u8, count: int)
    requires
        2 <= count <= 4,
        count <= 3 ==> c == 0 && z == 0,
        count == 2 ==> b == 0 && y == 0,
        quad(a, b, c).take(count) == quad(x, y, z).take(count),
    ensures
        a == x && b == y && c == z,
{
    lemma_bits(65536 * a + 256 * b + c, 65536 * x + 256 * y + z, count);
}

/// The first characters of a base64 text, paddings left aside, are those of the first bytes, and
/// what follows them is the text of the other bytes.
proof fn lemma_text_parts(bytes: Seq<u8>)
    ensures
        bytes.len() == 1 ==> base64_encoded(bytes).take(2) == quad(bytes[0], 0, 0).take(2),
        bytes.len() == 2 ==> base64_encoded(bytes).take(3) == quad(bytes[0], bytes[1], 0).take(3),
        bytes.len() > 2 ==> {
            &&& base64_encoded(bytes).take(4) == quad(bytes[0], bytes[1], bytes[2]).take(4)
            &&& base64_encoded(bytes).skip(4) == base64_encoded(bytes.skip(3))
        },
{
    let text = base64_encoded(bytes);
    if bytes.len() == 1 {
        lemma_no_padding(bytes[0], 0, 0);
        assert(text.take(2) =~= quad(bytes[0], 0, 0).take(2));
    } else if bytes.len() == 2 {
        lemma_no_padding(bytes[0], bytes[1], 0);
        assert(text.take(3) =~= quad(bytes[0], bytes[1], 0).take(3));
    } else if bytes.len() > 2 {
        lemma_no_padding(bytes[0], bytes[1], bytes[2]);
        assert(text.take(4) =~= quad(bytes[0], bytes[1], bytes[2]).take(4));
        assert(text.skip(4) =~= base64_encoded(bytes.skip(3)));
    }
}

/// Different bytes have different base64 texts.
pub proof fn law_base64_is_one_to_one(a: Seq<u8>, b: Seq<u8>)
    requires
        base64_encoded(a) == base64_encoded(b),
    ensures
        a == b,
    decreases a.len(),
{
    lemma_first_quad(a);
    lemma_first_quad(b);
    lemma_text_parts(a);
    lemma_text_parts(b);
    if a.len() == 1 {
        lemma_quads(a[0], 0, 0, b[0], 0, 0, 2);
    } else if a.len() == 2 {
        lemma_quads(a[0], a[1], 0, b[0], b[1], 0, 3);
    } else if a.len() > 2 {
        lemma_quads(a[0], a[1], a[2], b[0], b[1], b[2], 4);
        law_base64_is_one_to_one(a.skip(3), b.skip(3));
        assert(a =~= a.take(3) + a.skip(3));
        assert(b =~= b.take(3) + b.skip(3));
        assert(a.take(3) =~= b.take(3));
    }
    assert(a =~= b);
}

/// Bytes written in base64 are read back as the same bytes.
pub proof fn law_base64_comes_back(bytes: Seq<u8>)
    ensures
        base64_decoded(base64_encoded(bytes)) == Some(bytes),
{
    let read = base64_decoded(base64_encoded(bytes))->0;
    law_base64_is_one_to_one(read, bytes);
}

} // verus!
