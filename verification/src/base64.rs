//! Standard base64 encoding (RFC 4648, with `=` padding), as `bw encode` does it.
use vstd::prelude::*;
use vstd::string::StringSliceAdditionalSpecFns;

verus! {

/// The base64 alphabet: `A`–`Z`, `a`–`z`, `0`–`9`, `+`, `/`.
pub open spec fn b64_digit(v: int) -> char {
    if v < 26 {
        (('A' as u32) + v) as char
    } else if v < 52 {
        (('a' as u32) + (v - 26)) as char
    } else if v < 62 {
        (('0' as u32) + (v - 52)) as char
    } else if v == 62 {
        '+'
    } else {
        '/'
    }
}

/// The four characters that encode one group of up to three bytes; `len` is the
/// number of real bytes in the group (1, 2 or 3) and `n` the 24-bit value with
/// missing bytes taken as zero.
pub open spec fn b64_group(n: int, len: int) -> Seq<char> {
    seq![
        b64_digit((n / 262144) % 64),
        b64_digit((n / 4096) % 64),
        if len > 1 { b64_digit((n / 64) % 64) } else { '=' },
        if len > 2 { b64_digit(n % 64) } else { '=' },
    ]
}

pub open spec fn byte_or_zero(s: Seq<u8>, i: int) -> int {
    if i < s.len() { s[i] as int } else { 0 }
}

/// The base64 encoding of `s`, three bytes at a time.
pub open spec fn b64(s: Seq<u8>) -> Seq<char>
    decreases s.len(),
{
    if s.len() == 0 {
        Seq::empty()
    } else {
        let n = byte_or_zero(s, 0) * 65536 + byte_or_zero(s, 1) * 256 + byte_or_zero(s, 2);
        let len = if s.len() < 3 { s.len() as int } else { 3 };
        b64_group(n, len) + if s.len() <= 3 { Seq::empty() } else { b64(s.skip(3)) }
    }
}

/// A character that can appear in base64 output.
pub open spec fn is_b64_char(c: char) -> bool {
    ('A' <= c && c <= 'Z') || ('a' <= c && c <= 'z') || ('0' <= c && c <= '9') || c == '+'
        || c == '/' || c == '='
}


fn digit(v: u32) -> (c: char)
    requires
        v < 64,
    ensures
        c == b64_digit(v as int),
{
    if v < 26 {
        ((65 + v) as u8) as char
    } else if v < 52 {
        ((97 + (v - 26)) as u8) as char
    } else if v < 62 {
        ((48 + (v - 52)) as u8) as char
    } else if v == 62 {
        '+'
    } else {
        '/'
    }
}

proof fn lemma_sextets(b0: u32, b1: u32, b2: u32)
    requires
        b0 < 256,
        b1 < 256,
        b2 < 256,
    ensures
        ({
            let n = (b0 << 16) | (b1 << 8) | b2;
            let m = b0 * 65536 + b1 * 256 + b2;
            &&& (n >> 18) & 63 == (m / 262144) % 64
            &&& (n >> 12) & 63 == (m / 4096) % 64
            &&& (n >> 6) & 63 == (m / 64) % 64
            &&& n & 63 == m % 64
        }),
{
    assert(((b0 << 16) | (b1 << 8) | b2) == b0 * 65536 + b1 * 256 + b2) by (bit_vector)
        requires
            b0 < 256,
            b1 < 256,
            b2 < 256,
    ;
    let m = b0 * 65536 + b1 * 256 + b2;
    assert(m < 16777216) by (nonlinear_arith)
        requires
            b0 < 256,
            b1 < 256,
            b2 < 256,
            m == b0 * 65536 + b1 * 256 + b2,
    ;
    let mu = m as u32;
    assert((mu >> 18) & 63 == (mu / 262144) % 64) by (bit_vector);
    assert((mu >> 12) & 63 == (mu / 4096) % 64) by (bit_vector);
    assert((mu >> 6) & 63 == (mu / 64) % 64) by (bit_vector);
    assert(mu & 63 == mu % 64) by (bit_vector);
}

/// The four characters for one group of `len` bytes `b0`, `b1`, `b2`.
fn encode_group(b0: u32, b1: u32, b2: u32, len: usize) -> (r: [char; 4])
    requires
        b0 < 256,
        b1 < 256,
        b2 < 256,
        1 <= len <= 3,
    ensures
        r@ == b64_group(b0 * 65536 + b1 * 256 + b2, len as int),
{
    let v = (b0 << 16) | (b1 << 8) | b2;
    proof {
        lemma_sextets(b0, b1, b2);
    }
    let r = [
        digit((v >> 18) & 63),
        digit((v >> 12) & 63),
        if len > 1 { digit((v >> 6) & 63) } else { '=' },
        if len > 2 { digit(v & 63) } else { '=' },
    ];
    assert(r@ =~= b64_group(b0 * 65536 + b1 * 256 + b2, len as int));
    r
}

proof fn lemma_b64_step(s: Seq<u8>)
    requires
        s.len() > 0,
    ensures
        b64(s) == b64_group(
            byte_or_zero(s, 0) * 65536 + byte_or_zero(s, 1) * 256 + byte_or_zero(s, 2),
            if s.len() < 3 { s.len() as int } else { 3 },
        ) + if s.len() <= 3 { Seq::<char>::empty() } else { b64(s.skip(3)) },
{
}

/// Standard base64 encoding of the UTF-8 bytes of `input`.
pub fn base64_encode(input: &str) -> (out: String)
    ensures
        out@ == b64(input.spec_bytes()),
{
    let bytes = input.as_bytes();
    let n = bytes.len();
    let mut out: Vec<char> = Vec::new();
    let mut i: usize = 0;
    assert(bytes@.skip(0) =~= bytes@);
    while i < n
        invariant
            n == bytes@.len(),
            i <= n,
            out@ + b64(bytes@.skip(i as int)) == b64(bytes@),
        decreases n - i,
    {
        let ghost rest = bytes@.skip(i as int);
        let len = if n - i < 3 { n - i } else { 3 };
        let b0 = bytes[i] as u32;
        let b1 = if len > 1 { bytes[i + 1] as u32 } else { 0 };
        let b2 = if len > 2 { bytes[i + 2] as u32 } else { 0 };
        let g = encode_group(b0, b1, b2, len);
        proof {
            lemma_b64_step(rest);
            assert(byte_or_zero(rest, 0) == b0);
            assert(byte_or_zero(rest, 1) == b1);
            assert(byte_or_zero(rest, 2) == b2);
        }
        let ghost out0 = out@;
        out.push(g[0]);
        out.push(g[1]);
        out.push(g[2]);
        out.push(g[3]);
        assert(out@ =~= out0 + g@);
        i = i + len;
        proof {
            if i == n {
                assert(bytes@.skip(i as int) =~= Seq::<u8>::empty());
                assert(rest.len() <= 3);
            } else {
                assert(rest.skip(3) =~= bytes@.skip(i as int));
            }
        }
    }
    crate::text::from_chars(&out)
}


/// Base64 turns every three bytes, the last group padded, into four
/// characters of its alphabet (or `=`).
pub proof fn law_base64_length(s: Seq<u8>)
    ensures
        b64(s).len() == (s.len() + 2) / 3 * 4,
        forall|i: int| 0 <= i < b64(s).len() ==> is_b64_char(#[trigger] b64(s)[i]),
    decreases s.len(),
{
    if s.len() > 0 {
        let n = byte_or_zero(s, 0) * 65536 + byte_or_zero(s, 1) * 256 + byte_or_zero(s, 2);
        let len = if s.len() < 3 { s.len() as int } else { 3 };
        let g = b64_group(n, len);
        assert forall|v: int| 0 <= v < 64 implies is_b64_char(#[trigger] b64_digit(v)) by {
            if v < 26 {
                assert(('A' as u32) + v <= 'Z' as u32);
            } else if v < 52 {
                assert(('a' as u32) + (v - 26) <= 'z' as u32);
            } else if v < 62 {
                assert(('0' as u32) + (v - 52) <= '9' as u32);
            }
        }
        assert(0 <= n);
        assert forall|i: int| 0 <= i < g.len() implies is_b64_char(#[trigger] g[i]) by {
            assert(0 <= (n / 262144) % 64 < 64);
            assert(0 <= (n / 4096) % 64 < 64);
            assert(0 <= (n / 64) % 64 < 64);
            assert(0 <= n % 64 < 64);
        }
        if s.len() > 3 {
            law_base64_length(s.skip(3));
            let r = b64(s.skip(3));
            assert forall|i: int| 0 <= i < b64(s).len() implies is_b64_char(#[trigger] b64(s)[i]) by {
                if i < 4 {
                    assert(b64(s)[i] == g[i]);
                } else {
                    assert(b64(s)[i] == r[i - 4]);
                }
            }
        } else {
            assert(b64(s) =~= g);
        }
    }
}

} // verus!
