//! A tiny JWT lab, enough to show the `alg=none` problem.  A real service must
//! never accept `alg=none`; the training lab does, on purpose, so learners can
//! see why it is dangerous.
use vstd::prelude::*;
use crate::text;
use vstd::utf8::{encode_scalar, encode_utf8};

verus! {

pub struct JwtConfig {
    /// Secure: false; training lab: true.
    pub allow_alg_none: bool,
}

// ---------------------------------------------------------------------------
// base64url (RFC 4648 section 5), without padding
// ---------------------------------------------------------------------------

/// The base64url digit for the six-bit value `i`.
pub open spec fn b64_char(i: int) -> char {
    if i < 26 {
        (65 + i) as char
    } else if i < 52 {
        (97 + i - 26) as char
    } else if i < 62 {
        (48 + i - 52) as char
    } else if i == 62 {
        '-'
    } else {
        '_'
    }
}

/// The six-bit value of a base64url digit byte; 255 for any other byte.
pub open spec fn b64_index(c: u8) -> u8 {
    if 65 <= c <= 90 {
        (c - 65) as u8
    } else if 97 <= c <= 122 {
        (c - 71) as u8
    } else if 48 <= c <= 57 {
        (c + 4) as u8
    } else if c == 45 {
        62
    } else if c == 95 {
        63
    } else {
        255
    }
}

fn b64_char_exec(i: u32) -> (c: char)
    requires
        i < 64,
    ensures
        c == b64_char(i as int),
{
    let b: u8 = if i < 26 {
        (65 + i) as u8
    } else if i < 52 {
        (97 + i - 26) as u8
    } else if i < 62 {
        (48 + i - 52) as u8
    } else if i == 62 {
        45
    } else {
        95
    };
    b as char
}

fn b64_index_exec(c: u8) -> (r: u8)
    ensures
        r == b64_index(c),
{
    if 65 <= c && c <= 90 {
        c - 65
    } else if 97 <= c && c <= 122 {
        c - 71
    } else if 48 <= c && c <= 57 {
        c + 4
    } else if c == 45 {
        62
    } else if c == 95 {
        63
    } else {
        255
    }
}

/// The digits of one chunk of one to three bytes: one more digit than bytes,
/// missing bytes counted as zero.
pub open spec fn enc_chunk(c: Seq<u8>) -> Seq<char> {
    let b0 = c[0] as int;
    let b1 = if c.len() > 1 { c[1] as int } else { 0 };
    let b2 = if c.len() > 2 { c[2] as int } else { 0 };
    let d = seq![b0 / 4, (b0 % 4) * 16 + b1 / 16, (b1 % 16) * 4 + b2 / 64, b2 % 64];
    d.take(c.len() + 1 as int).map_values(|x: int| b64_char(x))
}

/// base64url without padding: each chunk of three bytes (the last one maybe
/// shorter) in turn.
pub open spec fn b64_encode(b: Seq<u8>) -> Seq<char>
    decreases b.len(),
{
    if b.len() == 0 {
        seq![]
    } else if b.len() <= 3 {
        enc_chunk(b)
    } else {
        enc_chunk(b.take(3)) + b64_encode(b.skip(3))
    }
}

pub fn b64url_encode(bytes: &[u8]) -> (r: String)
    ensures
        r@ == b64_encode(bytes@),
        b64_decode(r@) == bytes@,
{
    proof {
        lemma_b64_roundtrip(bytes@);
    }
    let mut out: Vec<char> = Vec::new();
    let mut i: usize = 0;
    assert(bytes@.skip(0) =~= bytes@);
    while i < bytes.len()
        invariant
            i <= bytes@.len(),
            b64_encode(bytes@) == out@ + b64_encode(bytes@.skip(i as int)),
        decreases bytes.len() - i,
    {
        let len: usize = if bytes.len() - i >= 3 {
            3
        } else {
            bytes.len() - i
        };
        let b0: u8 = bytes[i];
        let b1: u8 = if len > 1 {
            bytes[i + 1]
        } else {
            0
        };
        let b2: u8 = if len > 2 {
            bytes[i + 2]
        } else {
            0
        };
        let n: u32 = ((b0 as u32) << 16) | ((b1 as u32) << 8) | (b2 as u32);
        let d0 = (n >> 18) & 0x3F;
        let d1 = (n >> 12) & 0x3F;
        let d2 = (n >> 6) & 0x3F;
        let d3 = n & 0x3F;
        assert(d0 == b0 / 4 && d1 == (b0 % 4) * 16 + b1 / 16 && d2 == (b1 % 16) * 4 + b2 / 64 && d3
            == b2 % 64) by (bit_vector)
            requires
                n == ((b0 as u32) << 16) | ((b1 as u32) << 8) | (b2 as u32),
                d0 == (n >> 18) & 0x3F,
                d1 == (n >> 12) & 0x3F,
                d2 == (n >> 6) & 0x3F,
                d3 == n & 0x3F,
        ;
        let ghost rest = bytes@.skip(i as int);
        let ghost chunk = if rest.len() <= 3 {
            rest
        } else {
            rest.take(3)
        };
        assert(chunk.len() == len);
        assert(chunk[0] == b0);
        assert(len > 1 ==> chunk[1] == b1);
        assert(len > 2 ==> chunk[2] == b2);
        let ghost before = out@;
        out.push(b64_char_exec(d0));
        out.push(b64_char_exec(d1));
        if len > 1 {
            out.push(b64_char_exec(d2));
        }
        if len > 2 {
            out.push(b64_char_exec(d3));
        }
        assert(out@ =~= before + enc_chunk(chunk));
        proof {
            if rest.len() > 3 {
                assert(rest.skip(3) =~= bytes@.skip(i + 3));
            } else {
                assert(bytes@.skip(i + len) =~= Seq::<u8>::empty());
            }
        }
        i = i + len;
    }
    assert(bytes@.skip(i as int) =~= Seq::<u8>::empty());
    assert(out@ + Seq::<char>::empty() =~= out@);
    text::string_of(&out)
}

/// The decoder's state: bytes out, the bit buffer, and how many of its low bits
/// are pending.
pub struct DecState {
    pub out: Seq<u8>,
    pub buf: u32,
    pub bits: u32,
}

/// One more input byte: bytes that are not digits are skipped; each digit adds
/// six bits, and every eight pending bits make an output byte.
pub open spec fn dec_step(st: DecState, c: u8) -> DecState {
    let v = b64_index(c);
    if v == 255 {
        st
    } else {
        let buf = (st.buf << 6u32) | (v as u32);
        let bits = (st.bits + 6) as u32;
        if bits >= 8 {
            DecState { out: st.out.push((buf >> ((bits - 8) as u32)) as u8), buf, bits: (bits - 8) as u32 }
        } else {
            DecState { out: st.out, buf, bits }
        }
    }
}

/// The state after the bytes `b`, starting from `st`.
pub open spec fn dec_from(st: DecState, b: Seq<u8>) -> DecState
    decreases b.len(),
{
    if b.len() == 0 {
        st
    } else {
        dec_step(dec_from(st, b.drop_last()), b.last())
    }
}

pub open spec fn dec_start() -> DecState {
    DecState { out: seq![], buf: 0, bits: 0 }
}

/// The bytes that the base64url digits in `s` stand for; other characters are
/// skipped, and trailing bits that make no whole byte are dropped.
pub open spec fn b64_decode(s: Seq<char>) -> Seq<u8> {
    dec_from(dec_start(), vstd::utf8::encode_utf8(s)).out
}

proof fn lemma_dec_bits(st: DecState, b: Seq<u8>)
    requires
        st.bits < 8,
    ensures
        dec_from(st, b).bits < 8,
    decreases b.len(),
{
    if b.len() > 0 {
        lemma_dec_bits(st, b.drop_last());
    }
}

/// The bytes that base64url text stands for (no padding; other characters are
/// skipped).
pub fn b64url_decode(s: &str) -> (r: Vec<u8>)
    ensures
        r@ == b64_decode(s@),
{
    let b = s.as_bytes();
    let mut out: Vec<u8> = Vec::new();
    let mut buf: u32 = 0;
    let mut bits: u32 = 0;
    let mut i: usize = 0;
    while i < b.len()
        invariant
            i <= b@.len(),
            b@ == vstd::utf8::encode_utf8(s@),
            bits < 8,
            dec_from(dec_start(), b@.take(i as int)) == (DecState { out: out@, buf, bits }),
        decreases b.len() - i,
    {
        proof {
            assert(b@.take(i + 1).drop_last() =~= b@.take(i as int));
        }
        let v = b64_index_exec(b[i]);
        if v != 255 {
            buf = (buf << 6u32) | (v as u32);
            bits = bits + 6;
            if bits >= 8 {
                bits = bits - 8;
                out.push((buf >> bits) as u8);
            }
        }
        i += 1;
    }
    assert(b@.take(b@.len() as int) =~= b@);
    out
}

/// The byte that stands for the base64url digit `i`.
pub open spec fn b64_byte(i: int) -> u8 {
    (b64_char(i) as u32) as u8
}

proof fn lemma_b64_byte(i: int)
    requires
        0 <= i < 64,
    ensures
        (b64_char(i) as u32) < 128,
        encode_scalar(b64_char(i) as u32) == seq![b64_byte(i)],
        encode_utf8(seq![b64_char(i)]) == seq![b64_byte(i)],
        b64_index(b64_byte(i)) == i,
{
    let c = b64_char(i) as u32;
    assert(c < 128);
    assert((c & 0x7F) == c) by (bit_vector)
        requires
            c < 128,
    ;
    let one = seq![b64_char(i)];
    assert(one.drop_first() =~= Seq::<char>::empty());
    assert(vstd::utf8::has_width_1_encoding(c));
    assert(encode_scalar(c) == seq![(c & 0x7F) as u8]);
    assert(encode_utf8(one) == encode_scalar(one[0] as u32) + encode_utf8(one.drop_first()));
    assert(encode_utf8(one) =~= seq![b64_byte(i)]);
}

proof fn lemma_utf8_concat(a: Seq<char>, b: Seq<char>)
    ensures
        encode_utf8(a + b) == encode_utf8(a) + encode_utf8(b),
    decreases a.len(),
{
    if a.len() == 0 {
        assert(a + b =~= b);
        assert(encode_utf8(a) + encode_utf8(b) =~= encode_utf8(b));
    } else {
        lemma_utf8_concat(a.drop_first(), b);
        assert((a + b).drop_first() =~= a.drop_first() + b);
        assert((a + b)[0] == a[0]);
        assert(encode_utf8(a) + encode_utf8(b) =~= encode_scalar(a[0] as u32) + (encode_utf8(
            a.drop_first(),
        ) + encode_utf8(b)));
    }
}

proof fn lemma_dec_append(st: DecState, x: Seq<u8>, y: Seq<u8>)
    ensures
        dec_from(st, x + y) == dec_from(dec_from(st, x), y),
    decreases y.len(),
{
    if y.len() == 0 {
        assert(x + y =~= x);
    } else {
        lemma_dec_append(st, x, y.drop_last());
        assert((x + y).drop_last() =~= x + y.drop_last());
        assert((x + y).last() == y.last());
    }
}

proof fn lemma_digits_utf8(d: Seq<int>)
    requires
        forall|k: int| 0 <= k < d.len() ==> 0 <= #[trigger] d[k] < 64,
    ensures
        encode_utf8(d.map_values(|x: int| b64_char(x))) == d.map_values(|x: int| b64_byte(x)),
    decreases d.len(),
{
    let cs = d.map_values(|x: int| b64_char(x));
    if d.len() == 0 {
        assert(cs =~= Seq::<char>::empty());
        assert(d.map_values(|x: int| b64_byte(x)) =~= Seq::<u8>::empty());
    } else {
        lemma_digits_utf8(d.drop_first());
        lemma_b64_byte(d[0]);
        assert(cs.drop_first() =~= d.drop_first().map_values(|x: int| b64_char(x)));
        assert(d.map_values(|x: int| b64_byte(x)) =~= seq![b64_byte(d[0])] + d.drop_first().map_values(
            |x: int| b64_byte(x),
        ));
    }
}

proof fn lemma_chunk_bits(buf: u32, b0: u32, b1: u32, b2: u32, d0: u32, d1: u32, d2: u32, d3: u32)
    by (bit_vector)
    requires
        b0 < 256,
        b1 < 256,
        b2 < 256,
        d0 == b0 / 4,
        d1 == (b0 % 4) * 16 + b1 / 16,
        d2 == (b1 % 16) * 4 + b2 / 64,
        d3 == b2 % 64,
    ensures
        ((((((buf << 6u32) | d0) << 6u32) | d1) >> 4u32) as u8) == b0 as u8,
        ((((((((buf << 6u32) | d0) << 6u32) | d1) << 6u32) | d2) >> 2u32) as u8) == b1 as u8,
        ((((((((((buf << 6u32) | d0) << 6u32) | d1) << 6u32) | d2) << 6u32) | d3) >> 0u32) as u8)
            == b2 as u8,
{
}

/// One chunk of digits, decoded from a state with no pending bits, adds the
/// chunk's bytes; a whole chunk leaves no bits pending.
proof fn lemma_dec_chunk(st: DecState, c: Seq<u8>)
    requires
        st.bits == 0,
        1 <= c.len() <= 3,
    ensures
        dec_from(st, encode_utf8(enc_chunk(c))).out == st.out + c,
        c.len() == 3 ==> dec_from(st, encode_utf8(enc_chunk(c))).bits == 0,
{
    let b0 = c[0] as int;
    let b1 = if c.len() > 1 { c[1] as int } else { 0 };
    let b2 = if c.len() > 2 { c[2] as int } else { 0 };
    let d = seq![b0 / 4, (b0 % 4) * 16 + b1 / 16, (b1 % 16) * 4 + b2 / 64, b2 % 64];
    let n = c.len() + 1;
    let dn = d.take(n as int);
    assert(enc_chunk(c) == dn.map_values(|x: int| b64_char(x)));
    lemma_digits_utf8(dn);
    let e = dn.map_values(|x: int| b64_byte(x));
    lemma_b64_byte(d[0]);
    lemma_b64_byte(d[1]);
    lemma_b64_byte(d[2]);
    lemma_b64_byte(d[3]);
    lemma_chunk_bits(
        st.buf,
        b0 as u32,
        b1 as u32,
        b2 as u32,
        d[0] as u32,
        d[1] as u32,
        d[2] as u32,
        d[3] as u32,
    );
    let s1 = dec_step(st, e[0]);
    let s2 = dec_step(s1, e[1]);
    assert(e.take(0) =~= Seq::<u8>::empty());
    assert(e.take(1).drop_last() =~= e.take(0));
    assert(e.take(2).drop_last() =~= e.take(1));
    assert(e.len() == n);
    assert(dec_from(st, e.take(0)) == st);
    assert(e.take(1).last() == e[0]);
    assert(dec_from(st, e.take(1)) == s1);
    assert(e.take(2).last() == e[1]);
    assert(dec_from(st, e.take(2)) == s2);
    assert(s1.bits == 6 && s1.out == st.out);
    assert(s2.bits == 4 && s2.out == st.out.push(c[0]));
    if n == 2 {
        assert(e.take(2) =~= e);
        assert(st.out + c =~= st.out.push(c[0]));
    } else {
        let s3 = dec_step(s2, e[2]);
        assert(e.take(3).drop_last() =~= e.take(2));
        assert(e.take(3).last() == e[2]);
        assert(dec_from(st, e.take(3)) == s3);
        assert(s3.bits == 2 && s3.out == st.out.push(c[0]).push(c[1]));
        if n == 3 {
            assert(e.take(3) =~= e);
            assert(st.out + c =~= st.out.push(c[0]).push(c[1]));
        } else {
            let s4 = dec_step(s3, e[3]);
            assert(e.take(4).drop_last() =~= e.take(3));
            assert(e.take(4).last() == e[3]);
            assert(e.take(4) =~= e);
            assert(s4.bits == 0 && s4.out == st.out.push(c[0]).push(c[1]).push(c[2]));
            assert(st.out + c =~= st.out.push(c[0]).push(c[1]).push(c[2]));
        }
    }
}

proof fn lemma_dec_encoded(st: DecState, b: Seq<u8>)
    requires
        st.bits == 0,
    ensures
        dec_from(st, encode_utf8(b64_encode(b))).out == st.out + b,
    decreases b.len(),
{
    if b.len() == 0 {
        assert(encode_utf8(Seq::<char>::empty()) == Seq::<u8>::empty());
        assert(st.out + b =~= st.out);
    } else if b.len() <= 3 {
        lemma_dec_chunk(st, b);
    } else {
        let x = enc_chunk(b.take(3));
        let y = b64_encode(b.skip(3));
        lemma_utf8_concat(x, y);
        lemma_dec_append(st, encode_utf8(x), encode_utf8(y));
        lemma_dec_chunk(st, b.take(3));
        let mid = dec_from(st, encode_utf8(x));
        lemma_dec_encoded(mid, b.skip(3));
        assert(st.out + b.take(3) + b.skip(3) =~= st.out + b);
    }
}

/// Decoding what base64url encoding wrote gives back the bytes that were
/// encoded: `b64url_decode(&b64url_encode(b))` returns `b`, since their
/// contracts are `b64_decode` and `b64_encode`.
pub proof fn lemma_b64_roundtrip(b: Seq<u8>)
    ensures
        b64_decode(b64_encode(b)) == b,
{
    lemma_dec_encoded(dec_start(), b);
    assert(dec_start().out + b =~= b);
}

// ---------------------------------------------------------------------------
// Tokens
// ---------------------------------------------------------------------------

/// The string value of a top-level field of a JSON document.
pub uninterp spec fn json_str_field(doc: Seq<u8>, key: Seq<char>) -> Option<Seq<char>>;

/// `serde_json::from_slice::<serde_json::Value>(doc)`, then `Value::get(key)` and
/// `Value::as_str`.  Trusted: the result is a function of the bytes and the key
/// (`None` for a document that does not parse, or a field that is missing or not
/// a string).  What JSON parsing accepts is not stated here.
#[verifier::external_body]
fn json_get_str(doc: &[u8], key: &str) -> (r: Option<String>)
    ensures
        match r {
            Some(v) => json_str_field(doc@, key@) == Some(v@),
            None => json_str_field(doc@, key@) is None,
        },
{
    match serde_json::from_slice::<serde_json::Value>(doc) {
        Ok(v) => match v.get(key) {
            Some(a) => a.as_str().map(|s| s.to_string()),
            None => None,
        },
        Err(_) => None,
    }
}

/// Whether a token with header algorithm `alg` and signature `sig` is accepted:
/// `none` only where the configuration allows it (the weakness), `HS256` when a
/// signature is present, nothing else.
pub open spec fn alg_accepted(allow_alg_none: bool, alg: Option<Seq<char>>, sig: Seq<char>) -> bool {
    if alg == Some("none"@) {
        allow_alg_none
    } else if alg == Some("HS256"@) {
        sig.len() > 0
    } else {
        false
    }
}

/// The decision on a header's algorithm.
pub fn accept_alg(cfg: &JwtConfig, alg: &Option<String>, sig: &str) -> (r: bool)
    ensures
        r == alg_accepted(
            cfg.allow_alg_none,
            match alg {
                Some(a) => Some(a@),
                None => None,
            },
            sig@,
        ),
{
    match alg {
        Some(a) => {
            let av = text::chars_of(a.as_str());
            if text::eq_str(&av, "none") {
                cfg.allow_alg_none
            } else if text::eq_str(&av, "HS256") {
                let sv = text::chars_of(sig);
                sv.len() > 0
            } else {
                false
            }
        },
        None => false,
    }
}

/// Whether `header.payload.signature` is accepted: the header's `alg` decides.
pub open spec fn validate_spec(allow_alg_none: bool, token: Seq<char>) -> bool {
    let parts = text::split_char(token, '.');
    if parts.len() < 2 {
        false
    } else {
        let sig = if parts.len() > 2 { parts[2] } else { seq![] };
        alg_accepted(allow_alg_none, json_str_field(b64_decode(parts[0]), "alg"@), sig)
    }
}

pub fn validate(cfg: &JwtConfig, token: &str) -> (r: bool)
    ensures
        r == validate_spec(cfg.allow_alg_none, token@),
{
    let tv = text::chars_of(token);
    let parts = text::split_char_vec(&tv, '.');
    let ghost ps = text::split_char(token@, '.');
    assert(parts@.len() == ps.len());
    if parts.len() < 2 {
        return false;
    }
    assert(parts@[0]@ == ps[0]);
    let sig: Vec<char> = if parts.len() > 2 {
        assert(parts@[2]@ == ps[2]);
        parts[2].clone()
    } else {
        Vec::new()
    };
    let h = text::string_of(&parts[0]);
    let header = b64url_decode(h.as_str());
    let alg = json_get_str(header.as_slice(), "alg");
    let sigs = text::string_of(&sig);
    accept_alg(cfg, &alg, sigs.as_str())
}

/// A token whose header names `alg=none` is refused when the configuration
/// does not allow it, and accepted when it does (the training weakness).
pub proof fn lemma_alg_none_only_when_allowed(token: Seq<char>)
    ensures
        ({
            let parts = text::split_char(token, '.');
            parts.len() >= 2 && json_str_field(b64_decode(parts[0]), "alg"@) == Some("none"@) ==> {
                &&& !validate_spec(false, token)
                &&& validate_spec(true, token)
            }
        }),
{
}

} // verus!
