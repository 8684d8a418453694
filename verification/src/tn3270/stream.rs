//! The 3270 data stream: buffer addressing, outbound writes, inbound reads.
use vstd::prelude::*;
use crate::tn3270::ebcdic::{self, Ebcdic};
use crate::tn3270::screen::{Field, Screen};

verus! {

// outbound 3270 commands
pub const CMD_WRITE: u8 = 0xF1;
pub const CMD_ERASE_WRITE: u8 = 0xF5;
pub const CMD_ERASE_WRITE_ALT: u8 = 0x7E;
pub const CMD_READ_BUFFER: u8 = 0xF2;
pub const CMD_READ_MODIFIED: u8 = 0xF6;

// orders
pub const SF: u8 = 0x1D;
pub const SBA: u8 = 0x11;
pub const IC: u8 = 0x13;
pub const RA: u8 = 0x3C;
pub const SFE: u8 = 0x29;

// AIDs (inbound, first byte of a Read Modified)
pub const AID_ENTER: u8 = 0x7D;
pub const AID_CLEAR: u8 = 0x6D;
pub const AID_PA1: u8 = 0x6C;

/// The 64 graphic bytes that carry six bits of a 12-bit buffer address.
pub const ADDR: [u8; 64] = [
    0x40, 0xC1, 0xC2, 0xC3, 0xC4, 0xC5, 0xC6, 0xC7, 0xC8, 0xC9, 0x4A, 0x4B, 0x4C, 0x4D, 0x4E, 0x4F,
    0x50, 0xD1, 0xD2, 0xD3, 0xD4, 0xD5, 0xD6, 0xD7, 0xD8, 0xD9, 0x5A, 0x5B, 0x5C, 0x5D, 0x5E, 0x5F,
    0x60, 0x61, 0xE2, 0xE3, 0xE4, 0xE5, 0xE6, 0xE7, 0xE8, 0xE9, 0x6A, 0x6B, 0x6C, 0x6D, 0x6E, 0x6F,
    0xF0, 0xF1, 0xF2, 0xF3, 0xF4, 0xF5, 0xF6, 0xF7, 0xF8, 0xF9, 0x7A, 0x7B, 0x7C, 0x7D, 0x7E, 0x7F,
];

/// `ADDR[i]`: the byte that carries the six-bit value `i`.
#[verifier::opaque]
pub open spec fn addr_code(i: u8) -> u8 {
    match i {
        0 => 0x40,  1 => 0xC1,  2 => 0xC2,  3 => 0xC3,
        4 => 0xC4,  5 => 0xC5,  6 => 0xC6,  7 => 0xC7,
        8 => 0xC8,  9 => 0xC9,  10 => 0x4A,  11 => 0x4B,
        12 => 0x4C,  13 => 0x4D,  14 => 0x4E,  15 => 0x4F,
        16 => 0x50,  17 => 0xD1,  18 => 0xD2,  19 => 0xD3,
        20 => 0xD4,  21 => 0xD5,  22 => 0xD6,  23 => 0xD7,
        24 => 0xD8,  25 => 0xD9,  26 => 0x5A,  27 => 0x5B,
        28 => 0x5C,  29 => 0x5D,  30 => 0x5E,  31 => 0x5F,
        32 => 0x60,  33 => 0x61,  34 => 0xE2,  35 => 0xE3,
        36 => 0xE4,  37 => 0xE5,  38 => 0xE6,  39 => 0xE7,
        40 => 0xE8,  41 => 0xE9,  42 => 0x6A,  43 => 0x6B,
        44 => 0x6C,  45 => 0x6D,  46 => 0x6E,  47 => 0x6F,
        48 => 0xF0,  49 => 0xF1,  50 => 0xF2,  51 => 0xF3,
        52 => 0xF4,  53 => 0xF5,  54 => 0xF6,  55 => 0xF7,
        56 => 0xF8,  57 => 0xF9,  58 => 0x7A,  59 => 0x7B,
        60 => 0x7C,  61 => 0x7D,  62 => 0x7E,  63 => 0x7F,
        _ => 0x40,
    }
}

/// The six-bit value that byte `b` carries: its index in `ADDR`, or 64 when it
/// is not an address byte.
#[verifier::opaque]
pub open spec fn addr_index(b: u8) -> u8 {
    match b {
        0x40 => 0,  0xC1 => 1,  0xC2 => 2,  0xC3 => 3,
        0xC4 => 4,  0xC5 => 5,  0xC6 => 6,  0xC7 => 7,
        0xC8 => 8,  0xC9 => 9,  0x4A => 10,  0x4B => 11,
        0x4C => 12,  0x4D => 13,  0x4E => 14,  0x4F => 15,
        0x50 => 16,  0xD1 => 17,  0xD2 => 18,  0xD3 => 19,
        0xD4 => 20,  0xD5 => 21,  0xD6 => 22,  0xD7 => 23,
        0xD8 => 24,  0xD9 => 25,  0x5A => 26,  0x5B => 27,
        0x5C => 28,  0x5D => 29,  0x5E => 30,  0x5F => 31,
        0x60 => 32,  0x61 => 33,  0xE2 => 34,  0xE3 => 35,
        0xE4 => 36,  0xE5 => 37,  0xE6 => 38,  0xE7 => 39,
        0xE8 => 40,  0xE9 => 41,  0x6A => 42,  0x6B => 43,
        0x6C => 44,  0x6D => 45,  0x6E => 46,  0x6F => 47,
        0xF0 => 48,  0xF1 => 49,  0xF2 => 50,  0xF3 => 51,
        0xF4 => 52,  0xF5 => 53,  0xF6 => 54,  0xF7 => 55,
        0xF8 => 56,  0xF9 => 57,  0x7A => 58,  0x7B => 59,
        0x7C => 60,  0x7D => 61,  0x7E => 62,  0x7F => 63,
        _ => 64,
    }
}

fn addr_code_exec(i: u8) -> (r: u8)
    ensures
        r == addr_code(i),
{
    proof {
        reveal(addr_code);
    }
    match i {
        0 => 0x40,  1 => 0xC1,  2 => 0xC2,  3 => 0xC3,
        4 => 0xC4,  5 => 0xC5,  6 => 0xC6,  7 => 0xC7,
        8 => 0xC8,  9 => 0xC9,  10 => 0x4A,  11 => 0x4B,
        12 => 0x4C,  13 => 0x4D,  14 => 0x4E,  15 => 0x4F,
        16 => 0x50,  17 => 0xD1,  18 => 0xD2,  19 => 0xD3,
        20 => 0xD4,  21 => 0xD5,  22 => 0xD6,  23 => 0xD7,
        24 => 0xD8,  25 => 0xD9,  26 => 0x5A,  27 => 0x5B,
        28 => 0x5C,  29 => 0x5D,  30 => 0x5E,  31 => 0x5F,
        32 => 0x60,  33 => 0x61,  34 => 0xE2,  35 => 0xE3,
        36 => 0xE4,  37 => 0xE5,  38 => 0xE6,  39 => 0xE7,
        40 => 0xE8,  41 => 0xE9,  42 => 0x6A,  43 => 0x6B,
        44 => 0x6C,  45 => 0x6D,  46 => 0x6E,  47 => 0x6F,
        48 => 0xF0,  49 => 0xF1,  50 => 0xF2,  51 => 0xF3,
        52 => 0xF4,  53 => 0xF5,  54 => 0xF6,  55 => 0xF7,
        56 => 0xF8,  57 => 0xF9,  58 => 0x7A,  59 => 0x7B,
        60 => 0x7C,  61 => 0x7D,  62 => 0x7E,  63 => 0x7F,
        _ => 0x40,
    }
}

fn addr_index_exec(b: u8) -> (r: u8)
    ensures
        r == addr_index(b),
{
    proof {
        reveal(addr_index);
    }
    match b {
        0x40 => 0,  0xC1 => 1,  0xC2 => 2,  0xC3 => 3,
        0xC4 => 4,  0xC5 => 5,  0xC6 => 6,  0xC7 => 7,
        0xC8 => 8,  0xC9 => 9,  0x4A => 10,  0x4B => 11,
        0x4C => 12,  0x4D => 13,  0x4E => 14,  0x4F => 15,
        0x50 => 16,  0xD1 => 17,  0xD2 => 18,  0xD3 => 19,
        0xD4 => 20,  0xD5 => 21,  0xD6 => 22,  0xD7 => 23,
        0xD8 => 24,  0xD9 => 25,  0x5A => 26,  0x5B => 27,
        0x5C => 28,  0x5D => 29,  0x5E => 30,  0x5F => 31,
        0x60 => 32,  0x61 => 33,  0xE2 => 34,  0xE3 => 35,
        0xE4 => 36,  0xE5 => 37,  0xE6 => 38,  0xE7 => 39,
        0xE8 => 40,  0xE9 => 41,  0x6A => 42,  0x6B => 43,
        0x6C => 44,  0x6D => 45,  0x6E => 46,  0x6F => 47,
        0xF0 => 48,  0xF1 => 49,  0xF2 => 50,  0xF3 => 51,
        0xF4 => 52,  0xF5 => 53,  0xF6 => 54,  0xF7 => 55,
        0xF8 => 56,  0xF9 => 57,  0x7A => 58,  0x7B => 59,
        0x7C => 60,  0x7D => 61,  0x7E => 62,  0x7F => 63,
        _ => 64,
    }
}

#[verifier::rlimit(50)]
proof fn lemma_addr_index_code(i: u8)
    requires
        i < 64,
    ensures
        addr_index(addr_code(i)) == i,
        addr_code(i) != SBA,
{
    reveal(addr_code);
    reveal(addr_index);
    assert(i < 64 ==> addr_index(addr_code(i)) == i) by (bit_vector);
    assert(i < 64 ==> addr_code(i) != 0x11u8) by (bit_vector);
}

#[verifier::rlimit(50)]
proof fn lemma_addr_code_index(b: u8)
    requires
        addr_index(b) < 64,
    ensures
        addr_code(addr_index(b)) == b,
{
    reveal(addr_code);
    reveal(addr_index);
    assert(addr_index(b) < 64 ==> addr_code(addr_index(b)) == b) by (bit_vector);
}

/// `ADDR` lists the address bytes in the order of the six-bit values they carry.
pub proof fn lemma_addr_table()
    ensures
        forall|i: int| 0 <= i < 64 ==> #[trigger] ADDR@[i] == addr_code(i as u8),
        forall|i: int| 0 <= i < 64 ==> addr_index(#[trigger] ADDR@[i]) == i,
{
    reveal(addr_code);
    assert forall|i: int| 0 <= i < 64 implies #[trigger] ADDR@[i] == addr_code(i as u8) by {
        assert(ADDR@[i] == addr_code(i as u8));
    }
    assert forall|i: int| 0 <= i < 64 implies addr_index(#[trigger] ADDR@[i]) == i by {
        lemma_addr_index_code(i as u8);
    }
}

/// The two address bytes of buffer position `pos` (high six bits first).
pub open spec fn enc_addr_spec(pos: int) -> Seq<u8> {
    seq![addr_code(((pos / 64) % 64) as u8), addr_code((pos % 64) as u8)]
}

/// The six-bit value carried by an address byte; 0 for any other byte.
pub open spec fn six_bits(b: u8) -> int {
    if addr_index(b) < 64 {
        addr_index(b) as int
    } else {
        0
    }
}

/// The buffer position that two address bytes carry.
pub open spec fn dec_addr_spec(hi: u8, lo: u8) -> int {
    six_bits(hi) * 64 + six_bits(lo)
}

pub fn enc_addr(pos: u16) -> (r: [u8; 2])
    ensures
        r@ == enc_addr_spec(pos as int),
{
    let hi: u16 = (pos >> 6) & 0x3F;
    let lo: u16 = pos & 0x3F;
    assert(hi == (pos / 64) % 64) by (bit_vector)
        requires
            hi == (pos >> 6) & 0x3F,
    ;
    assert(lo == pos % 64) by (bit_vector)
        requires
            lo == pos & 0x3F,
    ;
    let r = [addr_code_exec(hi as u8), addr_code_exec(lo as u8)];
    assert(r@ =~= enc_addr_spec(pos as int));
    r
}

pub fn dec_addr(hi: u8, lo: u8) -> (r: u16)
    ensures
        r as int == dec_addr_spec(hi, lo),
{
    let h = addr_index_exec(hi);
    let l = addr_index_exec(lo);
    let h: u16 = if h < 64 {
        h as u16
    } else {
        0
    };
    let l: u16 = if l < 64 {
        l as u16
    } else {
        0
    };
    h * 64 + l
}

/// Two address bytes decode to a position of the 12-bit space, and when both are
/// address bytes (entries of `ADDR`) encoding that position gives them back.
pub proof fn lemma_addr_bytes_roundtrip(hi: u8, lo: u8)
    ensures
        0 <= dec_addr_spec(hi, lo) < 4096,
        addr_index(hi) < 64 && addr_index(lo) < 64 ==> enc_addr_spec(dec_addr_spec(hi, lo)) == seq![
            hi,
            lo,
        ],
{
    if addr_index(hi) < 64 && addr_index(lo) < 64 {
        lemma_addr_code_index(hi);
        lemma_addr_code_index(lo);
        let p = dec_addr_spec(hi, lo);
        assert(p / 64 == addr_index(hi) as int && p % 64 == addr_index(lo) as int);
        assert(enc_addr_spec(p) =~= seq![hi, lo]);
    }
}

/// Every position of the 12-bit address space survives encoding and decoding.
pub proof fn lemma_addr_roundtrip(pos: int)
    requires
        0 <= pos < 4096,
    ensures
        dec_addr_spec(enc_addr_spec(pos)[0], enc_addr_spec(pos)[1]) == pos,
        enc_addr_spec(pos)[0] != SBA,
        enc_addr_spec(pos)[1] != SBA,
{
    let h = ((pos / 64) % 64) as u8;
    let l = (pos % 64) as u8;
    lemma_addr_index_code(h);
    lemma_addr_index_code(l);
    assert(pos / 64 < 64);
}

/// Buffer position of `row`, `col` on a 24x80 (model 2) screen.
pub open spec fn rc_to_pos_spec(row: int, col: int) -> int {
    row * 80 + col
}

pub fn rc_to_pos(row: u16, col: u16) -> (r: u16)
    requires
        rc_to_pos_spec(row as int, col as int) <= u16::MAX,
    ensures
        r as int == rc_to_pos_spec(row as int, col as int),
{
    row * 80 + col
}

/// Field-attribute byte after SF: protected/unprotected, display/non-display, high
/// bits set so it lands as a graphic.
pub open spec fn attr_byte_spec(protected: bool, hidden: bool) -> u8 {
    (0xC0 + (if protected { 0x20int } else { 0 }) + (if hidden { 0x0Cint } else { 0 })) as u8
}

pub fn attr_byte(protected: bool, hidden: bool) -> (a: u8)
    ensures
        a == attr_byte_spec(protected, hidden),
{
    let mut a: u8 = 0xC0;
    if protected {
        a = a + 0x20;
    }
    if hidden {
        a = a + 0x0C;
    }
    a
}

/// The bytes that write field `f`: set the buffer address, start a field with
/// its attribute, then the text in EBCDIC.
pub open spec fn field_bytes(f: Field) -> Seq<u8> {
    seq![SBA] + enc_addr_spec(rc_to_pos_spec(f.row as int, f.col as int)) + seq![
        SF,
        attr_byte_spec(f.protected, f.hidden),
    ] + ebcdic::encode(f.text@)
}

pub open spec fn fields_bytes(fs: Seq<Field>) -> Seq<u8>
    decreases fs.len(),
{
    if fs.len() == 0 {
        seq![]
    } else {
        fields_bytes(fs.drop_last()) + field_bytes(fs.last())
    }
}

/// Every field position and the cursor lie in the 16-bit address range.
pub open spec fn screen_fits(s: Screen) -> bool {
    &&& forall|i: int|
        0 <= i < s.fields@.len() ==> rc_to_pos_spec(
            #[trigger] s.fields@[i].row as int,
            s.fields@[i].col as int,
        ) <= u16::MAX
    &&& rc_to_pos_spec(s.cursor.0 as int, s.cursor.1 as int) <= u16::MAX
}

/// An Erase/Write of the whole screen: command, WCC (reset + keyboard
/// restore), every field, then Insert Cursor.  The caller frames it with IAC EOR.
pub open spec fn render_spec(s: Screen) -> Seq<u8> {
    seq![CMD_ERASE_WRITE, 0xC3] + fields_bytes(s.fields@) + seq![IC] + enc_addr_spec(
        rc_to_pos_spec(s.cursor.0 as int, s.cursor.1 as int),
    )
}

pub fn render_3270(s: &Screen, ebcdic: &Ebcdic) -> (b: Vec<u8>)
    requires
        screen_fits(*s),
    ensures
        b@ == render_spec(*s),
{
    let mut b: Vec<u8> = Vec::new();
    b.push(CMD_ERASE_WRITE);
    b.push(0xC3);
    let mut i: usize = 0;
    while i < s.fields.len()
        invariant
            i <= s.fields@.len(),
            screen_fits(*s),
            b@ == seq![CMD_ERASE_WRITE, 0xC3] + fields_bytes(s.fields@.take(i as int)),
        decreases s.fields.len() - i,
    {
        let f = &s.fields[i];
        assert(rc_to_pos_spec(s.fields@[i as int].row as int, s.fields@[i as int].col as int)
            <= u16::MAX);
        b.push(SBA);
        let a = enc_addr(rc_to_pos(f.row, f.col));
        b.push(a[0]);
        b.push(a[1]);
        b.push(SF);
        b.push(attr_byte(f.protected, f.hidden));
        let mut t = ebcdic.to_bytes(f.text.as_str());
        b.append(&mut t);
        proof {
            assert(s.fields@.take(i + 1).drop_last() =~= s.fields@.take(i as int));
            assert(b@ =~= seq![CMD_ERASE_WRITE, 0xC3] + fields_bytes(s.fields@.take(i + 1)));
        }
        i += 1;
    }
    assert(s.fields@.take(s.fields@.len() as int) =~= s.fields@);
    b.push(IC);
    let a = enc_addr(rc_to_pos(s.cursor.0, s.cursor.1));
    b.push(a[0]);
    b.push(a[1]);
    assert(b@ =~= render_spec(*s));
    b
}

/// What a terminal sent back: the attention key, the cursor position, and each
/// modified field's buffer position and text.
pub struct Inbound {
    pub aid: u8,
    pub cursor: u16,
    pub fields: Vec<(u16, String)>,
}

/// The first index at or after `i` that holds SBA, or the length.
pub open spec fn next_sba(b: Seq<u8>, i: int) -> int
    decreases b.len() - i,
{
    if i < 0 || i >= b.len() {
        b.len() as int
    } else if b[i] == SBA {
        i
    } else {
        next_sba(b, i + 1)
    }
}

proof fn lemma_next_sba(b: Seq<u8>, i: int)
    requires
        0 <= i <= b.len(),
    ensures
        i <= next_sba(b, i) <= b.len(),
    decreases b.len() - i,
{
    if i < b.len() && b[i] != SBA {
        lemma_next_sba(b, i + 1);
    }
}

/// The modified fields found in `b` from position `i` on: each SBA with two
/// address bytes after it opens a field whose text runs to the next SBA.
pub open spec fn inbound_fields(b: Seq<u8>, i: int) -> Seq<(int, Seq<char>)>
    decreases b.len() - i,
{
    if i < 0 || i >= b.len() {
        seq![]
    } else if b[i] == SBA && i + 2 < b.len() {
        let start = i + 3;
        let end = next_sba(b, start);
        if start <= end <= b.len() {
            seq![(dec_addr_spec(b[i + 1], b[i + 2]), ebcdic::decode(b.subrange(start, end)))]
                + inbound_fields(b, end)
        } else {
            seq![]
        }
    } else {
        inbound_fields(b, i + 1)
    }
}

/// The meaning of an inbound Read Modified: AID, cursor, modified fields.
pub open spec fn parse_inbound_spec(b: Seq<u8>) -> (u8, int, Seq<(int, Seq<char>)>) {
    if b.len() == 0 {
        (0, 0, seq![])
    } else {
        (b[0], if b.len() >= 3 { dec_addr_spec(b[1], b[2]) } else { 0 }, inbound_fields(b, 3))
    }
}

/// The header of an inbound reply: its first byte is the attention key, even
/// when the terminal sends nothing else (as for CLEAR); the next two bytes, when
/// present, are the cursor address; a reply too short for a cursor carries no
/// cursor and no fields.
pub proof fn lemma_inbound_header(b: Seq<u8>)
    ensures
        b.len() > 0 ==> parse_inbound_spec(b).0 == b[0],
        b.len() >= 3 ==> parse_inbound_spec(b).1 == six_bits(b[1]) * 64 + six_bits(b[2]),
        b.len() < 3 ==> parse_inbound_spec(b).1 == 0 && parse_inbound_spec(b).2.len() == 0,
{
}

pub open spec fn inbound_view(r: Inbound) -> (u8, int, Seq<(int, Seq<char>)>) {
    (r.aid, r.cursor as int, r.fields@.map_values(|p: (u16, String)| (p.0 as int, p.1@)))
}

pub fn parse_inbound(bytes: &[u8], ebcdic: &Ebcdic) -> (r: Inbound)
    ensures
        inbound_view(r) == parse_inbound_spec(bytes@),
        bytes@.len() > 0 ==> r.aid == bytes@[0],
{
    proof {
        lemma_inbound_header(bytes@);
    }
    let ghost b = bytes@;
    if bytes.len() == 0 {
        let r = Inbound { aid: 0, cursor: 0, fields: Vec::new() };
        assert(inbound_view(r).2 =~= seq![]);
        return r;
    }
    let aid = bytes[0];
    let cursor = if bytes.len() >= 3 {
        dec_addr(bytes[1], bytes[2])
    } else {
        0
    };
    let mut fields: Vec<(u16, String)> = Vec::new();
    let mut i: usize = 3;
    while i < bytes.len()
        invariant
            3 <= i,
            b == bytes@,
            i >= bytes@.len() ==> inbound_fields(b, i as int) == Seq::<(int, Seq<char>)>::empty(),
            inbound_fields(b, 3) == fields@.map_values(|p: (u16, String)| (p.0 as int, p.1@))
                + inbound_fields(b, i as int),
        decreases bytes.len() - i,
    {
        if bytes[i] == SBA && bytes.len() - i > 2 {
            let pos = dec_addr(bytes[i + 1], bytes[i + 2]);
            let ghost i0 = i as int;
            i += 3;
            let start = i;
            proof {
                lemma_next_sba(b, start as int);
            }
            while i < bytes.len() && bytes[i] != SBA
                invariant
                    start <= i <= bytes@.len(),
                    b == bytes@,
                    next_sba(b, start as int) == next_sba(b, i as int),
                decreases bytes.len() - i,
            {
                i += 1;
            }
            let text = ebcdic.to_string(&bytes[start..i]);
            proof {
                assert(bytes@.subrange(start as int, i as int) == b.subrange(start as int, i as int));
                assert(next_sba(b, i as int) == i);
                let v = fields@.map_values(|p: (u16, String)| (p.0 as int, p.1@));
                assert(fields@.push((pos, text)).map_values(|p: (u16, String)| (p.0 as int, p.1@))
                    =~= v.push((pos as int, text@)));
            }
            fields.push((pos, text));
        } else {
            i += 1;
        }
    }
    let r = Inbound { aid, cursor, fields };
    assert(inbound_view(r).2 =~= inbound_fields(b, 3));
    r
}

/// The modified-field part of a Read Modified reply, from each field's address
/// and the bytes of its text: SBA, the address bytes, the text bytes.
pub open spec fn rm_field_bytes(fs: Seq<(int, Seq<u8>)>) -> Seq<u8>
    decreases fs.len(),
{
    if fs.len() == 0 {
        seq![]
    } else {
        seq![SBA] + enc_addr_spec(fs[0].0) + fs[0].1 + rm_field_bytes(fs.drop_first())
    }
}

/// Each field with its text in EBCDIC.
pub open spec fn encode_fields(fs: Seq<(int, Seq<char>)>) -> Seq<(int, Seq<u8>)> {
    fs.map_values(|f: (int, Seq<char>)| (f.0, ebcdic::encode(f.1)))
}

/// Each field with its bytes decoded from EBCDIC.
pub open spec fn decode_fields(fs: Seq<(int, Seq<u8>)>) -> Seq<(int, Seq<char>)> {
    fs.map_values(|f: (int, Seq<u8>)| (f.0, ebcdic::decode(f.1)))
}

/// The modified-field part of a Read Modified reply: for each field, SBA, the
/// field's address, and its text in EBCDIC.
pub open spec fn rm_fields(fs: Seq<(int, Seq<char>)>) -> Seq<u8> {
    rm_field_bytes(encode_fields(fs))
}

/// A whole Read Modified reply as a terminal sends it.
pub open spec fn read_modified(aid: u8, cursor: int, fs: Seq<(int, Seq<char>)>) -> Seq<u8> {
    seq![aid] + enc_addr_spec(cursor) + rm_fields(fs)
}

/// A field whose bytes a Read Modified can carry unambiguously: its address
/// fits in 12 bits, and none of its bytes is SBA.
pub open spec fn sendable_bytes(f: (int, Seq<u8>)) -> bool {
    &&& 0 <= f.0 < 4096
    &&& !f.1.contains(SBA)
}

/// A field that a Read Modified can carry unambiguously: its address fits in 12
/// bits, and its text has EBCDIC bytes none of which is SBA.
pub open spec fn sendable_field(f: (int, Seq<char>)) -> bool {
    &&& 0 <= f.0 < 4096
    &&& ebcdic::is_latin1(f.1)
    &&& !ebcdic::encode(f.1).contains(SBA)
}

proof fn lemma_next_sba_over(q: Seq<u8>, t: Seq<u8>, r: Seq<u8>)
    requires
        !t.contains(SBA),
        r.len() == 0 || r[0] == SBA,
    ensures
        next_sba(q + t + r, q.len() as int) == q.len() + t.len(),
    decreases t.len(),
{
    let b = q + t + r;
    if t.len() == 0 {
        assert(b =~= q + r);
        if r.len() > 0 {
            assert(b[q.len() as int] == r[0]);
        }
    } else {
        let q2 = q.push(t[0]);
        let t2 = t.drop_first();
        assert(!t2.contains(SBA)) by {
            if t2.contains(SBA) {
                let k = choose|k: int| 0 <= k < t2.len() && t2[k] == SBA;
                assert(t[k + 1] == SBA);
            }
        }
        assert(q2 + t2 + r =~= b);
        lemma_next_sba_over(q2, t2, r);
        assert(b[q.len() as int] == t[0]);
        assert(t[0] != SBA) by {
            if t[0] == SBA {
                assert(t.contains(SBA));
            }
        }
    }
}

proof fn lemma_fields_from(p: Seq<u8>, fs: Seq<(int, Seq<u8>)>)
    requires
        forall|i: int| 0 <= i < fs.len() ==> sendable_bytes(#[trigger] fs[i]),
    ensures
        inbound_fields(p + rm_field_bytes(fs), p.len() as int) == decode_fields(fs),
    decreases fs.len(),
{
    let b = p + rm_field_bytes(fs);
    if fs.len() == 0 {
        assert(b =~= p);
        assert(decode_fields(fs) =~= Seq::<(int, Seq<char>)>::empty());
    } else {
        let f = fs[0];
        assert(sendable_bytes(f));
        let a = enc_addr_spec(f.0);
        let t = f.1;
        let rest = rm_field_bytes(fs.drop_first());
        let i = p.len() as int;
        lemma_addr_roundtrip(f.0);
        assert(b =~= p + seq![SBA] + a + t + rest);
        assert(b[i] == SBA);
        assert(b[i + 1] == a[0] && b[i + 2] == a[1]);
        let q = p + seq![SBA] + a;
        assert(q.len() == i + 3);
        assert(rest.len() == 0 || rest[0] == SBA) by {
            if fs.drop_first().len() > 0 {
                assert(rest[0] == SBA);
            }
        }
        lemma_next_sba_over(q, t, rest);
        assert(b =~= q + t + rest);
        let end = i + 3 + t.len();
        assert(b.subrange(i + 3, end) =~= t);
        let p2 = q + t;
        assert forall|k: int| 0 <= k < fs.drop_first().len() implies sendable_bytes(
            #[trigger] fs.drop_first()[k],
        ) by {
            assert(fs.drop_first()[k] == fs[k + 1]);
        }
        lemma_fields_from(p2, fs.drop_first());
        assert(p2 + rest =~= b);
        assert(decode_fields(fs) =~= seq![(f.0, ebcdic::decode(t))] + decode_fields(fs.drop_first()));
    }
}

/// Parsing a Read Modified gives back the AID, the cursor, and each modified
/// field's address with its bytes decoded from EBCDIC, in order, whatever those
/// bytes are, as long as none of them is SBA.
pub proof fn lemma_inbound_bytes_roundtrip(aid: u8, cursor: int, fs: Seq<(int, Seq<u8>)>)
    requires
        0 <= cursor < 4096,
        forall|i: int| 0 <= i < fs.len() ==> sendable_bytes(#[trigger] fs[i]),
    ensures
        parse_inbound_spec(seq![aid] + enc_addr_spec(cursor) + rm_field_bytes(fs)) == (
            aid,
            cursor,
            decode_fields(fs),
        ),
{
    let b = seq![aid] + enc_addr_spec(cursor) + rm_field_bytes(fs);
    let p = seq![aid] + enc_addr_spec(cursor);
    lemma_addr_roundtrip(cursor);
    lemma_fields_from(p, fs);
    assert(b[1] == enc_addr_spec(cursor)[0] && b[2] == enc_addr_spec(cursor)[1]);
}

/// The README's inbound round trip: parsing a Read Modified gives back the AID,
/// the cursor and every modified field that was sent, for field texts that the
/// code page carries (Latin-1).
pub proof fn lemma_inbound_roundtrip(aid: u8, cursor: int, fs: Seq<(int, Seq<char>)>)
    requires
        0 <= cursor < 4096,
        forall|i: int| 0 <= i < fs.len() ==> sendable_field(#[trigger] fs[i]),
    ensures
        parse_inbound_spec(read_modified(aid, cursor, fs)) == (aid, cursor, fs),
{
    let efs = encode_fields(fs);
    assert forall|i: int| 0 <= i < efs.len() implies sendable_bytes(#[trigger] efs[i]) by {
        assert(sendable_field(fs[i]));
    }
    lemma_inbound_bytes_roundtrip(aid, cursor, efs);
    assert forall|i: int| 0 <= i < fs.len() implies #[trigger] decode_fields(efs)[i] == fs[i] by {
        assert(sendable_field(fs[i]));
        ebcdic::lemma_decode_encode(fs[i].1);
    }
    assert(decode_fields(efs) =~= fs);
}

} // verus!
