//! EBCDIC code page 037 (CP037), the US/Canada code page of the 3270.
//!
//! CP037 maps the 256 byte values one-to-one onto the 256 characters
//! U+0000..U+00FF (ISO 8859-1).  Characters outside that range have no
//! CP037 byte and are written as SUB (0x3F).
use vstd::prelude::*;
use vstd::std_specs::iter::IteratorSpec;

verus! {

broadcast use vstd::string::group_string_axioms;

/// The EBCDIC byte written for a character that CP037 cannot represent.
pub const SUB: u8 = 0x3F;

/// The ISO 8859-1 code of the character that CP037 byte `b` stands for.
#[verifier::opaque]
pub open spec fn cp037_to_latin1(b: u8) -> u8 {
    match b {
        0 => 0x00,  1 => 0x01,  2 => 0x02,  3 => 0x03,
        4 => 0x9C,  5 => 0x09,  6 => 0x86,  7 => 0x7F,
        8 => 0x97,  9 => 0x8D,  10 => 0x8E,  11 => 0x0B,
        12 => 0x0C,  13 => 0x0D,  14 => 0x0E,  15 => 0x0F,
        16 => 0x10,  17 => 0x11,  18 => 0x12,  19 => 0x13,
        20 => 0x9D,  21 => 0x85,  22 => 0x08,  23 => 0x87,
        24 => 0x18,  25 => 0x19,  26 => 0x92,  27 => 0x8F,
        28 => 0x1C,  29 => 0x1D,  30 => 0x1E,  31 => 0x1F,
        32 => 0x80,  33 => 0x81,  34 => 0x82,  35 => 0x83,
        36 => 0x84,  37 => 0x0A,  38 => 0x17,  39 => 0x1B,
        40 => 0x88,  41 => 0x89,  42 => 0x8A,  43 => 0x8B,
        44 => 0x8C,  45 => 0x05,  46 => 0x06,  47 => 0x07,
        48 => 0x90,  49 => 0x91,  50 => 0x16,  51 => 0x93,
        52 => 0x94,  53 => 0x95,  54 => 0x96,  55 => 0x04,
        56 => 0x98,  57 => 0x99,  58 => 0x9A,  59 => 0x9B,
        60 => 0x14,  61 => 0x15,  62 => 0x9E,  63 => 0x1A,
        64 => 0x20,  65 => 0xA0,  66 => 0xE2,  67 => 0xE4,
        68 => 0xE0,  69 => 0xE1,  70 => 0xE3,  71 => 0xE5,
        72 => 0xE7,  73 => 0xF1,  74 => 0xA2,  75 => 0x2E,
        76 => 0x3C,  77 => 0x28,  78 => 0x2B,  79 => 0x7C,
        80 => 0x26,  81 => 0xE9,  82 => 0xEA,  83 => 0xEB,
        84 => 0xE8,  85 => 0xED,  86 => 0xEE,  87 => 0xEF,
        88 => 0xEC,  89 => 0xDF,  90 => 0x21,  91 => 0x24,
        92 => 0x2A,  93 => 0x29,  94 => 0x3B,  95 => 0xAC,
        96 => 0x2D,  97 => 0x2F,  98 => 0xC2,  99 => 0xC4,
        100 => 0xC0,  101 => 0xC1,  102 => 0xC3,  103 => 0xC5,
        104 => 0xC7,  105 => 0xD1,  106 => 0xA6,  107 => 0x2C,
        108 => 0x25,  109 => 0x5F,  110 => 0x3E,  111 => 0x3F,
        112 => 0xF8,  113 => 0xC9,  114 => 0xCA,  115 => 0xCB,
        116 => 0xC8,  117 => 0xCD,  118 => 0xCE,  119 => 0xCF,
        120 => 0xCC,  121 => 0x60,  122 => 0x3A,  123 => 0x23,
        124 => 0x40,  125 => 0x27,  126 => 0x3D,  127 => 0x22,
        128 => 0xD8,  129 => 0x61,  130 => 0x62,  131 => 0x63,
        132 => 0x64,  133 => 0x65,  134 => 0x66,  135 => 0x67,
        136 => 0x68,  137 => 0x69,  138 => 0xAB,  139 => 0xBB,
        140 => 0xF0,  141 => 0xFD,  142 => 0xFE,  143 => 0xB1,
        144 => 0xB0,  145 => 0x6A,  146 => 0x6B,  147 => 0x6C,
        148 => 0x6D,  149 => 0x6E,  150 => 0x6F,  151 => 0x70,
        152 => 0x71,  153 => 0x72,  154 => 0xAA,  155 => 0xBA,
        156 => 0xE6,  157 => 0xB8,  158 => 0xC6,  159 => 0xA4,
        160 => 0xB5,  161 => 0x7E,  162 => 0x73,  163 => 0x74,
        164 => 0x75,  165 => 0x76,  166 => 0x77,  167 => 0x78,
        168 => 0x79,  169 => 0x7A,  170 => 0xA1,  171 => 0xBF,
        172 => 0xD0,  173 => 0xDD,  174 => 0xDE,  175 => 0xAE,
        176 => 0x5E,  177 => 0xA3,  178 => 0xA5,  179 => 0xB7,
        180 => 0xA9,  181 => 0xA7,  182 => 0xB6,  183 => 0xBC,
        184 => 0xBD,  185 => 0xBE,  186 => 0x5B,  187 => 0x5D,
        188 => 0xAF,  189 => 0xA8,  190 => 0xB4,  191 => 0xD7,
        192 => 0x7B,  193 => 0x41,  194 => 0x42,  195 => 0x43,
        196 => 0x44,  197 => 0x45,  198 => 0x46,  199 => 0x47,
        200 => 0x48,  201 => 0x49,  202 => 0xAD,  203 => 0xF4,
        204 => 0xF6,  205 => 0xF2,  206 => 0xF3,  207 => 0xF5,
        208 => 0x7D,  209 => 0x4A,  210 => 0x4B,  211 => 0x4C,
        212 => 0x4D,  213 => 0x4E,  214 => 0x4F,  215 => 0x50,
        216 => 0x51,  217 => 0x52,  218 => 0xB9,  219 => 0xFB,
        220 => 0xFC,  221 => 0xF9,  222 => 0xFA,  223 => 0xFF,
        224 => 0x5C,  225 => 0xF7,  226 => 0x53,  227 => 0x54,
        228 => 0x55,  229 => 0x56,  230 => 0x57,  231 => 0x58,
        232 => 0x59,  233 => 0x5A,  234 => 0xB2,  235 => 0xD4,
        236 => 0xD6,  237 => 0xD2,  238 => 0xD3,  239 => 0xD5,
        240 => 0x30,  241 => 0x31,  242 => 0x32,  243 => 0x33,
        244 => 0x34,  245 => 0x35,  246 => 0x36,  247 => 0x37,
        248 => 0x38,  249 => 0x39,  250 => 0xB3,  251 => 0xDB,
        252 => 0xDC,  253 => 0xD9,  254 => 0xDA,  255 => 0x9F,
    }
}

/// The CP037 byte of the ISO 8859-1 character with code `l`.
#[verifier::opaque]
pub open spec fn latin1_to_cp037(l: u8) -> u8 {
    match l {
        0 => 0x00,  1 => 0x01,  2 => 0x02,  3 => 0x03,
        4 => 0x37,  5 => 0x2D,  6 => 0x2E,  7 => 0x2F,
        8 => 0x16,  9 => 0x05,  10 => 0x25,  11 => 0x0B,
        12 => 0x0C,  13 => 0x0D,  14 => 0x0E,  15 => 0x0F,
        16 => 0x10,  17 => 0x11,  18 => 0x12,  19 => 0x13,
        20 => 0x3C,  21 => 0x3D,  22 => 0x32,  23 => 0x26,
        24 => 0x18,  25 => 0x19,  26 => 0x3F,  27 => 0x27,
        28 => 0x1C,  29 => 0x1D,  30 => 0x1E,  31 => 0x1F,
        32 => 0x40,  33 => 0x5A,  34 => 0x7F,  35 => 0x7B,
        36 => 0x5B,  37 => 0x6C,  38 => 0x50,  39 => 0x7D,
        40 => 0x4D,  41 => 0x5D,  42 => 0x5C,  43 => 0x4E,
        44 => 0x6B,  45 => 0x60,  46 => 0x4B,  47 => 0x61,
        48 => 0xF0,  49 => 0xF1,  50 => 0xF2,  51 => 0xF3,
        52 => 0xF4,  53 => 0xF5,  54 => 0xF6,  55 => 0xF7,
        56 => 0xF8,  57 => 0xF9,  58 => 0x7A,  59 => 0x5E,
        60 => 0x4C,  61 => 0x7E,  62 => 0x6E,  63 => 0x6F,
        64 => 0x7C,  65 => 0xC1,  66 => 0xC2,  67 => 0xC3,
        68 => 0xC4,  69 => 0xC5,  70 => 0xC6,  71 => 0xC7,
        72 => 0xC8,  73 => 0xC9,  74 => 0xD1,  75 => 0xD2,
        76 => 0xD3,  77 => 0xD4,  78 => 0xD5,  79 => 0xD6,
        80 => 0xD7,  81 => 0xD8,  82 => 0xD9,  83 => 0xE2,
        84 => 0xE3,  85 => 0xE4,  86 => 0xE5,  87 => 0xE6,
        88 => 0xE7,  89 => 0xE8,  90 => 0xE9,  91 => 0xBA,
        92 => 0xE0,  93 => 0xBB,  94 => 0xB0,  95 => 0x6D,
        96 => 0x79,  97 => 0x81,  98 => 0x82,  99 => 0x83,
        100 => 0x84,  101 => 0x85,  102 => 0x86,  103 => 0x87,
        104 => 0x88,  105 => 0x89,  106 => 0x91,  107 => 0x92,
        108 => 0x93,  109 => 0x94,  110 => 0x95,  111 => 0x96,
        112 => 0x97,  113 => 0x98,  114 => 0x99,  115 => 0xA2,
        116 => 0xA3,  117 => 0xA4,  118 => 0xA5,  119 => 0xA6,
        120 => 0xA7,  121 => 0xA8,  122 => 0xA9,  123 => 0xC0,
        124 => 0x4F,  125 => 0xD0,  126 => 0xA1,  127 => 0x07,
        128 => 0x20,  129 => 0x21,  130 => 0x22,  131 => 0x23,
        132 => 0x24,  133 => 0x15,  134 => 0x06,  135 => 0x17,
        136 => 0x28,  137 => 0x29,  138 => 0x2A,  139 => 0x2B,
        140 => 0x2C,  141 => 0x09,  142 => 0x0A,  143 => 0x1B,
        144 => 0x30,  145 => 0x31,  146 => 0x1A,  147 => 0x33,
        148 => 0x34,  149 => 0x35,  150 => 0x36,  151 => 0x08,
        152 => 0x38,  153 => 0x39,  154 => 0x3A,  155 => 0x3B,
        156 => 0x04,  157 => 0x14,  158 => 0x3E,  159 => 0xFF,
        160 => 0x41,  161 => 0xAA,  162 => 0x4A,  163 => 0xB1,
        164 => 0x9F,  165 => 0xB2,  166 => 0x6A,  167 => 0xB5,
        168 => 0xBD,  169 => 0xB4,  170 => 0x9A,  171 => 0x8A,
        172 => 0x5F,  173 => 0xCA,  174 => 0xAF,  175 => 0xBC,
        176 => 0x90,  177 => 0x8F,  178 => 0xEA,  179 => 0xFA,
        180 => 0xBE,  181 => 0xA0,  182 => 0xB6,  183 => 0xB3,
        184 => 0x9D,  185 => 0xDA,  186 => 0x9B,  187 => 0x8B,
        188 => 0xB7,  189 => 0xB8,  190 => 0xB9,  191 => 0xAB,
        192 => 0x64,  193 => 0x65,  194 => 0x62,  195 => 0x66,
        196 => 0x63,  197 => 0x67,  198 => 0x9E,  199 => 0x68,
        200 => 0x74,  201 => 0x71,  202 => 0x72,  203 => 0x73,
        204 => 0x78,  205 => 0x75,  206 => 0x76,  207 => 0x77,
        208 => 0xAC,  209 => 0x69,  210 => 0xED,  211 => 0xEE,
        212 => 0xEB,  213 => 0xEF,  214 => 0xEC,  215 => 0xBF,
        216 => 0x80,  217 => 0xFD,  218 => 0xFE,  219 => 0xFB,
        220 => 0xFC,  221 => 0xAD,  222 => 0xAE,  223 => 0x59,
        224 => 0x44,  225 => 0x45,  226 => 0x42,  227 => 0x46,
        228 => 0x43,  229 => 0x47,  230 => 0x9C,  231 => 0x48,
        232 => 0x54,  233 => 0x51,  234 => 0x52,  235 => 0x53,
        236 => 0x58,  237 => 0x55,  238 => 0x56,  239 => 0x57,
        240 => 0x8C,  241 => 0x49,  242 => 0xCD,  243 => 0xCE,
        244 => 0xCB,  245 => 0xCF,  246 => 0xCC,  247 => 0xE1,
        248 => 0x70,  249 => 0xDD,  250 => 0xDE,  251 => 0xDB,
        252 => 0xDC,  253 => 0x8D,  254 => 0x8E,  255 => 0xDF,
    }
}

/// The character that CP037 byte `b` stands for.
pub open spec fn decode_byte(b: u8) -> char {
    (cp037_to_latin1(b) as u32) as char
}

/// The CP037 byte written for character `c`.
pub open spec fn encode_char(c: char) -> u8 {
    if (c as u32) < 256 {
        latin1_to_cp037((c as u32) as u8)
    } else {
        SUB
    }
}

pub open spec fn encode(s: Seq<char>) -> Seq<u8> {
    s.map_values(|c: char| encode_char(c))
}

pub open spec fn decode(b: Seq<u8>) -> Seq<char> {
    b.map_values(|x: u8| decode_byte(x))
}

/// Whether every character of `s` has a CP037 byte.
pub open spec fn is_latin1(s: Seq<char>) -> bool {
    forall|i: int| 0 <= i < s.len() ==> (#[trigger] s[i] as u32) < 256
}

fn cp037_to_latin1_exec(b: u8) -> (r: u8)
    ensures
        r == cp037_to_latin1(b),
{
    proof {
        reveal(cp037_to_latin1);
    }
    match b {
        0 => 0x00,  1 => 0x01,  2 => 0x02,  3 => 0x03,
        4 => 0x9C,  5 => 0x09,  6 => 0x86,  7 => 0x7F,
        8 => 0x97,  9 => 0x8D,  10 => 0x8E,  11 => 0x0B,
        12 => 0x0C,  13 => 0x0D,  14 => 0x0E,  15 => 0x0F,
        16 => 0x10,  17 => 0x11,  18 => 0x12,  19 => 0x13,
        20 => 0x9D,  21 => 0x85,  22 => 0x08,  23 => 0x87,
        24 => 0x18,  25 => 0x19,  26 => 0x92,  27 => 0x8F,
        28 => 0x1C,  29 => 0x1D,  30 => 0x1E,  31 => 0x1F,
        32 => 0x80,  33 => 0x81,  34 => 0x82,  35 => 0x83,
        36 => 0x84,  37 => 0x0A,  38 => 0x17,  39 => 0x1B,
        40 => 0x88,  41 => 0x89,  42 => 0x8A,  43 => 0x8B,
        44 => 0x8C,  45 => 0x05,  46 => 0x06,  47 => 0x07,
        48 => 0x90,  49 => 0x91,  50 => 0x16,  51 => 0x93,
        52 => 0x94,  53 => 0x95,  54 => 0x96,  55 => 0x04,
        56 => 0x98,  57 => 0x99,  58 => 0x9A,  59 => 0x9B,
        60 => 0x14,  61 => 0x15,  62 => 0x9E,  63 => 0x1A,
        64 => 0x20,  65 => 0xA0,  66 => 0xE2,  67 => 0xE4,
        68 => 0xE0,  69 => 0xE1,  70 => 0xE3,  71 => 0xE5,
        72 => 0xE7,  73 => 0xF1,  74 => 0xA2,  75 => 0x2E,
        76 => 0x3C,  77 => 0x28,  78 => 0x2B,  79 => 0x7C,
        80 => 0x26,  81 => 0xE9,  82 => 0xEA,  83 => 0xEB,
        84 => 0xE8,  85 => 0xED,  86 => 0xEE,  87 => 0xEF,
        88 => 0xEC,  89 => 0xDF,  90 => 0x21,  91 => 0x24,
        92 => 0x2A,  93 => 0x29,  94 => 0x3B,  95 => 0xAC,
        96 => 0x2D,  97 => 0x2F,  98 => 0xC2,  99 => 0xC4,
        100 => 0xC0,  101 => 0xC1,  102 => 0xC3,  103 => 0xC5,
        104 => 0xC7,  105 => 0xD1,  106 => 0xA6,  107 => 0x2C,
        108 => 0x25,  109 => 0x5F,  110 => 0x3E,  111 => 0x3F,
        112 => 0xF8,  113 => 0xC9,  114 => 0xCA,  115 => 0xCB,
        116 => 0xC8,  117 => 0xCD,  118 => 0xCE,  119 => 0xCF,
        120 => 0xCC,  121 => 0x60,  122 => 0x3A,  123 => 0x23,
        124 => 0x40,  125 => 0x27,  126 => 0x3D,  127 => 0x22,
        128 => 0xD8,  129 => 0x61,  130 => 0x62,  131 => 0x63,
        132 => 0x64,  133 => 0x65,  134 => 0x66,  135 => 0x67,
        136 => 0x68,  137 => 0x69,  138 => 0xAB,  139 => 0xBB,
        140 => 0xF0,  141 => 0xFD,  142 => 0xFE,  143 => 0xB1,
        144 => 0xB0,  145 => 0x6A,  146 => 0x6B,  147 => 0x6C,
        148 => 0x6D,  149 => 0x6E,  150 => 0x6F,  151 => 0x70,
        152 => 0x71,  153 => 0x72,  154 => 0xAA,  155 => 0xBA,
        156 => 0xE6,  157 => 0xB8,  158 => 0xC6,  159 => 0xA4,
        160 => 0xB5,  161 => 0x7E,  162 => 0x73,  163 => 0x74,
        164 => 0x75,  165 => 0x76,  166 => 0x77,  167 => 0x78,
        168 => 0x79,  169 => 0x7A,  170 => 0xA1,  171 => 0xBF,
        172 => 0xD0,  173 => 0xDD,  174 => 0xDE,  175 => 0xAE,
        176 => 0x5E,  177 => 0xA3,  178 => 0xA5,  179 => 0xB7,
        180 => 0xA9,  181 => 0xA7,  182 => 0xB6,  183 => 0xBC,
        184 => 0xBD,  185 => 0xBE,  186 => 0x5B,  187 => 0x5D,
        188 => 0xAF,  189 => 0xA8,  190 => 0xB4,  191 => 0xD7,
        192 => 0x7B,  193 => 0x41,  194 => 0x42,  195 => 0x43,
        196 => 0x44,  197 => 0x45,  198 => 0x46,  199 => 0x47,
        200 => 0x48,  201 => 0x49,  202 => 0xAD,  203 => 0xF4,
        204 => 0xF6,  205 => 0xF2,  206 => 0xF3,  207 => 0xF5,
        208 => 0x7D,  209 => 0x4A,  210 => 0x4B,  211 => 0x4C,
        212 => 0x4D,  213 => 0x4E,  214 => 0x4F,  215 => 0x50,
        216 => 0x51,  217 => 0x52,  218 => 0xB9,  219 => 0xFB,
        220 => 0xFC,  221 => 0xF9,  222 => 0xFA,  223 => 0xFF,
        224 => 0x5C,  225 => 0xF7,  226 => 0x53,  227 => 0x54,
        228 => 0x55,  229 => 0x56,  230 => 0x57,  231 => 0x58,
        232 => 0x59,  233 => 0x5A,  234 => 0xB2,  235 => 0xD4,
        236 => 0xD6,  237 => 0xD2,  238 => 0xD3,  239 => 0xD5,
        240 => 0x30,  241 => 0x31,  242 => 0x32,  243 => 0x33,
        244 => 0x34,  245 => 0x35,  246 => 0x36,  247 => 0x37,
        248 => 0x38,  249 => 0x39,  250 => 0xB3,  251 => 0xDB,
        252 => 0xDC,  253 => 0xD9,  254 => 0xDA,  255 => 0x9F,
    }
}

fn latin1_to_cp037_exec(l: u8) -> (r: u8)
    ensures
        r == latin1_to_cp037(l),
{
    proof {
        reveal(latin1_to_cp037);
    }
    match l {
        0 => 0x00,  1 => 0x01,  2 => 0x02,  3 => 0x03,
        4 => 0x37,  5 => 0x2D,  6 => 0x2E,  7 => 0x2F,
        8 => 0x16,  9 => 0x05,  10 => 0x25,  11 => 0x0B,
        12 => 0x0C,  13 => 0x0D,  14 => 0x0E,  15 => 0x0F,
        16 => 0x10,  17 => 0x11,  18 => 0x12,  19 => 0x13,
        20 => 0x3C,  21 => 0x3D,  22 => 0x32,  23 => 0x26,
        24 => 0x18,  25 => 0x19,  26 => 0x3F,  27 => 0x27,
        28 => 0x1C,  29 => 0x1D,  30 => 0x1E,  31 => 0x1F,
        32 => 0x40,  33 => 0x5A,  34 => 0x7F,  35 => 0x7B,
        36 => 0x5B,  37 => 0x6C,  38 => 0x50,  39 => 0x7D,
        40 => 0x4D,  41 => 0x5D,  42 => 0x5C,  43 => 0x4E,
        44 => 0x6B,  45 => 0x60,  46 => 0x4B,  47 => 0x61,
        48 => 0xF0,  49 => 0xF1,  50 => 0xF2,  51 => 0xF3,
        52 => 0xF4,  53 => 0xF5,  54 => 0xF6,  55 => 0xF7,
        56 => 0xF8,  57 => 0xF9,  58 => 0x7A,  59 => 0x5E,
        60 => 0x4C,  61 => 0x7E,  62 => 0x6E,  63 => 0x6F,
        64 => 0x7C,  65 => 0xC1,  66 => 0xC2,  67 => 0xC3,
        68 => 0xC4,  69 => 0xC5,  70 => 0xC6,  71 => 0xC7,
        72 => 0xC8,  73 => 0xC9,  74 => 0xD1,  75 => 0xD2,
        76 => 0xD3,  77 => 0xD4,  78 => 0xD5,  79 => 0xD6,
        80 => 0xD7,  81 => 0xD8,  82 => 0xD9,  83 => 0xE2,
        84 => 0xE3,  85 => 0xE4,  86 => 0xE5,  87 => 0xE6,
        88 => 0xE7,  89 => 0xE8,  90 => 0xE9,  91 => 0xBA,
        92 => 0xE0,  93 => 0xBB,  94 => 0xB0,  95 => 0x6D,
        96 => 0x79,  97 => 0x81,  98 => 0x82,  99 => 0x83,
        100 => 0x84,  101 => 0x85,  102 => 0x86,  103 => 0x87,
        104 => 0x88,  105 => 0x89,  106 => 0x91,  107 => 0x92,
        108 => 0x93,  109 => 0x94,  110 => 0x95,  111 => 0x96,
        112 => 0x97,  113 => 0x98,  114 => 0x99,  115 => 0xA2,
        116 => 0xA3,  117 => 0xA4,  118 => 0xA5,  119 => 0xA6,
        120 => 0xA7,  121 => 0xA8,  122 => 0xA9,  123 => 0xC0,
        124 => 0x4F,  125 => 0xD0,  126 => 0xA1,  127 => 0x07,
        128 => 0x20,  129 => 0x21,  130 => 0x22,  131 => 0x23,
        132 => 0x24,  133 => 0x15,  134 => 0x06,  135 => 0x17,
        136 => 0x28,  137 => 0x29,  138 => 0x2A,  139 => 0x2B,
        140 => 0x2C,  141 => 0x09,  142 => 0x0A,  143 => 0x1B,
        144 => 0x30,  145 => 0x31,  146 => 0x1A,  147 => 0x33,
        148 => 0x34,  149 => 0x35,  150 => 0x36,  151 => 0x08,
        152 => 0x38,  153 => 0x39,  154 => 0x3A,  155 => 0x3B,
        156 => 0x04,  157 => 0x14,  158 => 0x3E,  159 => 0xFF,
        160 => 0x41,  161 => 0xAA,  162 => 0x4A,  163 => 0xB1,
        164 => 0x9F,  165 => 0xB2,  166 => 0x6A,  167 => 0xB5,
        168 => 0xBD,  169 => 0xB4,  170 => 0x9A,  171 => 0x8A,
        172 => 0x5F,  173 => 0xCA,  174 => 0xAF,  175 => 0xBC,
        176 => 0x90,  177 => 0x8F,  178 => 0xEA,  179 => 0xFA,
        180 => 0xBE,  181 => 0xA0,  182 => 0xB6,  183 => 0xB3,
        184 => 0x9D,  185 => 0xDA,  186 => 0x9B,  187 => 0x8B,
        188 => 0xB7,  189 => 0xB8,  190 => 0xB9,  191 => 0xAB,
        192 => 0x64,  193 => 0x65,  194 => 0x62,  195 => 0x66,
        196 => 0x63,  197 => 0x67,  198 => 0x9E,  199 => 0x68,
        200 => 0x74,  201 => 0x71,  202 => 0x72,  203 => 0x73,
        204 => 0x78,  205 => 0x75,  206 => 0x76,  207 => 0x77,
        208 => 0xAC,  209 => 0x69,  210 => 0xED,  211 => 0xEE,
        212 => 0xEB,  213 => 0xEF,  214 => 0xEC,  215 => 0xBF,
        216 => 0x80,  217 => 0xFD,  218 => 0xFE,  219 => 0xFB,
        220 => 0xFC,  221 => 0xAD,  222 => 0xAE,  223 => 0x59,
        224 => 0x44,  225 => 0x45,  226 => 0x42,  227 => 0x46,
        228 => 0x43,  229 => 0x47,  230 => 0x9C,  231 => 0x48,
        232 => 0x54,  233 => 0x51,  234 => 0x52,  235 => 0x53,
        236 => 0x58,  237 => 0x55,  238 => 0x56,  239 => 0x57,
        240 => 0x8C,  241 => 0x49,  242 => 0xCD,  243 => 0xCE,
        244 => 0xCB,  245 => 0xCF,  246 => 0xCC,  247 => 0xE1,
        248 => 0x70,  249 => 0xDD,  250 => 0xDE,  251 => 0xDB,
        252 => 0xDC,  253 => 0x8D,  254 => 0x8E,  255 => 0xDF,
    }
}

proof fn lemma_cp037_left_0(b: u8)
    requires
        0 <= b < 32,
    ensures
        latin1_to_cp037(cp037_to_latin1(b)) == b,
{
    reveal(cp037_to_latin1);
    reveal(latin1_to_cp037);
    match b {
        0 => {} 1 => {} 2 => {} 3 => {} 4 => {} 5 => {} 6 => {} 7 => {}
        8 => {} 9 => {} 10 => {} 11 => {} 12 => {} 13 => {} 14 => {} 15 => {}
        16 => {} 17 => {} 18 => {} 19 => {} 20 => {} 21 => {} 22 => {} 23 => {}
        24 => {} 25 => {} 26 => {} 27 => {} 28 => {} 29 => {} 30 => {} 31 => {}
        _ => {}
    }
}

proof fn lemma_cp037_left_1(b: u8)
    requires
        32 <= b < 64,
    ensures
        latin1_to_cp037(cp037_to_latin1(b)) == b,
{
    reveal(cp037_to_latin1);
    reveal(latin1_to_cp037);
    match b {
        32 => {} 33 => {} 34 => {} 35 => {} 36 => {} 37 => {} 38 => {} 39 => {}
        40 => {} 41 => {} 42 => {} 43 => {} 44 => {} 45 => {} 46 => {} 47 => {}
        48 => {} 49 => {} 50 => {} 51 => {} 52 => {} 53 => {} 54 => {} 55 => {}
        56 => {} 57 => {} 58 => {} 59 => {} 60 => {} 61 => {} 62 => {} 63 => {}
        _ => {}
    }
}

proof fn lemma_cp037_left_2(b: u8)
    requires
        64 <= b < 96,
    ensures
        latin1_to_cp037(cp037_to_latin1(b)) == b,
{
    reveal(cp037_to_latin1);
    reveal(latin1_to_cp037);
    match b {
        64 => {} 65 => {} 66 => {} 67 => {} 68 => {} 69 => {} 70 => {} 71 => {}
        72 => {} 73 => {} 74 => {} 75 => {} 76 => {} 77 => {} 78 => {} 79 => {}
        80 => {} 81 => {} 82 => {} 83 => {} 84 => {} 85 => {} 86 => {} 87 => {}
        88 => {} 89 => {} 90 => {} 91 => {} 92 => {} 93 => {} 94 => {} 95 => {}
        _ => {}
    }
}

proof fn lemma_cp037_left_3(b: u8)
    requires
        96 <= b < 128,
    ensures
        latin1_to_cp037(cp037_to_latin1(b)) == b,
{
    reveal(cp037_to_latin1);
    reveal(latin1_to_cp037);
    match b {
        96 => {} 97 => {} 98 => {} 99 => {} 100 => {} 101 => {} 102 => {} 103 => {}
        104 => {} 105 => {} 106 => {} 107 => {} 108 => {} 109 => {} 110 => {} 111 => {}
        112 => {} 113 => {} 114 => {} 115 => {} 116 => {} 117 => {} 118 => {} 119 => {}
        120 => {} 121 => {} 122 => {} 123 => {} 124 => {} 125 => {} 126 => {} 127 => {}
        _ => {}
    }
}

proof fn lemma_cp037_left_4(b: u8)
    requires
        128 <= b < 160,
    ensures
        latin1_to_cp037(cp037_to_latin1(b)) == b,
{
    reveal(cp037_to_latin1);
    reveal(latin1_to_cp037);
    match b {
        128 => {} 129 => {} 130 => {} 131 => {} 132 => {} 133 => {} 134 => {} 135 => {}
        136 => {} 137 => {} 138 => {} 139 => {} 140 => {} 141 => {} 142 => {} 143 => {}
        144 => {} 145 => {} 146 => {} 147 => {} 148 => {} 149 => {} 150 => {} 151 => {}
        152 => {} 153 => {} 154 => {} 155 => {} 156 => {} 157 => {} 158 => {} 159 => {}
        _ => {}
    }
}

proof fn lemma_cp037_left_5(b: u8)
    requires
        160 <= b < 192,
    ensures
        latin1_to_cp037(cp037_to_latin1(b)) == b,
{
    reveal(cp037_to_latin1);
    reveal(latin1_to_cp037);
    match b {
        160 => {} 161 => {} 162 => {} 163 => {} 164 => {} 165 => {} 166 => {} 167 => {}
        168 => {} 169 => {} 170 => {} 171 => {} 172 => {} 173 => {} 174 => {} 175 => {}
        176 => {} 177 => {} 178 => {} 179 => {} 180 => {} 181 => {} 182 => {} 183 => {}
        184 => {} 185 => {} 186 => {} 187 => {} 188 => {} 189 => {} 190 => {} 191 => {}
        _ => {}
    }
}

proof fn lemma_cp037_left_6(b: u8)
    requires
        192 <= b < 224,
    ensures
        latin1_to_cp037(cp037_to_latin1(b)) == b,
{
    reveal(cp037_to_latin1);
    reveal(latin1_to_cp037);
    match b {
        192 => {} 193 => {} 194 => {} 195 => {} 196 => {} 197 => {} 198 => {} 199 => {}
        200 => {} 201 => {} 202 => {} 203 => {} 204 => {} 205 => {} 206 => {} 207 => {}
        208 => {} 209 => {} 210 => {} 211 => {} 212 => {} 213 => {} 214 => {} 215 => {}
        216 => {} 217 => {} 218 => {} 219 => {} 220 => {} 221 => {} 222 => {} 223 => {}
        _ => {}
    }
}

proof fn lemma_cp037_left_7(b: u8)
    requires
        224 <= b < 256,
    ensures
        latin1_to_cp037(cp037_to_latin1(b)) == b,
{
    reveal(cp037_to_latin1);
    reveal(latin1_to_cp037);
    match b {
        224 => {} 225 => {} 226 => {} 227 => {} 228 => {} 229 => {} 230 => {} 231 => {}
        232 => {} 233 => {} 234 => {} 235 => {} 236 => {} 237 => {} 238 => {} 239 => {}
        240 => {} 241 => {} 242 => {} 243 => {} 244 => {} 245 => {} 246 => {} 247 => {}
        248 => {} 249 => {} 250 => {} 251 => {} 252 => {} 253 => {} 254 => {} 255 => {}
        _ => {}
    }
}

proof fn lemma_cp037_left(b: u8)
    ensures
        latin1_to_cp037(cp037_to_latin1(b)) == b,
{
    if b < 32 {
        lemma_cp037_left_0(b);
    } else if b < 64 {
        lemma_cp037_left_1(b);
    } else if b < 96 {
        lemma_cp037_left_2(b);
    } else if b < 128 {
        lemma_cp037_left_3(b);
    } else if b < 160 {
        lemma_cp037_left_4(b);
    } else if b < 192 {
        lemma_cp037_left_5(b);
    } else if b < 224 {
        lemma_cp037_left_6(b);
    } else {
        lemma_cp037_left_7(b);
    }
}

proof fn lemma_cp037_right_0(b: u8)
    requires
        0 <= b < 32,
    ensures
        cp037_to_latin1(latin1_to_cp037(b)) == b,
{
    reveal(cp037_to_latin1);
    reveal(latin1_to_cp037);
    match b {
        0 => {} 1 => {} 2 => {} 3 => {} 4 => {} 5 => {} 6 => {} 7 => {}
        8 => {} 9 => {} 10 => {} 11 => {} 12 => {} 13 => {} 14 => {} 15 => {}
        16 => {} 17 => {} 18 => {} 19 => {} 20 => {} 21 => {} 22 => {} 23 => {}
        24 => {} 25 => {} 26 => {} 27 => {} 28 => {} 29 => {} 30 => {} 31 => {}
        _ => {}
    }
}

proof fn lemma_cp037_right_1(b: u8)
    requires
        32 <= b < 64,
    ensures
        cp037_to_latin1(latin1_to_cp037(b)) == b,
{
    reveal(cp037_to_latin1);
    reveal(latin1_to_cp037);
    match b {
        32 => {} 33 => {} 34 => {} 35 => {} 36 => {} 37 => {} 38 => {} 39 => {}
        40 => {} 41 => {} 42 => {} 43 => {} 44 => {} 45 => {} 46 => {} 47 => {}
        48 => {} 49 => {} 50 => {} 51 => {} 52 => {} 53 => {} 54 => {} 55 => {}
        56 => {} 57 => {} 58 => {} 59 => {} 60 => {} 61 => {} 62 => {} 63 => {}
        _ => {}
    }
}

proof fn lemma_cp037_right_2(b: u8)
    requires
        64 <= b < 96,
    ensures
        cp037_to_latin1(latin1_to_cp037(b)) == b,
{
    reveal(cp037_to_latin1);
    reveal(latin1_to_cp037);
    match b {
        64 => {} 65 => {} 66 => {} 67 => {} 68 => {} 69 => {} 70 => {} 71 => {}
        72 => {} 73 => {} 74 => {} 75 => {} 76 => {} 77 => {} 78 => {} 79 => {}
        80 => {} 81 => {} 82 => {} 83 => {} 84 => {} 85 => {} 86 => {} 87 => {}
        88 => {} 89 => {} 90 => {} 91 => {} 92 => {} 93 => {} 94 => {} 95 => {}
        _ => {}
    }
}

proof fn lemma_cp037_right_3(b: u8)
    requires
        96 <= b < 128,
    ensures
        cp037_to_latin1(latin1_to_cp037(b)) == b,
{
    reveal(cp037_to_latin1);
    reveal(latin1_to_cp037);
    match b {
        96 => {} 97 => {} 98 => {} 99 => {} 100 => {} 101 => {} 102 => {} 103 => {}
        104 => {} 105 => {} 106 => {} 107 => {} 108 => {} 109 => {} 110 => {} 111 => {}
        112 => {} 113 => {} 114 => {} 115 => {} 116 => {} 117 => {} 118 => {} 119 => {}
        120 => {} 121 => {} 122 => {} 123 => {} 124 => {} 125 => {} 126 => {} 127 => {}
        _ => {}
    }
}

proof fn lemma_cp037_right_4(b: u8)
    requires
        128 <= b < 160,
    ensures
        cp037_to_latin1(latin1_to_cp037(b)) == b,
{
    reveal(cp037_to_latin1);
    reveal(latin1_to_cp037);
    match b {
        128 => {} 129 => {} 130 => {} 131 => {} 132 => {} 133 => {} 134 => {} 135 => {}
        136 => {} 137 => {} 138 => {} 139 => {} 140 => {} 141 => {} 142 => {} 143 => {}
        144 => {} 145 => {} 146 => {} 147 => {} 148 => {} 149 => {} 150 => {} 151 => {}
        152 => {} 153 => {} 154 => {} 155 => {} 156 => {} 157 => {} 158 => {} 159 => {}
        _ => {}
    }
}

proof fn lemma_cp037_right_5(b: u8)
    requires
        160 <= b < 192,
    ensures
        cp037_to_latin1(latin1_to_cp037(b)) == b,
{
    reveal(cp037_to_latin1);
    reveal(latin1_to_cp037);
    match b {
        160 => {} 161 => {} 162 => {} 163 => {} 164 => {} 165 => {} 166 => {} 167 => {}
        168 => {} 169 => {} 170 => {} 171 => {} 172 => {} 173 => {} 174 => {} 175 => {}
        176 => {} 177 => {} 178 => {} 179 => {} 180 => {} 181 => {} 182 => {} 183 => {}
        184 => {} 185 => {} 186 => {} 187 => {} 188 => {} 189 => {} 190 => {} 191 => {}
        _ => {}
    }
}

proof fn lemma_cp037_right_6(b: u8)
    requires
        192 <= b < 224,
    ensures
        cp037_to_latin1(latin1_to_cp037(b)) == b,
{
    reveal(cp037_to_latin1);
    reveal(latin1_to_cp037);
    match b {
        192 => {} 193 => {} 194 => {} 195 => {} 196 => {} 197 => {} 198 => {} 199 => {}
        200 => {} 201 => {} 202 => {} 203 => {} 204 => {} 205 => {} 206 => {} 207 => {}
        208 => {} 209 => {} 210 => {} 211 => {} 212 => {} 213 => {} 214 => {} 215 => {}
        216 => {} 217 => {} 218 => {} 219 => {} 220 => {} 221 => {} 222 => {} 223 => {}
        _ => {}
    }
}

proof fn lemma_cp037_right_7(b: u8)
    requires
        224 <= b < 256,
    ensures
        cp037_to_latin1(latin1_to_cp037(b)) == b,
{
    reveal(cp037_to_latin1);
    reveal(latin1_to_cp037);
    match b {
        224 => {} 225 => {} 226 => {} 227 => {} 228 => {} 229 => {} 230 => {} 231 => {}
        232 => {} 233 => {} 234 => {} 235 => {} 236 => {} 237 => {} 238 => {} 239 => {}
        240 => {} 241 => {} 242 => {} 243 => {} 244 => {} 245 => {} 246 => {} 247 => {}
        248 => {} 249 => {} 250 => {} 251 => {} 252 => {} 253 => {} 254 => {} 255 => {}
        _ => {}
    }
}

proof fn lemma_cp037_right(b: u8)
    ensures
        cp037_to_latin1(latin1_to_cp037(b)) == b,
{
    if b < 32 {
        lemma_cp037_right_0(b);
    } else if b < 64 {
        lemma_cp037_right_1(b);
    } else if b < 96 {
        lemma_cp037_right_2(b);
    } else if b < 128 {
        lemma_cp037_right_3(b);
    } else if b < 160 {
        lemma_cp037_right_4(b);
    } else if b < 192 {
        lemma_cp037_right_5(b);
    } else if b < 224 {
        lemma_cp037_right_6(b);
    } else {
        lemma_cp037_right_7(b);
    }
}

/// CP037 and ISO 8859-1 are each other's inverse, byte for byte.
pub proof fn lemma_cp037_bijective()
    ensures
        forall|b: u8| #[trigger] latin1_to_cp037(cp037_to_latin1(b)) == b,
        forall|l: u8| #[trigger] cp037_to_latin1(latin1_to_cp037(l)) == l,
{
    assert forall|b: u8| #[trigger] latin1_to_cp037(cp037_to_latin1(b)) == b by {
        lemma_cp037_left(b);
    }
    assert forall|l: u8| #[trigger] cp037_to_latin1(latin1_to_cp037(l)) == l by {
        lemma_cp037_right(l);
    }
}

/// A CP037 codec.
pub struct Ebcdic {
    code_page: u16,
}

impl Ebcdic {
    /// The US/Canada code page 037.
    pub fn cp037() -> (r: Self)
        ensures
            r.page() == 37,
    {
        Ebcdic { code_page: 37 }
    }

    pub closed spec fn page(&self) -> u16 {
        self.code_page
    }

    /// The EBCDIC bytes of `s`, one per character.
    pub fn to_bytes(&self, s: &str) -> (r: Vec<u8>)
        ensures
            r@ == encode(s@),
    {
        let mut r: Vec<u8> = Vec::new();
        for c in it: s.chars()
            invariant
                r@ == encode(it.seq().take(it.index())),
                it.seq() == s@,
        {
            let u = c as u32;
            let b = if u < 256 {
                latin1_to_cp037_exec(u as u8)
            } else {
                SUB
            };
            proof {
                let t = it.seq().take(it.index());
                assert(it.seq().take(it.index() + 1) =~= t.push(c));
            }
            r.push(b);
            assert(r@ =~= encode(it.seq().take(it.index())).push(b));
        }
        assert(s@.take(s@.len() as int) =~= s@);
        r
    }

    /// The characters that the EBCDIC bytes `b` stand for.
    pub fn to_string(&self, b: &[u8]) -> (r: String)
        ensures
            r@ == decode(b@),
    {
        let mut cs: Vec<char> = Vec::new();
        let mut i: usize = 0;
        while i < b.len()
            invariant
                i <= b@.len(),
                cs@ =~= decode(b@.take(i as int)),
            decreases b.len() - i,
        {
            let l = cp037_to_latin1_exec(b[i]);
            let c = l as char;
            assert(c == decode_byte(b@[i as int]));
            cs.push(c);
            assert(b@.take(i + 1) =~= b@.take(i as int).push(b@[i as int]));
            i += 1;
        }
        assert(b@.take(b@.len() as int) =~= b@);
        crate::text::string_of(&cs)
    }
}

/// Decoding the encoding of a string gives the string back, when every
/// character has a CP037 byte.
pub proof fn lemma_decode_encode(s: Seq<char>)
    requires
        is_latin1(s),
    ensures
        decode(encode(s)) == s,
{
    lemma_cp037_bijective();
    assert forall|i: int| 0 <= i < s.len() implies decode(encode(s))[i] == s[i] by {
        let c = s[i];
        let u = c as u32;
        assert(u < 256);
        let l = u as u8;
        assert(l as u32 == u);
        assert(cp037_to_latin1(latin1_to_cp037(l)) == l);
        vstd::utf8::char_u32_cast(c, u);
    }
    assert(decode(encode(s)) =~= s);
}

/// Encoding the decoding of bytes gives the bytes back.
pub proof fn lemma_encode_decode(b: Seq<u8>)
    ensures
        encode(decode(b)) == b,
{
    lemma_cp037_bijective();
    assert forall|i: int| 0 <= i < b.len() implies encode(decode(b))[i] == b[i] by {
        let x = b[i];
        assert(latin1_to_cp037(cp037_to_latin1(x)) == x);
    }
    assert(encode(decode(b)) =~= b);
}

} // verus!
