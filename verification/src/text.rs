//! Character-level text utilities shared by every subsystem.
//!
//! Text is modelled as `Seq<char>`, the view of `String` and `&str`.  The
//! executable helpers work on `Vec<char>` and convert at the edges.
use vstd::prelude::*;
use vstd::std_specs::iter::IteratorSpec;

verus! {

broadcast use vstd::string::group_string_axioms;

// ---------------------------------------------------------------------------
// Conversions
// ---------------------------------------------------------------------------

/// Appends one character to a `String` (`String::push`).
/// Trusted: the new contents are the old contents followed by `c`.
#[verifier::external_body]
fn string_push(s: &mut String, c: char)
    ensures
        final(s)@ == old(s)@.push(c),
{
    s.push(c);
}

/// The characters of a string slice, in order.
pub fn chars_of(s: &str) -> (r: Vec<char>)
    ensures
        r@ == s@,
{
    let mut r: Vec<char> = Vec::new();
    for c in it: s.chars()
        invariant
            r@ == it.seq().take(it.index()),
            it.seq() == s@,
    {
        r.push(c);
    }
    r
}

/// Builds a `String` holding exactly the given characters.
pub fn string_of(cs: &Vec<char>) -> (r: String)
    ensures
        r@ == cs@,
{
    let mut r = String::new();
    let mut i: usize = 0;
    while i < cs.len()
        invariant
            i <= cs.len(),
            r@ == cs@.take(i as int),
        decreases cs.len() - i,
    {
        string_push(&mut r, cs[i]);
        assert(cs@.take(i + 1) == cs@.take(i as int).push(cs@[i as int]));
        i += 1;
    }
    assert(cs@.take(cs.len() as int) == cs@);
    r
}

/// Text of raw bytes, with invalid UTF-8 replaced (`String::from_utf8_lossy`).
pub uninterp spec fn utf8_lossy(b: Seq<u8>) -> Seq<char>;

/// The text of raw bytes as `String::from_utf8_lossy` reads them: valid UTF-8 is
/// decoded as it stands; other bytes go by the trusted name above.
pub open spec fn lossy_text(b: Seq<u8>) -> Seq<char> {
    if vstd::utf8::valid_utf8(b) {
        vstd::utf8::decode_utf8(b)
    } else {
        utf8_lossy(b)
    }
}

/// Bytes below 0x80 are valid UTF-8 and read as the characters with those codes.
pub proof fn lemma_ascii_lossy(b: Seq<u8>)
    requires
        forall|i: int| 0 <= i < b.len() ==> #[trigger] b[i] < 128,
    ensures
        lossy_text(b) == b.map_values(|x: u8| x as char),
{
    let cs = b.map_values(|x: u8| x as char);
    assert(vstd::utf8::is_ascii_chars(cs));
    vstd::utf8::is_ascii_chars_encode_utf8(cs);
    assert(vstd::utf8::encode_utf8(cs) =~= b);
    vstd::utf8::encode_utf8_valid_utf8(cs);
    vstd::utf8::encode_utf8_decode_utf8(cs);
}

/// `String::from_utf8_lossy(b).into_owned()`.  Trusted: a function of the bytes;
/// valid UTF-8 comes back decoded unchanged, as std documents.  How invalid
/// sequences are replaced is not stated.
#[verifier::external_body]
pub(crate) fn from_utf8_lossy(b: &[u8]) -> (r: String)
    ensures
        r@ == utf8_lossy(b@),
        vstd::utf8::valid_utf8(b@) ==> r@ == vstd::utf8::decode_utf8(b@),
{
    String::from_utf8_lossy(b).into_owned()
}

/// Appends the characters of `s` to `v`.
pub fn push_str(v: &mut Vec<char>, s: &str)
    ensures
        final(v)@ == old(v)@ + s@,
{
    let mut cs = chars_of(s);
    v.append(&mut cs);
}

/// Appends the characters of `s` to `v`.
pub fn push_chars(v: &mut Vec<char>, s: &Vec<char>)
    ensures
        final(v)@ == old(v)@ + s@,
{
    let mut cs = s.clone();
    assert(cs@ == s@);
    v.append(&mut cs);
}

/// A copy of `s[a..b]`.
pub fn slice(s: &Vec<char>, a: usize, b: usize) -> (r: Vec<char>)
    requires
        a <= b <= s.len(),
    ensures
        r@ == s@.subrange(a as int, b as int),
{
    let mut r: Vec<char> = Vec::new();
    let mut i = a;
    while i < b
        invariant
            a <= i <= b <= s.len(),
            r@ == s@.subrange(a as int, i as int),
        decreases b - i,
    {
        r.push(s[i]);
        assert(s@.subrange(a as int, i + 1) == s@.subrange(a as int, i as int).push(s@[i as int]));
        i += 1;
    }
    r
}

/// Whether two character vectors are equal.
pub fn eq_chars(a: &Vec<char>, b: &Vec<char>) -> (r: bool)
    ensures
        r == (a@ == b@),
{
    if a.len() != b.len() {
        return false;
    }
    let mut i: usize = 0;
    while i < a.len()
        invariant
            a.len() == b.len(),
            i <= a.len(),
            forall|j: int| 0 <= j < i ==> a@[j] == b@[j],
        decreases a.len() - i,
    {
        if a[i] != b[i] {
            return false;
        }
        i += 1;
    }
    assert(a@ =~= b@);
    true
}

/// Whether a character vector equals a string slice.
pub fn eq_str(a: &Vec<char>, s: &str) -> (r: bool)
    ensures
        r == (a@ == s@),
{
    let b = chars_of(s);
    eq_chars(a, &b)
}

// ---------------------------------------------------------------------------
// Character classes
// ---------------------------------------------------------------------------

/// Unicode `White_Space`, as `char::is_whitespace` tests it.
pub open spec fn is_ws(c: char) -> bool {
    let u = c as u32;
    ||| 0x09 <= u <= 0x0D
    ||| u == 0x20
    ||| u == 0x85
    ||| u == 0xA0
    ||| u == 0x1680
    ||| 0x2000 <= u <= 0x200A
    ||| u == 0x2028
    ||| u == 0x2029
    ||| u == 0x202F
    ||| u == 0x205F
    ||| u == 0x3000
}

/// Tests `is_ws`.
pub fn is_ws_char(c: char) -> (r: bool)
    ensures
        r == is_ws(c),
{
    let u = c as u32;
    (0x09 <= u && u <= 0x0D) || u == 0x20 || u == 0x85 || u == 0xA0 || u == 0x1680 || (0x2000
        <= u && u <= 0x200A) || u == 0x2028 || u == 0x2029 || u == 0x202F || u == 0x205F || u
        == 0x3000
}

/// A class of characters that a scan stops at or runs over.
pub enum CharClass {
    Ws,
    NotWs,
    Is(char),
    IsNot(char),
}

pub open spec fn in_class(k: CharClass, c: char) -> bool {
    match k {
        CharClass::Ws => is_ws(c),
        CharClass::NotWs => !is_ws(c),
        CharClass::Is(x) => c == x,
        CharClass::IsNot(x) => c != x,
    }
}

fn in_class_exec(k: &CharClass, c: char) -> (r: bool)
    ensures
        r == in_class(*k, c),
{
    match k {
        CharClass::Ws => is_ws_char(c),
        CharClass::NotWs => !is_ws_char(c),
        CharClass::Is(x) => c == *x,
        CharClass::IsNot(x) => c != *x,
    }
}

/// Length of the longest prefix of `s` whose characters are all in class `k`.
pub open spec fn lead(s: Seq<char>, k: CharClass) -> nat
    decreases s.len(),
{
    if s.len() > 0 && in_class(k, s[0]) {
        1 + lead(s.drop_first(), k)
    } else {
        0
    }
}

/// Length of the longest suffix of `s` whose characters are all in class `k`.
pub open spec fn trail(s: Seq<char>, k: CharClass) -> nat
    decreases s.len(),
{
    if s.len() > 0 && in_class(k, s.last()) {
        1 + trail(s.drop_last(), k)
    } else {
        0
    }
}

pub proof fn lemma_lead(s: Seq<char>, k: CharClass)
    ensures
        lead(s, k) <= s.len(),
        forall|i: int| 0 <= i < lead(s, k) ==> in_class(k, #[trigger] s[i]),
        lead(s, k) < s.len() ==> !in_class(k, s[lead(s, k) as int]),
    decreases s.len(),
{
    if s.len() > 0 && in_class(k, s[0]) {
        lemma_lead(s.drop_first(), k);
        assert forall|i: int| 0 <= i < lead(s, k) implies in_class(k, #[trigger] s[i]) by {
            if i > 0 {
                assert(s[i] == s.drop_first()[i - 1]);
            }
        }
    }
}

pub proof fn lemma_trail(s: Seq<char>, k: CharClass)
    ensures
        trail(s, k) <= s.len(),
        forall|i: int| s.len() - trail(s, k) <= i < s.len() ==> in_class(k, #[trigger] s[i]),
        trail(s, k) < s.len() ==> !in_class(k, s[s.len() - trail(s, k) - 1]),
    decreases s.len(),
{
    if s.len() > 0 && in_class(k, s.last()) {
        lemma_trail(s.drop_last(), k);
        assert forall|i: int| s.len() - trail(s, k) <= i < s.len() implies in_class(
            k,
            #[trigger] s[i],
        ) by {
            if i < s.len() - 1 {
                assert(s[i] == s.drop_last()[i]);
            }
        }
    }
}

/// `i` plus the length of the run of class-`k` characters starting at `s[i]`.
pub fn scan_fwd(s: &Vec<char>, i: usize, k: &CharClass) -> (j: usize)
    requires
        i <= s.len(),
    ensures
        j == i + lead(s@.skip(i as int), *k),
        i <= j <= s.len(),
{
    let mut j = i;
    proof {
        lemma_lead(s@.skip(i as int), *k);
    }
    while j < s.len() && in_class_exec(k, s[j])
        invariant
            i <= j <= s.len(),
            lead(s@.skip(i as int), *k) == (j - i) + lead(s@.skip(j as int), *k),
        decreases s.len() - j,
    {
        assert(s@.skip(j as int).drop_first() =~= s@.skip(j + 1));
        j += 1;
    }
    j
}

/// `hi` minus the length of the run of class-`k` characters ending at `s[hi - 1]`,
/// scanning no lower than `lo`.
pub fn scan_back(s: &Vec<char>, lo: usize, hi: usize, k: &CharClass) -> (j: usize)
    requires
        lo <= hi <= s.len(),
    ensures
        j == hi - trail(s@.subrange(lo as int, hi as int), *k),
        lo <= j <= hi,
{
    let mut j = hi;
    proof {
        lemma_trail(s@.subrange(lo as int, hi as int), *k);
    }
    while j > lo && in_class_exec(k, s[j - 1])
        invariant
            lo <= j <= hi <= s.len(),
            trail(s@.subrange(lo as int, hi as int), *k) == (hi - j) + trail(
                s@.subrange(lo as int, j as int),
                *k,
            ),
        decreases j,
    {
        assert(s@.subrange(lo as int, j as int).drop_last() =~= s@.subrange(
            lo as int,
            j - 1,
        ));
        j -= 1;
    }
    j
}

// ---------------------------------------------------------------------------
// Trimming
// ---------------------------------------------------------------------------

/// `str::trim_start`.
pub open spec fn trim_start(s: Seq<char>) -> Seq<char> {
    s.skip(lead(s, CharClass::Ws) as int)
}

/// `str::trim_end`.
pub open spec fn trim_end(s: Seq<char>) -> Seq<char> {
    s.take(s.len() - trail(s, CharClass::Ws))
}

/// `str::trim`.
pub open spec fn trim(s: Seq<char>) -> Seq<char> {
    trim_end(trim_start(s))
}

/// `str::trim_matches(c)`: every leading and trailing `c` removed.
pub open spec fn trim_char(s: Seq<char>, c: char) -> Seq<char> {
    let t = s.skip(lead(s, CharClass::Is(c)) as int);
    t.take(t.len() - trail(t, CharClass::Is(c)))
}

/// `str::trim_end_matches(c)`.
pub open spec fn trim_end_char(s: Seq<char>, c: char) -> Seq<char> {
    s.take(s.len() - trail(s, CharClass::Is(c)))
}

pub fn trim_start_vec(s: &Vec<char>) -> (r: Vec<char>)
    ensures
        r@ == trim_start(s@),
{
    let i = scan_fwd(s, 0, &CharClass::Ws);
    assert(s@.skip(0) == s@);
    slice(s, i, s.len())
}

pub fn trim_end_vec(s: &Vec<char>) -> (r: Vec<char>)
    ensures
        r@ == trim_end(s@),
{
    let j = scan_back(s, 0, s.len(), &CharClass::Ws);
    assert(s@.subrange(0, s.len() as int) == s@);
    slice(s, 0, j)
}

pub fn trim_vec(s: &Vec<char>) -> (r: Vec<char>)
    ensures
        r@ == trim(s@),
{
    let t = trim_start_vec(s);
    trim_end_vec(&t)
}

/// `s.trim()` of a string slice.
pub fn trim_str(s: &str) -> (r: Vec<char>)
    ensures
        r@ == trim(s@),
{
    let v = chars_of(s);
    trim_vec(&v)
}

pub fn trim_char_vec(s: &Vec<char>, c: char) -> (r: Vec<char>)
    ensures
        r@ == trim_char(s@, c),
{
    let i = scan_fwd(s, 0, &CharClass::Is(c));
    assert(s@.skip(0) == s@);
    let t = slice(s, i, s.len());
    let j = scan_back(&t, 0, t.len(), &CharClass::Is(c));
    assert(t@.subrange(0, t.len() as int) == t@);
    slice(&t, 0, j)
}

pub fn trim_end_char_vec(s: &Vec<char>, c: char) -> (r: Vec<char>)
    ensures
        r@ == trim_end_char(s@, c),
{
    let j = scan_back(s, 0, s.len(), &CharClass::Is(c));
    assert(s@.subrange(0, s.len() as int) == s@);
    slice(s, 0, j)
}

// ---------------------------------------------------------------------------
// ASCII case
// ---------------------------------------------------------------------------

pub open spec fn upper_char(c: char) -> char {
    if 'a' <= c <= 'z' {
        ((c as u32) - 32) as char
    } else {
        c
    }
}

pub open spec fn lower_char(c: char) -> char {
    if 'A' <= c <= 'Z' {
        ((c as u32) + 32) as char
    } else {
        c
    }
}

/// `str::to_ascii_uppercase`.
pub open spec fn upper(s: Seq<char>) -> Seq<char> {
    s.map_values(|c: char| upper_char(c))
}

/// `str::to_ascii_lowercase`.
pub open spec fn lower(s: Seq<char>) -> Seq<char> {
    s.map_values(|c: char| lower_char(c))
}

/// `str::eq_ignore_ascii_case`.
pub open spec fn eq_ignore_case(a: Seq<char>, b: Seq<char>) -> bool {
    upper(a) == upper(b)
}

fn upper_char_exec(c: char) -> (r: char)
    ensures
        r == upper_char(c),
{
    if 'a' <= c && c <= 'z' {
        let u: u8 = (c as u8) - 32;
        u as char
    } else {
        c
    }
}

fn lower_char_exec(c: char) -> (r: char)
    ensures
        r == lower_char(c),
{
    if 'A' <= c && c <= 'Z' {
        let u: u8 = (c as u8) + 32;
        u as char
    } else {
        c
    }
}

pub fn upper_vec(s: &Vec<char>) -> (r: Vec<char>)
    ensures
        r@ == upper(s@),
{
    let mut r: Vec<char> = Vec::new();
    let mut i: usize = 0;
    while i < s.len()
        invariant
            i <= s.len(),
            r@ =~= upper(s@.take(i as int)),
        decreases s.len() - i,
    {
        r.push(upper_char_exec(s[i]));
        assert(s@.take(i + 1) =~= s@.take(i as int).push(s@[i as int]));
        i += 1;
    }
    assert(s@.take(s.len() as int) =~= s@);
    r
}

pub fn lower_vec(s: &Vec<char>) -> (r: Vec<char>)
    ensures
        r@ == lower(s@),
{
    let mut r: Vec<char> = Vec::new();
    let mut i: usize = 0;
    while i < s.len()
        invariant
            i <= s.len(),
            r@ =~= lower(s@.take(i as int)),
        decreases s.len() - i,
    {
        r.push(lower_char_exec(s[i]));
        assert(s@.take(i + 1) =~= s@.take(i as int).push(s@[i as int]));
        i += 1;
    }
    assert(s@.take(s.len() as int) =~= s@);
    r
}

pub fn eq_ignore_case_vec(a: &Vec<char>, b: &Vec<char>) -> (r: bool)
    ensures
        r == eq_ignore_case(a@, b@),
{
    let ua = upper_vec(a);
    let ub = upper_vec(b);
    eq_chars(&ua, &ub)
}

// ---------------------------------------------------------------------------
// Prefixes and substrings
// ---------------------------------------------------------------------------

pub open spec fn starts_with(s: Seq<char>, p: Seq<char>) -> bool {
    p.len() <= s.len() && s.take(p.len() as int) == p
}

/// `str::contains` with a string pattern.
pub open spec fn contains_at(s: Seq<char>, p: Seq<char>, i: int) -> bool {
    0 <= i && i + p.len() <= s.len() && s.subrange(i, i + p.len()) == p
}

pub open spec fn contains(s: Seq<char>, p: Seq<char>) -> bool {
    exists|i: int| contains_at(s, p, i)
}

fn matches_at(s: &Vec<char>, p: &Vec<char>, i: usize) -> (r: bool)
    requires
        i <= s.len(),
    ensures
        r == contains_at(s@, p@, i as int),
{
    if p.len() > s.len() - i {
        return false;
    }
    let mut j: usize = 0;
    while j < p.len()
        invariant
            i + p.len() <= s.len(),
            j <= p.len(),
            forall|k: int| 0 <= k < j ==> s@[i + k] == p@[k],
        decreases p.len() - j,
    {
        if s[i + j] != p[j] {
            assert(s@.subrange(i as int, i + p.len())[j as int] != p@[j as int]);
            return false;
        }
        j += 1;
    }
    assert(s@.subrange(i as int, i + p.len()) =~= p@);
    true
}

pub fn starts_with_vec(s: &Vec<char>, p: &Vec<char>) -> (r: bool)
    ensures
        r == starts_with(s@, p@),
{
    let r = matches_at(s, p, 0);
    proof {
        if p@.len() <= s@.len() {
            assert(s@.subrange(0, p@.len() as int) == s@.take(p@.len() as int));
        }
    }
    r
}

pub fn starts_with_str(s: &Vec<char>, p: &str) -> (r: bool)
    ensures
        r == starts_with(s@, p@),
{
    let pv = chars_of(p);
    starts_with_vec(s, &pv)
}

pub fn contains_vec(s: &Vec<char>, p: &Vec<char>) -> (r: bool)
    ensures
        r == contains(s@, p@),
{
    let mut i: usize = 0;
    while i < s.len()
        invariant
            i <= s.len(),
            forall|k: int| 0 <= k < i ==> !contains_at(s@, p@, k),
        decreases s.len() - i,
    {
        if matches_at(s, p, i) {
            return true;
        }
        i += 1;
    }
    matches_at(s, p, i)
}

pub fn contains_str(s: &Vec<char>, p: &str) -> (r: bool)
    ensures
        r == contains(s@, p@),
{
    let pv = chars_of(p);
    contains_vec(s, &pv)
}

// ---------------------------------------------------------------------------
// Splitting
// ---------------------------------------------------------------------------

/// `str::split_whitespace`.
pub open spec fn words(s: Seq<char>) -> Seq<Seq<char>>
    decreases s.len(),
{
    let t = s.skip(lead(s, CharClass::Ws) as int);
    if lead(s, CharClass::Ws) >= s.len() {
        seq![]
    } else {
        let n = lead(t, CharClass::NotWs);
        if 1 <= n <= t.len() {
            seq![t.take(n as int)] + words(t.skip(n as int))
        } else {
            seq![]
        }
    }
}

/// The first word of `s`, as `split_whitespace().next()` gives it.
pub open spec fn word(s: Seq<char>, i: int) -> Option<Seq<char>> {
    if 0 <= i < words(s).len() {
        Some(words(s)[i])
    } else {
        None
    }
}

/// Lengths of the runs used by `words`: a word starts after the leading blanks
/// and is not empty.
proof fn lemma_words_step(s: Seq<char>)
    requires
        lead(s, CharClass::Ws) < s.len(),
    ensures
        ({
            let t = s.skip(lead(s, CharClass::Ws) as int);
            1 <= lead(t, CharClass::NotWs) <= t.len()
        }),
{
    lemma_lead(s, CharClass::Ws);
    let t = s.skip(lead(s, CharClass::Ws) as int);
    assert(t[0] == s[lead(s, CharClass::Ws) as int]);
    lemma_lead(t, CharClass::NotWs);
}

pub fn words_vec(s: &Vec<char>) -> (r: Vec<Vec<char>>)
    ensures
        r@.map_values(|w: Vec<char>| w@) == words(s@),
{
    let mut r: Vec<Vec<char>> = Vec::new();
    let mut i: usize = 0;
    assert(s@.skip(0) == s@);
    loop
        invariant
            i <= s.len(),
            words(s@) == r@.map_values(|w: Vec<char>| w@) + words(s@.skip(i as int)),
        decreases s.len() - i,
    {
        let ghost rest = s@.skip(i as int);
        let j = scan_fwd(s, i, &CharClass::Ws);
        proof {
            lemma_lead(rest, CharClass::Ws);
        }
        if j >= s.len() {
            assert(words(rest) =~= seq![]);
            assert(r@.map_values(|w: Vec<char>| w@) + seq![] =~= r@.map_values(
                |w: Vec<char>| w@,
            ));
            return r;
        }
        proof {
            lemma_words_step(rest);
            assert(rest.skip(lead(rest, CharClass::Ws) as int) =~= s@.skip(j as int));
        }
        let k = scan_fwd(s, j, &CharClass::NotWs);
        let w = slice(s, j, k);
        proof {
            let t = s@.skip(j as int);
            assert(t.take((k - j) as int) =~= s@.subrange(j as int, k as int));
            assert(t.skip((k - j) as int) =~= s@.skip(k as int));
            assert(r@.push(w).map_values(|w: Vec<char>| w@) =~= r@.map_values(
                |w: Vec<char>| w@,
            ).push(w@));
        }
        r.push(w);
        i = k;
    }
}

/// `str::split(c)`.
pub open spec fn split_char(s: Seq<char>, c: char) -> Seq<Seq<char>>
    decreases s.len(),
{
    let n = lead(s, CharClass::IsNot(c));
    let m = n + 1;
    if n >= s.len() {
        seq![s]
    } else if 1 <= m <= s.len() {
        seq![s.take(n as int)] + split_char(s.skip(m as int), c)
    } else {
        seq![]
    }
}

pub fn split_char_vec(s: &Vec<char>, c: char) -> (r: Vec<Vec<char>>)
    ensures
        r@.map_values(|w: Vec<char>| w@) == split_char(s@, c),
{
    let mut r: Vec<Vec<char>> = Vec::new();
    let mut i: usize = 0;
    assert(s@.skip(0) == s@);
    loop
        invariant
            i <= s.len(),
            split_char(s@, c) == r@.map_values(|w: Vec<char>| w@) + split_char(
                s@.skip(i as int),
                c,
            ),
        decreases s.len() - i,
    {
        let ghost rest = s@.skip(i as int);
        let j = scan_fwd(s, i, &CharClass::IsNot(c));
        proof {
            lemma_lead(rest, CharClass::IsNot(c));
        }
        let w = slice(s, i, j);
        proof {
            assert(rest.take((j - i) as int) =~= w@);
            assert(r@.push(w).map_values(|w: Vec<char>| w@) =~= r@.map_values(
                |w: Vec<char>| w@,
            ).push(w@));
        }
        if j >= s.len() {
            assert(rest =~= w@);
            r.push(w);
            return r;
        }
        proof {
            assert(rest.skip(j - i + 1) =~= s@.skip(j + 1));
        }
        r.push(w);
        i = j + 1;
    }
}

/// `str::split_once(c)`.
pub open spec fn split_once(s: Seq<char>, c: char) -> Option<(Seq<char>, Seq<char>)> {
    let n = lead(s, CharClass::IsNot(c));
    if n >= s.len() {
        None
    } else {
        Some((s.take(n as int), s.skip((n + 1) as int)))
    }
}

pub fn split_once_vec(s: &Vec<char>, c: char) -> (r: Option<(Vec<char>, Vec<char>)>)
    ensures
        match r {
            None => split_once(s@, c) is None,
            Some((a, b)) => split_once(s@, c) == Some((a@, b@)),
        },
{
    let j = scan_fwd(s, 0, &CharClass::IsNot(c));
    assert(s@.skip(0) == s@);
    if j >= s.len() {
        None
    } else {
        Some((slice(s, 0, j), slice(s, j + 1, s.len())))
    }
}

/// `str::lines`: pieces between `\n`, each without one trailing `\r` that
/// stood before its `\n`; no piece after a final `\n`.
pub open spec fn lines(s: Seq<char>) -> Seq<Seq<char>>
    decreases s.len(),
{
    if s.len() == 0 {
        seq![]
    } else {
        let n = lead(s, CharClass::IsNot('\n'));
        let m = n + 1;
        if n >= s.len() {
            seq![s]
        } else if 1 <= m <= s.len() {
            seq![strip_cr(s.take(n as int))] + lines(s.skip(m as int))
        } else {
            seq![]
        }
    }
}

pub open spec fn strip_cr(s: Seq<char>) -> Seq<char> {
    if s.len() > 0 && s.last() == '\r' {
        s.drop_last()
    } else {
        s
    }
}

pub fn lines_vec(s: &Vec<char>) -> (r: Vec<Vec<char>>)
    ensures
        r@.map_values(|w: Vec<char>| w@) == lines(s@),
{
    let mut r: Vec<Vec<char>> = Vec::new();
    let mut i: usize = 0;
    assert(s@.skip(0) == s@);
    while i < s.len()
        invariant
            i <= s.len(),
            lines(s@) == r@.map_values(|w: Vec<char>| w@) + lines(s@.skip(i as int)),
        decreases s.len() - i,
    {
        let ghost rest = s@.skip(i as int);
        let j = scan_fwd(s, i, &CharClass::IsNot('\n'));
        proof {
            lemma_lead(rest, CharClass::IsNot('\n'));
        }
        if j >= s.len() {
            let w = slice(s, i, j);
            assert(rest =~= w@);
            assert(r@.push(w).map_values(|w: Vec<char>| w@) =~= r@.map_values(
                |w: Vec<char>| w@,
            ).push(w@));
            r.push(w);
            i = j;
            assert(lines(s@.skip(i as int)) =~= seq![]);
        } else {
            let e = if j > i && s[j - 1] == '\r' {
                j - 1
            } else {
                j
            };
            let w = slice(s, i, e);
            proof {
                assert(strip_cr(rest.take((j - i) as int)) =~= w@);
                assert(rest.skip(j - i + 1) =~= s@.skip(j + 1));
                assert(r@.push(w).map_values(|w: Vec<char>| w@) =~= r@.map_values(
                    |w: Vec<char>| w@,
                ).push(w@));
            }
            r.push(w);
            i = j + 1;
        }
    }
    assert(lines(s@.skip(i as int)) =~= seq![]);
    assert(r@.map_values(|w: Vec<char>| w@) + seq![] =~= r@.map_values(|w: Vec<char>| w@));
    r
}

/// `[String]::join(sep)`.
pub open spec fn join(parts: Seq<Seq<char>>, sep: Seq<char>) -> Seq<char>
    decreases parts.len(),
{
    if parts.len() == 0 {
        seq![]
    } else if parts.len() == 1 {
        parts[0]
    } else {
        join(parts.drop_last(), sep) + sep + parts.last()
    }
}

pub fn join_vec(parts: &Vec<Vec<char>>, sep: &str) -> (r: Vec<char>)
    ensures
        r@ == join(parts@.map_values(|w: Vec<char>| w@), sep@),
{
    let ghost ps = parts@.map_values(|w: Vec<char>| w@);
    let mut r: Vec<char> = Vec::new();
    let mut i: usize = 0;
    while i < parts.len()
        invariant
            i <= parts.len(),
            ps == parts@.map_values(|w: Vec<char>| w@),
            r@ == join(ps.take(i as int), sep@),
        decreases parts.len() - i,
    {
        if i > 0 {
            push_str(&mut r, sep);
        }
        push_chars(&mut r, &parts[i]);
        assert(ps.take(i + 1).drop_last() =~= ps.take(i as int));
        i += 1;
    }
    assert(ps.take(parts.len() as int) =~= ps);
    r
}

// ---------------------------------------------------------------------------
// Padding and numbers
// ---------------------------------------------------------------------------

/// `format!("{:<w}", s)`: `s` followed by spaces up to `w` characters.
pub open spec fn pad_right(s: Seq<char>, w: nat) -> Seq<char> {
    if s.len() < w {
        s + Seq::new((w - s.len()) as nat, |i: int| ' ')
    } else {
        s
    }
}

/// `s` preceded by `'0'`s up to `w` characters.
pub open spec fn pad_zero(s: Seq<char>, w: nat) -> Seq<char> {
    if s.len() < w {
        Seq::new((w - s.len()) as nat, |i: int| '0') + s
    } else {
        s
    }
}

pub open spec fn digit(d: nat) -> char {
    if d == 0 {
        '0'
    } else if d == 1 {
        '1'
    } else if d == 2 {
        '2'
    } else if d == 3 {
        '3'
    } else if d == 4 {
        '4'
    } else if d == 5 {
        '5'
    } else if d == 6 {
        '6'
    } else if d == 7 {
        '7'
    } else if d == 8 {
        '8'
    } else {
        '9'
    }
}

/// Decimal digits of `n`, as `{}` formats an unsigned integer.
pub open spec fn dec(n: nat) -> Seq<char>
    decreases n,
{
    if n < 10 {
        seq![digit(n)]
    } else {
        dec(n / 10).push(digit(n % 10))
    }
}

/// `{:0w}` of a signed integer: the sign counts in the width.
pub open spec fn dec_signed_pad(n: int, w: nat) -> Seq<char> {
    if n < 0 {
        seq!['-'] + pad_zero(dec((-n) as nat), if w >= 1 { (w - 1) as nat } else { 0 })
    } else {
        pad_zero(dec(n as nat), w)
    }
}

fn digit_exec(d: u64) -> (c: char)
    requires
        d < 10,
    ensures
        c == digit(d as nat),
{
    match d {
        0 => '0',
        1 => '1',
        2 => '2',
        3 => '3',
        4 => '4',
        5 => '5',
        6 => '6',
        7 => '7',
        8 => '8',
        _ => '9',
    }
}

pub fn fmt_dec(n: u64) -> (r: Vec<char>)
    ensures
        r@ == dec(n as nat),
    decreases n,
{
    if n < 10 {
        let mut r: Vec<char> = Vec::new();
        r.push(digit_exec(n));
        r
    } else {
        let mut r = fmt_dec(n / 10);
        r.push(digit_exec(n % 10));
        r
    }
}

pub fn pad_right_vec(s: &Vec<char>, w: usize) -> (r: Vec<char>)
    ensures
        r@ == pad_right(s@, w as nat),
{
    let mut r = s.clone();
    assert(r@ == s@);
    let mut n = s.len();
    while n < w
        invariant
            s.len() <= n || w <= s.len(),
            n >= s.len(),
            n <= w || n == s.len(),
            r@ == s@ + Seq::new((n - s.len()) as nat, |i: int| ' '),
        decreases w - n,
    {
        r.push(' ');
        assert(s@ + Seq::new((n + 1 - s.len()) as nat, |i: int| ' ') =~= (s@ + Seq::new(
            (n - s.len()) as nat,
            |i: int| ' ',
        )).push(' '));
        n += 1;
    }
    assert(s@ + Seq::new(0, |i: int| ' ') =~= s@);
    r
}

pub fn pad_zero_vec(s: &Vec<char>, w: usize) -> (r: Vec<char>)
    ensures
        r@ == pad_zero(s@, w as nat),
{
    let mut r: Vec<char> = Vec::new();
    let mut n = s.len();
    while n < w
        invariant
            n >= s.len(),
            s.len() < w ==> n <= w,
            s.len() >= w ==> n == s.len(),
            r@ == Seq::new((n - s.len()) as nat, |i: int| '0'),
        decreases w - n,
    {
        r.push('0');
        assert(Seq::new((n + 1 - s.len()) as nat, |i: int| '0') =~= Seq::new(
            (n - s.len()) as nat,
            |i: int| '0',
        ).push('0'));
        n += 1;
    }
    push_chars(&mut r, s);
    assert(Seq::new(0, |i: int| '0') + s@ =~= s@);
    r
}

/// `format!("{:0w}", n)`.
pub fn fmt_dec_pad(n: u64, w: usize) -> (r: Vec<char>)
    ensures
        r@ == pad_zero(dec(n as nat), w as nat),
{
    let d = fmt_dec(n);
    pad_zero_vec(&d, w)
}

/// `format!("{:0w}", n)` for a signed `n`.
pub fn fmt_signed_pad(n: i32, w: usize) -> (r: Vec<char>)
    ensures
        r@ == dec_signed_pad(n as int, w as nat),
{
    if n < 0 {
        let m: u64 = (0i64 - (n as i64)) as u64;
        let d = fmt_dec(m);
        let mut r: Vec<char> = Vec::new();
        r.push('-');
        let p = pad_zero_vec(&d, if w >= 1 {
            w - 1
        } else {
            0
        });
        push_chars(&mut r, &p);
        assert(r@ =~= seq!['-'] + p@);
        r
    } else {
        fmt_dec_pad(n as u64, w)
    }
}

// ---------------------------------------------------------------------------
// Ordering
// ---------------------------------------------------------------------------

/// `a < b` as `String`'s `Ord` compares: lexicographically by code point.
pub open spec fn lex_lt(a: Seq<char>, b: Seq<char>) -> bool
    decreases a.len(),
{
    if a.len() == 0 {
        b.len() > 0
    } else if b.len() == 0 {
        false
    } else if (a[0] as u32) < (b[0] as u32) {
        true
    } else if (a[0] as u32) > (b[0] as u32) {
        false
    } else {
        lex_lt(a.drop_first(), b.drop_first())
    }
}

pub proof fn lemma_lex_irrefl(a: Seq<char>)
    ensures
        !lex_lt(a, a),
    decreases a.len(),
{
    if a.len() > 0 {
        lemma_lex_irrefl(a.drop_first());
    }
}

pub proof fn lemma_lex_trans(a: Seq<char>, b: Seq<char>, c: Seq<char>)
    requires
        lex_lt(a, b),
        lex_lt(b, c),
    ensures
        lex_lt(a, c),
    decreases a.len(),
{
    if a.len() > 0 && b.len() > 0 && c.len() > 0 {
        if (a[0] as u32) == (b[0] as u32) && (b[0] as u32) == (c[0] as u32) {
            lemma_lex_trans(a.drop_first(), b.drop_first(), c.drop_first());
        }
    }
}

pub proof fn lemma_lex_total(a: Seq<char>, b: Seq<char>)
    ensures
        a == b || lex_lt(a, b) || lex_lt(b, a),
    decreases a.len(),
{
    if a.len() > 0 && b.len() > 0 {
        if (a[0] as u32) == (b[0] as u32) {
            vstd::utf8::char_u32_cast(a[0], a[0] as u32);
            vstd::utf8::char_u32_cast(b[0], b[0] as u32);
            lemma_lex_total(a.drop_first(), b.drop_first());
            if a.drop_first() == b.drop_first() {
                assert(a =~= seq![a[0]] + a.drop_first());
                assert(b =~= seq![b[0]] + b.drop_first());
            }
        }
    } else if a.len() == 0 && b.len() == 0 {
        assert(a =~= b);
    }
}

pub fn lex_lt_vec(a: &Vec<char>, b: &Vec<char>) -> (r: bool)
    ensures
        r == lex_lt(a@, b@),
{
    let mut i: usize = 0;
    assert(a@.skip(0) =~= a@ && b@.skip(0) =~= b@);
    while i < a.len() && i < b.len() && a[i] == b[i]
        invariant
            i <= a.len(),
            i <= b.len(),
            lex_lt(a@, b@) == lex_lt(a@.skip(i as int), b@.skip(i as int)),
        decreases a.len() - i,
    {
        assert(a@.skip(i as int).drop_first() =~= a@.skip(i + 1));
        assert(b@.skip(i as int).drop_first() =~= b@.skip(i + 1));
        i += 1;
    }
    let ghost sa = a@.skip(i as int);
    let ghost sb = b@.skip(i as int);
    if i == a.len() {
        assert(sa.len() == 0);
        i < b.len()
    } else if i == b.len() {
        assert(sb.len() == 0 && sa.len() > 0);
        false
    } else {
        assert(sa[0] == a@[i as int] && sb[0] == b@[i as int]);
        proof {
            vstd::utf8::char_u32_cast(a@[i as int], a@[i as int] as u32);
            vstd::utf8::char_u32_cast(b@[i as int], b@[i as int] as u32);
        }
        (a[i] as u32) < (b[i] as u32)
    }
}

/// No element of `s` is smaller than an element before it.
pub open spec fn lex_sorted(s: Seq<Seq<char>>) -> bool {
    forall|i: int, j: int| 0 <= i < j < s.len() ==> !lex_lt(#[trigger] s[j], #[trigger] s[i])
}

/// Each element of `s` is smaller than every element after it.
pub open spec fn lex_sorted_strict(s: Seq<Seq<char>>) -> bool {
    forall|i: int, j: int| 0 <= i < j < s.len() ==> lex_lt(#[trigger] s[i], #[trigger] s[j])
}

pub open spec fn views(v: Seq<Vec<char>>) -> Seq<Seq<char>> {
    v.map_values(|w: Vec<char>| w@)
}

/// Insertion sort of strings: the result is sorted and holds the same strings.
pub fn sort_strings(v: Vec<Vec<char>>) -> (r: Vec<Vec<char>>)
    ensures
        lex_sorted(views(r@)),
        views(r@).to_multiset() == views(v@).to_multiset(),
{
    broadcast use vstd::seq_lib::group_to_multiset_ensures;
    let mut r: Vec<Vec<char>> = Vec::new();
    let mut i: usize = 0;
    while i < v.len()
        invariant
            i <= v.len(),
            lex_sorted(views(r@)),
            views(r@).to_multiset() == views(v@.take(i as int)).to_multiset(),
        decreases v.len() - i,
    {
        let x = v[i].clone();
        assert(x@ =~= v@[i as int]@);
        let mut p: usize = 0;
        while p < r.len() && !lex_lt_vec(&x, &r[p])
            invariant
                p <= r.len(),
                forall|k: int| 0 <= k < p ==> !lex_lt(x@, #[trigger] views(r@)[k]),
            decreases r.len() - p,
        {
            p += 1;
        }
        let ghost old_r = views(r@);
        assert(forall|k: int| 0 <= k < p ==> !lex_lt(x@, #[trigger] old_r[k]));
        assert(p < old_r.len() ==> lex_lt(x@, old_r[p as int]));
        r.insert(p, x);
        proof {
            let nr = views(r@);
            assert(nr =~= old_r.insert(p as int, x@));
            assert forall|a: int, b: int| 0 <= a < b < nr.len() implies !lex_lt(
                #[trigger] nr[b],
                #[trigger] nr[a],
            ) by {
                if b < p {
                    assert(nr[a] == old_r[a] && nr[b] == old_r[b]);
                } else if b == p {
                    assert(nr[a] == old_r[a] && nr[b] == x@);
                    assert(!lex_lt(x@, old_r[a]));
                } else if a < p {
                    assert(nr[a] == old_r[a] && nr[b] == old_r[b - 1]);
                } else if a == p {
                    assert(nr[a] == x@ && nr[b] == old_r[b - 1]);
                    if lex_lt(old_r[b - 1], x@) {
                        lemma_lex_trans(old_r[b - 1], x@, old_r[p as int]);
                        if b - 1 == p {
                            lemma_lex_irrefl(old_r[p as int]);
                        } else {
                            assert(!lex_lt(old_r[b - 1], old_r[p as int]));
                        }
                    }
                } else {
                    assert(nr[a] == old_r[a - 1] && nr[b] == old_r[b - 1]);
                }
            }
            vstd::seq_lib::to_multiset_insert(old_r, p as int, x@);
            let vi = views(v@.take(i as int));
            assert(views(v@.take(i + 1)) =~= vi.push(v@[i as int]@));
            vstd::seq_lib::to_multiset_build(vi, v@[i as int]@);
        }
        i += 1;
    }
    assert(v@.take(v.len() as int) =~= v@);
    r
}

/// A sorted sequence without repeats is strictly sorted.
pub proof fn lemma_sorted_distinct_strict(s: Seq<Seq<char>>)
    requires
        lex_sorted(s),
        s.no_duplicates(),
    ensures
        lex_sorted_strict(s),
{
    assert forall|i: int, j: int| 0 <= i < j < s.len() implies lex_lt(
        #[trigger] s[i],
        #[trigger] s[j],
    ) by {
        lemma_lex_total(s[i], s[j]);
    }
}

} // verus!
