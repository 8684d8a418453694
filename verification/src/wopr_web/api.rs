//! CBSA-style REST data: a couple of demo accounts stand in for the datasets and
//! Db2 tables the green screens use.
use vstd::prelude::*;
use crate::text;

verus! {

/// The demo accounts: id and balance in cents.
pub open spec fn accounts() -> Seq<(Seq<char>, nat)> {
    seq![("00001"@, 123456), ("00002"@, 4200)]
}

/// A balance in cents as `{:.2}` shows it: units, a point, two digits.
pub open spec fn money(cents: nat) -> Seq<char> {
    text::dec(cents / 100) + "."@ + text::pad_zero(text::dec(cents % 100), 2)
}

pub open spec fn account_text(id: Seq<char>, cents: nat) -> Seq<char> {
    "{\"id\":\""@ + id + "\",\"balance\":"@ + money(cents) + "}"@
}

/// The JSON of the first account whose id is `id`, if any.
pub open spec fn account_json_spec(id: Seq<char>) -> Option<Seq<char>> {
    if id == accounts()[0].0 {
        Some(account_text(id, accounts()[0].1))
    } else if id == accounts()[1].0 {
        Some(account_text(id, accounts()[1].1))
    } else {
        None
    }
}

fn fmt_money(cents: u64) -> (r: Vec<char>)
    ensures
        r@ == money(cents as nat),
{
    let mut r = text::fmt_dec(cents / 100);
    text::push_str(&mut r, ".");
    let f = text::fmt_dec_pad(cents % 100, 2);
    text::push_chars(&mut r, &f);
    r
}

pub fn account_json(id: &str) -> (r: Option<String>)
    ensures
        match r {
            Some(j) => account_json_spec(id@) == Some(j@),
            None => account_json_spec(id@) is None,
        },
{
    let iv = text::chars_of(id);
    let cents: u64 = if text::eq_str(&iv, "00001") {
        123456
    } else if text::eq_str(&iv, "00002") {
        4200
    } else {
        return None;
    };
    let mut out: Vec<char> = Vec::new();
    text::push_str(&mut out, "{\"id\":\"");
    text::push_chars(&mut out, &iv);
    text::push_str(&mut out, "\",\"balance\":");
    let m = fmt_money(cents);
    text::push_chars(&mut out, &m);
    text::push_str(&mut out, "}");
    Some(text::string_of(&out))
}

} // verus!
