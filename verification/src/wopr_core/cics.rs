//! CICS: CESN/CESF signon, with CEMT and CECI gated behind it.
use vstd::prelude::*;
use crate::text;
use crate::tn3270::screen::{self, Field, Screen};
use crate::wopr_core::racf::{self, Logon, User};
use crate::wopr_core::session::{Environment, Reply, SessionCtx};
use crate::wopr_core::system::System;

verus! {

pub struct Cics {
    signed_on: Option<String>,
}

/// What a transaction does: the signed-on user afterwards, and its message.
pub open spec fn cics_handle(
    signed: Option<Seq<char>>,
    transid: Seq<char>,
    input: Seq<char>,
    users: Map<Seq<char>, User>,
) -> (Option<Seq<char>>, Seq<char>) {
    let t = text::upper(transid);
    if t == "CESN"@ {
        cesn_spec(signed, input, users)
    } else if t == "CESF"@ {
        (None, "DFHCE3549 Sign-off is complete."@)
    } else if t == "CEMT"@ {
        (signed, gated_spec(signed, "CEMT  I TASK   -- master terminal (no active tasks)"@))
    } else if t == "CECI"@ {
        (signed, gated_spec(signed, "CECI  Command-level interpreter ready."@))
    } else {
        (signed, "DFHAC2001 Transaction "@ + t + " not recognized."@)
    }
}

/// CESN `userid password`: sign on when RACF accepts the pair.
pub open spec fn cesn_spec(
    signed: Option<Seq<char>>,
    input: Seq<char>,
    users: Map<Seq<char>, User>,
) -> (Option<Seq<char>>, Seq<char>) {
    let w = text::words(input);
    if w.len() >= 2 {
        match racf::verify_spec(users, w[0], w[1]) {
            Logon::Accepted(u) => (
                Some(u.userid@),
                "DFHCE3548 Sign-on is complete for "@ + u.userid@ + "."@,
            ),
            _ => (signed, "DFHCE3504 The signon attempt failed."@),
        }
    } else {
        (signed, "DFHCE3520 Please enter: CESN userid password"@)
    }
}

/// A transaction that requires a signed-on identity.
pub open spec fn gated_spec(signed: Option<Seq<char>>, ok: Seq<char>) -> Seq<char> {
    match signed {
        Some(_) => ok,
        None => not_signed_on_msg(),
    }
}

/// `s` is a one-field message screen showing `m`.
pub open spec fn is_msg(s: Screen, m: Seq<char>) -> bool {
    &&& s.fields@.len() == 1
    &&& screen::field_is(s.fields@[0], 0, 0, true, false, m)
    &&& s.cursor == (1u16, 0u16)
}

pub open spec fn cics_prompt(c: Cics) -> Seq<char> {
    if c.signed_on() is Some {
        "ENTER TRANSACTION: "@
    } else {
        "SIGN ON (CESN userid password): "@
    }
}

/// One CICS line: blank lines get an empty reply; otherwise the transaction id
/// and its input, answered with the transaction's message.
pub open spec fn cics_step(
    a: Cics,
    b: Cics,
    line: Seq<char>,
    s0: System,
    s1: System,
    c0: SessionCtx,
    c1: SessionCtx,
    r: Reply,
) -> bool {
    let l = text::trim(line);
    &&& s1 == s0
    &&& c1 == c0
    &&& if l.len() == 0 {
        &&& b.signed_on() == a.signed_on()
        &&& r matches Reply::Text(t) && t@ == Seq::<char>::empty()
    } else {
        let (transid, input) = match text::split_once(l, ' ') {
            Some(p) => p,
            None => (l, seq![]),
        };
        let (signed, m) = cics_handle(a.signed_on(), transid, input, s0.racf.users@);
        &&& b.signed_on() == signed
        &&& r matches Reply::Text(t) && t@ == m + "\r\n"@
    }
}

/// The reply to a gated transaction when nobody is signed on.
pub open spec fn not_signed_on_msg() -> Seq<char> {
    "DFHAC2002 You are not signed on. Enter CESN first."@
}

/// CEMT and CECI are gated behind signon: they never change who is signed on,
/// and they are refused exactly when nobody is; CESF always signs off.
pub proof fn lemma_signon_gate(
    signed: Option<Seq<char>>,
    transid: Seq<char>,
    input: Seq<char>,
    users: Map<Seq<char>, User>,
)
    ensures
        ({
            let t = text::upper(transid);
            let (after, m) = cics_handle(signed, transid, input, users);
            (t == "CEMT"@ || t == "CECI"@) ==> after == signed && (m == not_signed_on_msg() <==> signed is None)
        }),
        text::upper(transid) == "CESF"@ ==> cics_handle(signed, transid, input, users).0 is None,
{
    reveal_strlit("CEMT");
    reveal_strlit("CECI");
    reveal_strlit("CESN");
    reveal_strlit("CESF");
    reveal_strlit("DFHAC2002 You are not signed on. Enter CESN first.");
    reveal_strlit("CEMT  I TASK   -- master terminal (no active tasks)");
    reveal_strlit("CECI  Command-level interpreter ready.");
    let t = text::upper(transid);
    if t == "CEMT"@ {
        assert(t[2] != "CESN"@[2]);
        assert(t[2] != "CESF"@[2]);
        assert("CEMT  I TASK   -- master terminal (no active tasks)"@[0] != not_signed_on_msg()[0]);
    } else if t == "CECI"@ {
        assert(t[2] != "CESN"@[2]);
        assert(t[2] != "CESF"@[2]);
        assert(t[2] != "CEMT"@[2]);
        assert("CECI  Command-level interpreter ready."@[0] != not_signed_on_msg()[0]);
    } else if t == "CESF"@ {
        assert(t[3] != "CESN"@[3]);
    }
}

fn msg(text: &Vec<char>) -> (s: Screen)
    ensures
        is_msg(s, text@),
{
    let mut fields: Vec<Field> = Vec::new();
    fields.push(Field { row: 0, col: 0, protected: true, hidden: false, text: text::string_of(text) });
    Screen { fields, cursor: (1, 0) }
}

fn msg_str(text: &str) -> (s: Screen)
    ensures
        is_msg(s, text@),
{
    let v = text::chars_of(text);
    msg(&v)
}

/// Flatten a screen to line-mode text: each field's text on a line of its own.
pub open spec fn screen_text(fs: Seq<Field>) -> Seq<char>
    decreases fs.len(),
{
    if fs.len() == 0 {
        seq![]
    } else {
        screen_text(fs.drop_last()) + fs.last().text@ + "\r\n"@
    }
}

fn screen_to_text(s: &Screen) -> (r: String)
    ensures
        r@ == screen_text(s.fields@),
{
    let mut out: Vec<char> = Vec::new();
    let mut i: usize = 0;
    while i < s.fields.len()
        invariant
            i <= s.fields@.len(),
            out@ == screen_text(s.fields@.take(i as int)),
        decreases s.fields.len() - i,
    {
        text::push_str(&mut out, s.fields[i].text.as_str());
        text::push_str(&mut out, "\r\n");
        assert(s.fields@.take(i + 1).drop_last() =~= s.fields@.take(i as int));
        i += 1;
    }
    assert(s.fields@.take(s.fields@.len() as int) =~= s.fields@);
    text::string_of(&out)
}

impl Cics {
    /// The signed-on user, if any.
    pub closed spec fn signed_on(&self) -> Option<Seq<char>> {
        match self.signed_on {
            Some(s) => Some(s@),
            None => None,
        }
    }

    pub fn new() -> (c: Self)
        ensures
            c.signed_on() is None,
    {
        Cics { signed_on: None }
    }

    /// The signed-on user, if any.
    pub fn signed_on_user(&self) -> (r: Option<String>)
        ensures
            match r {
                Some(s) => self.signed_on() == Some(s@),
                None => self.signed_on() is None,
            },
    {
        match &self.signed_on {
            Some(s) => Some(s.clone()),
            None => None,
        }
    }

    /// Core transaction dispatch.
    pub fn handle(&mut self, transid: &str, input: &str, sys: &mut System) -> (s: Screen)
        ensures
            ({
                let (signed, m) = cics_handle(old(self).signed_on(), transid@, input@, old(sys).racf.users@);
                &&& final(self).signed_on() == signed
                &&& is_msg(s, m)
            }),
            *final(sys) == *old(sys),
    {
        let tv = text::chars_of(transid);
        let t = text::upper_vec(&tv);
        if text::eq_str(&t, "CESN") {
            self.cesn(input, sys)
        } else if text::eq_str(&t, "CESF") {
            self.signed_on = None;
            msg_str("DFHCE3549 Sign-off is complete.")
        } else if text::eq_str(&t, "CEMT") {
            self.gated("CEMT  I TASK   -- master terminal (no active tasks)")
        } else if text::eq_str(&t, "CECI") {
            self.gated("CECI  Command-level interpreter ready.")
        } else {
            let mut out: Vec<char> = Vec::new();
            text::push_str(&mut out, "DFHAC2001 Transaction ");
            text::push_chars(&mut out, &t);
            text::push_str(&mut out, " not recognized.");
            msg(&out)
        }
    }

    fn cesn(&mut self, input: &str, sys: &mut System) -> (s: Screen)
        ensures
            ({
                let (signed, m) = cesn_spec(old(self).signed_on(), input@, old(sys).racf.users@);
                &&& final(self).signed_on() == signed
                &&& is_msg(s, m)
            }),
            *final(sys) == *old(sys),
    {
        let iv = text::chars_of(input);
        let w = text::words_vec(&iv);
        if w.len() >= 2 {
            let user = text::string_of(&w[0]);
            let pw = text::string_of(&w[1]);
            assert(user@ == text::words(input@)[0] && pw@ == text::words(input@)[1]);
            match sys.racf.verify(user.as_str(), pw.as_str()) {
                Logon::Accepted(u) => {
                    self.signed_on = Some(u.userid.clone());
                    let mut out: Vec<char> = Vec::new();
                    text::push_str(&mut out, "DFHCE3548 Sign-on is complete for ");
                    text::push_str(&mut out, u.userid.as_str());
                    text::push_str(&mut out, ".");
                    msg(&out)
                },
                _ => msg_str("DFHCE3504 The signon attempt failed."),
            }
        } else {
            msg_str("DFHCE3520 Please enter: CESN userid password")
        }
    }

    /// A transaction that requires a signed-on identity.
    fn gated(&self, ok: &str) -> (s: Screen)
        ensures
            is_msg(s, gated_spec(self.signed_on(), ok@)),
    {
        match &self.signed_on {
            Some(_) => msg_str(ok),
            None => msg_str("DFHAC2002 You are not signed on. Enter CESN first."),
        }
    }
}

impl Environment for Cics {
    open spec fn can_take(&self, line: Seq<char>, sys: System) -> bool {
        true
    }

    fn prompt(&self) -> (p: &'static str)
        ensures
            p@ == cics_prompt(*self),
    {
        if self.signed_on.is_some() {
            "ENTER TRANSACTION: "
        } else {
            "SIGN ON (CESN userid password): "
        }
    }

    fn on_line(&mut self, line: &str, sys: &mut System, ctx: &mut SessionCtx) -> (r: Reply)
        ensures
            cics_step(*old(self), *final(self), line@, *old(sys), *final(sys), *old(ctx), *final(ctx), r),
    {
        let l = text::trim_str(line);
        if l.len() == 0 {
            return Reply::Text(String::new());
        }
        let (transid, input) = match text::split_once_vec(&l, ' ') {
            Some((a, b)) => (a, b),
            None => (l, Vec::new()),
        };
        let ts = text::string_of(&transid);
        let is = text::string_of(&input);
        let s = self.handle(ts.as_str(), is.as_str(), sys);
        assert(s.fields@.drop_last() =~= Seq::<Field>::empty());
        proof {
            reveal_with_fuel(screen_text, 2);
        }
        assert(screen_text(s.fields@) =~= Seq::<char>::empty() + s.fields@[0].text@ + "\r\n"@);
        Reply::Text(screen_to_text(&s))
    }
}

} // verus!
