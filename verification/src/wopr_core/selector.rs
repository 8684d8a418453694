//! The VTAM-style selector: logon by application id.
use vstd::prelude::*;
use crate::text;
use crate::wopr_core::cics::Cics;
use crate::wopr_core::db2::{self, Db2};
use crate::wopr_core::logon::LogonState;
use crate::wopr_core::session::{Env, Environment, Reply, SessionCtx};
use crate::wopr_core::system::System;

verus! {

pub struct Selector;

/// The selector's answer to `line`: `L TSO` opens the TSO logon, `L CICS` and
/// `L DB2` open those environments, another application id is not active, and
/// anything else gets the usage hint.
pub open spec fn selector_reply(line: Seq<char>, r: Reply) -> bool {
    let w = text::words(line);
    if w.len() >= 2 && text::eq_ignore_case(w[0], "L"@) {
        let app = text::upper(w[1]);
        if app == "TSO"@ {
            r matches Reply::Switch(Env::TsoLogon(LogonState::AskUser))
        } else if app == "CICS"@ {
            r matches Reply::Switch(Env::Cics(c)) && c.signed_on() is None
        } else if app == "DB2"@ {
            r matches Reply::Switch(Env::Db2(d)) && d.tables() == db2::initial_tables() && d.grants()
                == Seq::<(Seq<char>, Seq<char>)>::empty()
        } else {
            r matches Reply::Text(t) && t@ == "DFS3649E APPLICATION "@ + app + " NOT ACTIVE\r\n"@
        }
    } else {
        r matches Reply::Text(t) && t@ == "ENTER 'L TSO', 'L CICS' OR 'L DB2'\r\n"@
    }
}

pub open spec fn selector_step(
    line: Seq<char>,
    s0: System,
    s1: System,
    c0: SessionCtx,
    c1: SessionCtx,
    r: Reply,
) -> bool {
    &&& selector_reply(line, r)
    &&& s1 == s0
    &&& c1 == c0
}

impl Environment for Selector {
    open spec fn can_take(&self, line: Seq<char>, sys: System) -> bool {
        true
    }

    fn prompt(&self) -> (p: &'static str)
        ensures
            p@ == "Logon Type: "@,
    {
        "Logon Type: "
    }

    fn on_line(&mut self, line: &str, sys: &mut System, ctx: &mut SessionCtx) -> (r: Reply)
        ensures
            selector_step(line@, *old(sys), *final(sys), *old(ctx), *final(ctx), r),
    {
        let lv = text::chars_of(line);
        let w = text::words_vec(&lv);
        proof {
            assert(w@.len() == text::words(line@).len());
            if w@.len() >= 2 {
                assert(w@[0]@ == text::words(line@)[0]);
                assert(w@[1]@ == text::words(line@)[1]);
            }
        }
        let l = text::chars_of("L");
        if w.len() >= 2 && text::eq_ignore_case_vec(&w[0], &l) {
            let app = text::upper_vec(&w[1]);
            if text::eq_str(&app, "TSO") {
                Reply::Switch(Env::TsoLogon(LogonState::AskUser))
            } else if text::eq_str(&app, "CICS") {
                Reply::Switch(Env::Cics(Cics::new()))
            } else if text::eq_str(&app, "DB2") {
                Reply::Switch(Env::Db2(Db2::new()))
            } else {
                let mut out: Vec<char> = Vec::new();
                text::push_str(&mut out, "DFS3649E APPLICATION ");
                text::push_chars(&mut out, &app);
                text::push_str(&mut out, " NOT ACTIVE\r\n");
                Reply::Text(text::string_of(&out))
            }
        } else {
            Reply::Text(String::from_str("ENTER 'L TSO', 'L CICS' OR 'L DB2'\r\n"))
        }
    }
}

} // verus!
