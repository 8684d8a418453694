//! The TSO logon panel: ask for the userid, then the password, then verify.
use vstd::prelude::*;
use crate::text;
use crate::wopr_core::audit::{self, Detail, EventKind, SmfEvent};
use crate::wopr_core::racf::{self, Logon};
use crate::wopr_core::session::{Env, Environment, Reply, SessionCtx};
use crate::wopr_core::system::System;
use crate::wopr_core::tso::Tso;

verus! {

pub enum LogonState {
    AskUser,
    AskPass { userid: String },
}

impl Default for LogonState {
    fn default() -> (s: Self)
        ensures
            s is AskUser,
    {
        LogonState::AskUser
    }
}

pub open spec fn logon_prompt(s: LogonState) -> Seq<char> {
    match s {
        LogonState::AskUser => "USERID: "@,
        LogonState::AskPass { .. } => "PASSWORD: "@,
    }
}

/// The audit detail of a failed logon.
pub open spec fn reason(why: Seq<char>) -> Seq<(Seq<char>, Seq<char>)> {
    seq![("reason"@, why)]
}

/// One line at the logon panel.  The userid line is kept (trimmed); the password
/// line is verified against RACF, audited, and either enters TSO as that user or
/// is refused in character; the panel then asks for a userid again.
pub open spec fn logon_step(
    a: LogonState,
    b: LogonState,
    line: Seq<char>,
    s0: System,
    s1: System,
    c0: SessionCtx,
    c1: SessionCtx,
    r: Reply,
) -> bool {
    match a {
        LogonState::AskUser => {
            &&& b matches LogonState::AskPass { userid } && userid@ == text::trim(line)
            &&& r matches Reply::Text(t) && t@ == Seq::<char>::empty()
            &&& s1 == s0
            &&& c1 == c0
        },
        LogonState::AskPass { userid } => {
            &&& b is AskUser
            &&& s1.racf == s0.racf
            &&& s1.catalog == s0.catalog
            &&& s1.spool == s0.spool
            &&& s1.services == s0.services
            &&& match racf::verify_spec(s0.racf.users@, userid@, text::trim(line)) {
                Logon::Accepted(u) => {
                    &&& audit::recorded(s0.audit, s1.audit, EventKind::LogonOk, u.userid@, seq![], c0.now)
                    &&& c1.user is Some && c1.user->0@ == u.userid@ && c1.now == c0.now
                    &&& r matches Reply::Switch(Env::Tso(t)) && t.user()@ == u@
                },
                Logon::Revoked => {
                    &&& audit::recorded(s0.audit, s1.audit, EventKind::LogonFail, userid@, reason("Revoked"@), c0.now)
                    &&& c1 == c0
                    &&& r matches Reply::Text(t) && t@ == "IKJ56429I USERID ACCESS REVOKED\r\n"@
                },
                _ => {
                    &&& audit::recorded(s0.audit, s1.audit, EventKind::LogonFail, userid@, reason("BadPassword"@), c0.now)
                    &&& c1 == c0
                    &&& r matches Reply::Text(t) && t@ == "IKJ56420I USERID OR PASSWORD INVALID\r\n"@
                },
            }
        },
    }
}

fn reason_detail(why: &str) -> (d: Detail)
    ensures
        audit::detail_is(d, reason(why@)),
{
    let mut p: Vec<(String, String)> = Vec::new();
    p.push((String::from_str("reason"), String::from_str(why)));
    assert(audit::pairs_view(p@) =~= reason(why@));
    Detail::Object(p)
}

impl Environment for LogonState {
    open spec fn can_take(&self, line: Seq<char>, sys: System) -> bool {
        true
    }

    fn prompt(&self) -> (p: &'static str)
        ensures
            p@ == logon_prompt(*self),
    {
        match self {
            LogonState::AskUser => "USERID: ",
            LogonState::AskPass { .. } => "PASSWORD: ",
        }
    }

    fn on_line(&mut self, line: &str, sys: &mut System, ctx: &mut SessionCtx) -> (r: Reply)
        ensures
            logon_step(*old(self), *final(self), line@, *old(sys), *final(sys), *old(ctx), *final(ctx), r),
    {
        let mut st = LogonState::AskUser;
        std::mem::swap(&mut st, self);
        match st {
            LogonState::AskUser => {
                let t = text::trim_str(line);
                *self = LogonState::AskPass { userid: text::string_of(&t) };
                Reply::Text(String::new())
            },
            LogonState::AskPass { userid } => {
                let pw = text::trim_str(line);
                let pws = text::string_of(&pw);
                match sys.racf.verify(userid.as_str(), pws.as_str()) {
                    Logon::Accepted(u) => {
                        let mut none: Vec<(String, String)> = Vec::new();
                        assert(audit::pairs_view(none@) =~= Seq::<(Seq<char>, Seq<char>)>::empty());
                        sys.audit.record(SmfEvent::now(EventKind::LogonOk, u.userid.as_str(), Detail::Object(none), ctx.now));
                        ctx.set_user(&u);
                        Reply::Switch(Env::Tso(Tso::new(u)))
                    },
                    Logon::BadPassword | Logon::NoUser => {
                        sys.audit.record(SmfEvent::now(EventKind::LogonFail, userid.as_str(), reason_detail("BadPassword"), ctx.now));
                        Reply::Text(String::from_str("IKJ56420I USERID OR PASSWORD INVALID\r\n"))
                    },
                    Logon::Revoked => {
                        sys.audit.record(SmfEvent::now(EventKind::LogonFail, userid.as_str(), reason_detail("Revoked"), ctx.now));
                        Reply::Text(String::from_str("IKJ56429I USERID ACCESS REVOKED\r\n"))
                    },
                }
            },
        }
    }
}

} // verus!
