//! Sessions: the environment a terminal is in, and how a line of input moves it.
use vstd::prelude::*;
use crate::wopr_core::cics::{self, Cics};
use crate::wopr_core::db2::{self, Db2};
use crate::wopr_core::logon::{self, LogonState};
use crate::wopr_core::omvs::{self, Omvs};
use crate::wopr_core::racf::User;
use crate::wopr_core::selector::{self, Selector};
use crate::wopr_core::system::System;
use crate::wopr_core::tso::{self, Tso};

verus! {

/// The environment a session is in.
pub enum Env {
    Selector(Selector),
    TsoLogon(LogonState),
    Tso(Tso),
    Cics(Cics),
    Db2(Db2),
    Omvs(Omvs),
}

/// What an environment answers to a line.
pub enum Reply {
    Text(String),
    Switch(Env),
    Disconnect,
}

pub struct SessionCtx {
    pub user: Option<String>,
    /// The time of the line being handled, in seconds since the Unix epoch
    /// (UTC); whoever drives the session sets it from its clock.
    pub now: i64,
}

impl Default for SessionCtx {
    fn default() -> (c: Self)
        ensures
            c.user is None,
            c.now == 0,
    {
        SessionCtx { user: None, now: 0 }
    }
}

impl SessionCtx {
    /// Remember the user who logged on.
    pub fn set_user(&mut self, u: &User)
        ensures
            final(self).user is Some,
            final(self).user->0@ == u.userid@,
            final(self).now == old(self).now,
    {
        self.user = Some(u.userid.clone());
    }
}

/// An environment of a session: it prompts, and it answers each line.
pub trait Environment {
    /// Whether `on_line` can take `line` against `sys`.
    spec fn can_take(&self, line: Seq<char>, sys: System) -> bool;

    fn prompt(&self) -> &'static str;

    fn on_line(&mut self, line: &str, sys: &mut System, ctx: &mut SessionCtx) -> Reply
        requires
            old(self).can_take(line@, *old(sys)),
    ;
}

pub struct Session {
    pub env: Env,
    pub ctx: SessionCtx,
}

impl Session {
    /// A new session starts at the logon selector, with nobody logged on.
    pub fn new() -> (s: Self)
        ensures
            s.env is Selector,
            s.ctx.user is None,
    {
        Session { env: Env::Selector(Selector), ctx: SessionCtx::default() }
    }
}

/// Whether the environment can take `line` against `sys`.
pub open spec fn env_can_take(env: Env, line: Seq<char>, sys: System) -> bool {
    match env {
        Env::Selector(e) => e.can_take(line, sys),
        Env::TsoLogon(e) => e.can_take(line, sys),
        Env::Tso(e) => e.can_take(line, sys),
        Env::Cics(e) => e.can_take(line, sys),
        Env::Db2(e) => e.can_take(line, sys),
        Env::Omvs(e) => e.can_take(line, sys),
    }
}

/// Whether the environment can take `line` against `sys`.
pub fn env_can_take_now(env: &Env, line: &str, sys: &System) -> (r: bool)
    ensures
        r == env_can_take(*env, line@, *sys),
{
    match env {
        Env::Tso(t) => t.can_take_now(line, sys),
        _ => true,
    }
}

/// One line in environment `a`, leaving it as `b`: the step that the
/// environment's own `on_line` states.
pub open spec fn env_step(
    a: Env,
    b: Env,
    line: Seq<char>,
    s0: System,
    s1: System,
    c0: SessionCtx,
    c1: SessionCtx,
    r: Reply,
) -> bool {
    match (a, b) {
        (Env::Selector(x), Env::Selector(y)) => selector::selector_step(line, s0, s1, c0, c1, r),
        (Env::TsoLogon(x), Env::TsoLogon(y)) => logon::logon_step(x, y, line, s0, s1, c0, c1, r),
        (Env::Tso(x), Env::Tso(y)) => tso::tso_step(x, y, line, s0, s1, c0, c1, r),
        (Env::Cics(x), Env::Cics(y)) => cics::cics_step(x, y, line, s0, s1, c0, c1, r),
        (Env::Db2(x), Env::Db2(y)) => db2::db2_step(x, y, line, s0, s1, c0, c1, r),
        (Env::Omvs(x), Env::Omvs(y)) => omvs::omvs_step(x, y, line, s0, s1, c0, c1, r),
        _ => false,
    }
}

/// Feed one line to whichever environment the session is in.
pub fn env_on_line(env: &mut Env, line: &str, sys: &mut System, ctx: &mut SessionCtx) -> (r: Reply)
    requires
        env_can_take(*old(env), line@, *old(sys)),
    ensures
        env_step(*old(env), *final(env), line@, *old(sys), *final(sys), *old(ctx), *final(ctx), r),
{
    match env {
        Env::Selector(e) => e.on_line(line, sys, ctx),
        Env::TsoLogon(e) => e.on_line(line, sys, ctx),
        Env::Tso(e) => e.on_line(line, sys, ctx),
        Env::Cics(e) => e.on_line(line, sys, ctx),
        Env::Db2(e) => e.on_line(line, sys, ctx),
        Env::Omvs(e) => e.on_line(line, sys, ctx),
    }
}

/// The prompt each environment shows.
pub open spec fn env_prompt_spec(env: Env) -> Seq<char> {
    match env {
        Env::Selector(_) => "Logon Type: "@,
        Env::TsoLogon(e) => logon::logon_prompt(e),
        Env::Tso(_) => "READY\r\n"@,
        Env::Cics(e) => cics::cics_prompt(e),
        Env::Db2(_) => "DSN "@,
        Env::Omvs(_) => "$ "@,
    }
}

pub fn env_prompt(env: &Env) -> (p: &'static str)
    ensures
        p@ == env_prompt_spec(*env),
{
    match env {
        Env::Selector(e) => e.prompt(),
        Env::TsoLogon(e) => e.prompt(),
        Env::Tso(e) => e.prompt(),
        Env::Cics(e) => e.prompt(),
        Env::Db2(e) => e.prompt(),
        Env::Omvs(e) => e.prompt(),
    }
}

/// The text shown on entering an environment: none for every one of them.
pub fn env_banner(env: &Env) -> (b: &'static str)
    ensures
        b@ == ""@,
{
    match env {
        Env::Selector(_) | Env::TsoLogon(_) | Env::Tso(_) | Env::Cics(_) | Env::Db2(_)
        | Env::Omvs(_) => "",
    }
}

} // verus!
