//! TSO: the READY prompt and its commands.
use vstd::prelude::*;
use crate::text;
use crate::wopr_core::audit;
use crate::wopr_core::dataset;
use crate::wopr_core::jes;
use crate::wopr_core::omvs::{self, Omvs};
use crate::wopr_core::racf::{self, Attrs, User, UserView};
use crate::wopr_core::session::{Env, Environment, Reply, SessionCtx};
use crate::wopr_core::system::System;

verus! {

pub struct Tso {
    user: User,
}

impl Tso {
    /// The user this TSO session belongs to.
    pub closed spec fn user(&self) -> User {
        self.user
    }

    pub fn new(user: User) -> (t: Self)
        ensures
            t.user()@ == user@,
    {
        Tso { user }
    }
}

/// A TSO line split into its verb and the rest.
pub open spec fn verb_args(line: Seq<char>) -> (Seq<char>, Seq<char>) {
    let t = text::trim(line);
    match text::split_once(t, ' ') {
        Some((v, a)) => (v, a),
        None => (t, seq![]),
    }
}

pub open spec fn help_text() -> Seq<char> {
    "IKJ56650I ENTER HELP followed by a command name for more information\r\n"@
}

pub open spec fn time_text() -> Seq<char> {
    "IKJ56650I TIME-12:00:00  DATE-2026.001\r\n"@
}

/// The user that LISTUSER reports: the first word of its operand, else the
/// caller; upper-cased.
pub open spec fn listuser_target(args: Seq<char>, caller: UserView) -> Seq<char> {
    let w = text::words(args);
    text::upper(if w.len() > 0 { w[0] } else { caller.userid })
}

/// The names of the attributes held, in the order SPECIAL, OPERATIONS, AUDITOR.
pub open spec fn attr_names(a: Attrs) -> Seq<Seq<char>> {
    (if a.special { seq!["SPECIAL"@] } else { seq![] }) + (if a.operations {
        seq!["OPERATIONS"@]
    } else {
        seq![]
    }) + (if a.auditor { seq!["AUDITOR"@] } else { seq![] })
}

/// The ATTRIBUTES value of LISTUSER: the attributes held, separated by a space,
/// or NONE.
pub open spec fn attrs_word(a: Attrs) -> Seq<char> {
    if attr_names(a).len() == 0 {
        "NONE"@
    } else {
        text::join(attr_names(a), " "@)
    }
}

fn attrs_word_exec(a: &Attrs) -> (r: Vec<char>)
    ensures
        r@ == attrs_word(*a),
{
    let mut parts: Vec<Vec<char>> = Vec::new();
    if a.special {
        parts.push(text::chars_of("SPECIAL"));
    }
    if a.operations {
        parts.push(text::chars_of("OPERATIONS"));
    }
    if a.auditor {
        parts.push(text::chars_of("AUDITOR"));
    }
    assert(parts@.map_values(|w: Vec<char>| w@) =~= attr_names(*a));
    if parts.len() == 0 {
        text::chars_of("NONE")
    } else {
        text::join_vec(&parts, " ")
    }
}

pub open spec fn listuser_spec(args: Seq<char>, caller: UserView, users: Map<Seq<char>, User>) -> Seq<char> {
    let target = listuser_target(args, caller);
    if !users.contains_key(target) {
        "IKJ56712I INVALID USERID, "@ + target + "\r\n"@
    } else {
        let u = users[target];
        "USER="@ + u.userid@ + "  NAME=UNKNOWN  OWNER=SYS1  CREATED=00.000\r\nATTRIBUTES="@
            + attrs_word(u.attrs) + "\r\n DEFAULT-GROUP="@ + u.default_group@ + "\r\n"@
    }
}

/// LISTUSER with no operand reports the calling user: its reply is the reply to
/// LISTUSER naming the caller's userid.
pub proof fn lemma_listuser_defaults_to_caller(
    args: Seq<char>,
    caller: UserView,
    users: Map<Seq<char>, User>,
)
    requires
        text::words(args).len() == 0,
        text::words(caller.userid) == seq![caller.userid],
    ensures
        listuser_spec(args, caller, users) == listuser_spec(caller.userid, caller, users),
{
}


/// Whether a TSO line can run without overflowing a counter: SUBMIT needs a job
/// number left, OMVS needs the user's UID to be computable.
pub open spec fn tso_can_take(user: UserView, line: Seq<char>, sys: System) -> bool {
    let (verb, args) = verb_args(line);
    let v = text::upper(verb);
    &&& v == "SUBMIT"@ ==> (jes::submit_numbers_job(args, sys) ==> sys.spool.last_id() < u32::MAX)
    &&& v == "OMVS"@ ==> omvs::uid_computable(user.userid)
}

/// One TSO line: the reply to its verb; only SUBMIT changes the system.
pub open spec fn tso_step(
    a: Tso,
    b: Tso,
    line: Seq<char>,
    s0: System,
    s1: System,
    c0: SessionCtx,
    c1: SessionCtx,
    r: Reply,
) -> bool {
    let (verb, args) = verb_args(line);
    let v = text::upper(verb);
    let u = a.user()@;
    &&& b.user()@ == u
    &&& c1 == c0
    &&& (v != "SUBMIT"@ ==> s1 == s0)
    &&& if v.len() == 0 {
        r matches Reply::Text(t) && t@ == Seq::<char>::empty()
    } else if v == "HELP"@ {
        r matches Reply::Text(t) && t@ == help_text()
    } else if v == "TIME"@ {
        r matches Reply::Text(t) && t@ == time_text()
    } else if v == "PROFILE"@ {
        r matches Reply::Text(t) && t@ == racf::profile_line_spec(u)
    } else if v == "LISTUSER"@ {
        r matches Reply::Text(t) && t@ == listuser_spec(args, u, s0.racf.users@)
    } else if v == "SECEVENTS"@ {
        r matches Reply::Text(t) && t@ == audit::recent_report(s0.audit.events(), 20)
    } else if v == "SUBMIT"@ {
        r matches Reply::Text(t) && jes::submitted(args, s0, s1, t@, c0.now)
    } else if v == "ST"@ || v == "SDSF"@ {
        r matches Reply::Text(t) && t@ == jes::sdsf_st_spec(s0.spool.queue())
    } else if v == "LISTCAT"@ || v == "LISTDS"@ {
        r matches Reply::Text(t) && dataset::catalog_reply(verb, args, s0.catalog.sets@, t@)
    } else if v == "OMVS"@ {
        r matches Reply::Switch(Env::Omvs(o)) && omvs::fresh(o, u)
    } else if v == "LOGOFF"@ {
        r is Disconnect
    } else {
        r matches Reply::Text(t) && t@ == "IKJ56500I COMMAND "@ + v + " NOT FOUND\r\n"@
    }
}

fn listuser(args: &Vec<char>, caller: &User, sys: &System) -> (r: String)
    ensures
        r@ == listuser_spec(args@, caller@, sys.racf.users@),
{
    let w = text::words_vec(args);
    let t = if w.len() > 0 {
        assert(w@[0]@ == text::words(args@)[0]);
        text::upper_vec(&w[0])
    } else {
        let c = text::chars_of(caller.userid.as_str());
        text::upper_vec(&c)
    };
    let mut out: Vec<char> = Vec::new();
    match sys.racf.users.get(&t) {
        None => {
            text::push_str(&mut out, "IKJ56712I INVALID USERID, ");
            text::push_chars(&mut out, &t);
            text::push_str(&mut out, "\r\n");
        },
        Some(u) => {
            text::push_str(&mut out, "USER=");
            text::push_str(&mut out, u.userid.as_str());
            text::push_str(&mut out, "  NAME=UNKNOWN  OWNER=SYS1  CREATED=00.000\r\nATTRIBUTES=");
            let a = attrs_word_exec(&u.attrs);
            text::push_chars(&mut out, &a);
            text::push_str(&mut out, "\r\n DEFAULT-GROUP=");
            text::push_str(&mut out, u.default_group.as_str());
            text::push_str(&mut out, "\r\n");
        },
    }
    text::string_of(&out)
}

fn help(_args: &Vec<char>) -> (r: String)
    ensures
        r@ == help_text(),
{
    String::from_str("IKJ56650I ENTER HELP followed by a command name for more information\r\n")
}

/// A fixed stamp keeps the session deterministic.
fn time_now() -> (r: String)
    ensures
        r@ == time_text(),
{
    String::from_str("IKJ56650I TIME-12:00:00  DATE-2026.001\r\n")
}

impl Tso {
    /// Whether `on_line` can take `line` against `sys`.
    pub fn can_take_now(&self, line: &str, sys: &System) -> (r: bool)
        ensures
            r == tso_can_take(self.user()@, line@, *sys),
    {
        let t = text::trim_str(line);
        let (verb, args) = match text::split_once_vec(&t, ' ') {
            Some((v, a)) => (v, a),
            None => (t, Vec::new()),
        };
        let v = text::upper_vec(&verb);
        if text::eq_str(&v, "SUBMIT") {
            let az = text::string_of(&args);
            if jes::would_number(az.as_str(), sys) && sys.spool.last_job_id() == u32::MAX {
                return false;
            }
        }
        if text::eq_str(&v, "OMVS") {
            return omvs::uid_computable_now(self.user.userid.as_str());
        }
        true
    }
}

impl Environment for Tso {
    open spec fn can_take(&self, line: Seq<char>, sys: System) -> bool {
        tso_can_take(self.user()@, line, sys)
    }

    fn prompt(&self) -> (p: &'static str)
        ensures
            p@ == "READY\r\n"@,
    {
        "READY\r\n"
    }

    fn on_line(&mut self, line: &str, sys: &mut System, ctx: &mut SessionCtx) -> (r: Reply)
        ensures
            tso_step(*old(self), *final(self), line@, *old(sys), *final(sys), *old(ctx), *final(ctx), r),
    {
        let t = text::trim_str(line);
        let (verb, args) = match text::split_once_vec(&t, ' ') {
            Some((v, a)) => (v, a),
            None => (t, Vec::new()),
        };
        let v = text::upper_vec(&verb);
        let vs = text::string_of(&verb);
        let az = text::string_of(&args);
        if v.len() == 0 {
            Reply::Text(String::new())
        } else if text::eq_str(&v, "HELP") {
            Reply::Text(help(&args))
        } else if text::eq_str(&v, "TIME") {
            Reply::Text(time_now())
        } else if text::eq_str(&v, "PROFILE") {
            Reply::Text(self.user.profile_line())
        } else if text::eq_str(&v, "LISTUSER") {
            Reply::Text(listuser(&args, &self.user, sys))
        } else if text::eq_str(&v, "SECEVENTS") {
            Reply::Text(sys.audit.render_recent(20))
        } else if text::eq_str(&v, "SUBMIT") {
            Reply::Text(jes::submit(az.as_str(), sys, ctx.now))
        } else if text::eq_str(&v, "ST") || text::eq_str(&v, "SDSF") {
            Reply::Text(jes::sdsf_st(sys))
        } else if text::eq_str(&v, "LISTCAT") || text::eq_str(&v, "LISTDS") {
            Reply::Text(dataset::catalog_cmd(vs.as_str(), az.as_str(), sys))
        } else if text::eq_str(&v, "OMVS") {
            Reply::Switch(Env::Omvs(Omvs::new(&self.user)))
        } else if text::eq_str(&v, "LOGOFF") {
            Reply::Disconnect
        } else {
            let mut out: Vec<char> = Vec::new();
            text::push_str(&mut out, "IKJ56500I COMMAND ");
            text::push_chars(&mut out, &v);
            text::push_str(&mut out, " NOT FOUND\r\n");
            Reply::Text(text::string_of(&out))
        }
    }
}

} // verus!
