//! RACF: users, their groups and attributes, and logon verification.
use vstd::prelude::*;
use crate::table::StrMap;
use crate::text;

verus! {

/// User attributes: SPECIAL / OPERATIONS / AUDITOR (all clear means NONE).
#[derive(Clone, Copy, PartialEq, Eq, Structural, Debug)]
pub struct Attrs {
    pub special: bool,
    pub operations: bool,
    pub auditor: bool,
}

impl Default for Attrs {
    fn default() -> (r: Self)
        ensures
            r == (Attrs { special: false, operations: false, auditor: false }),
    {
        Attrs { special: false, operations: false, auditor: false }
    }
}

pub struct User {
    pub userid: String,
    /// Stored in the clear on purpose: this is a training simulator.
    pub password: String,
    pub default_group: String,
    pub groups: Vec<String>,
    pub attrs: Attrs,
    pub revoked: bool,
}

/// What a user record holds, as plain values.
pub struct UserView {
    pub userid: Seq<char>,
    pub password: Seq<char>,
    pub default_group: Seq<char>,
    pub groups: Seq<Seq<char>>,
    pub attrs: Attrs,
    pub revoked: bool,
}

impl View for User {
    type V = UserView;

    open spec fn view(&self) -> UserView {
        UserView {
            userid: self.userid@,
            password: self.password@,
            default_group: self.default_group@,
            groups: self.groups@.map_values(|g: String| g@),
            attrs: self.attrs,
            revoked: self.revoked,
        }
    }
}

impl Clone for User {
    fn clone(&self) -> (r: Self)
        ensures
            r@ == self@,
    {
        let groups = self.groups.clone();
        assert(groups@.map_values(|g: String| g@) =~= self.groups@.map_values(|g: String| g@)) by {
            assert forall|i: int| 0 <= i < groups@.len() implies groups@[i]@ == self.groups@[i]@ by {
                assert(vstd::pervasive::cloned(self.groups@[i], groups@[i]));
            }
        }
        User {
            userid: self.userid.clone(),
            password: self.password.clone(),
            default_group: self.default_group.clone(),
            groups,
            attrs: self.attrs,
            revoked: self.revoked,
        }
    }
}

pub open spec fn profile_line_spec(u: UserView) -> Seq<char> {
    "IKJ56455I "@ + u.userid + " LOGON IN PROGRESS\r\n DEFAULT-GROUP="@ + u.default_group
        + "\r\n"@
}

impl User {
    /// The TSO PROFILE reply.
    pub fn profile_line(&self) -> (r: String)
        ensures
            r@ == profile_line_spec(self@),
    {
        let mut v: Vec<char> = Vec::new();
        text::push_str(&mut v, "IKJ56455I ");
        text::push_str(&mut v, self.userid.as_str());
        text::push_str(&mut v, " LOGON IN PROGRESS\r\n DEFAULT-GROUP=");
        text::push_str(&mut v, self.default_group.as_str());
        text::push_str(&mut v, "\r\n");
        text::string_of(&v)
    }
}

/// The outcome of a logon attempt.
pub enum Logon {
    Accepted(User),
    BadPassword,
    NoUser,
    Revoked,
}

pub struct Racf {
    pub users: StrMap<User>,
}

/// The user record that `seed_defaults` installs under `id`.
pub open spec fn seeded_user(
    id: Seq<char>,
    password: Seq<char>,
    group: Seq<char>,
    attrs: Attrs,
) -> UserView {
    UserView {
        userid: id,
        password,
        default_group: group,
        groups: seq![group],
        attrs,
        revoked: false,
    }
}

/// The outcome that `verify` gives for `userid`, `pw` over the users `m`: the
/// userid is looked up upper-cased.
pub open spec fn verify_spec(m: Map<Seq<char>, User>, userid: Seq<char>, pw: Seq<char>) -> Logon {
    let key = text::upper(userid);
    if !m.contains_key(key) {
        Logon::NoUser
    } else if m[key].revoked {
        Logon::Revoked
    } else if m[key].password@ == pw {
        Logon::Accepted(m[key])
    } else {
        Logon::BadPassword
    }
}

/// `a` and `b` are the same outcome, user records compared by value.
pub open spec fn same_logon(a: Logon, b: Logon) -> bool {
    match (a, b) {
        (Logon::Accepted(u), Logon::Accepted(v)) => u@ == v@,
        (Logon::BadPassword, Logon::BadPassword) => true,
        (Logon::NoUser, Logon::NoUser) => true,
        (Logon::Revoked, Logon::Revoked) => true,
        _ => false,
    }
}

fn make_user(id: &str, password: &str, group: &str, attrs: Attrs) -> (u: User)
    ensures
        u@ == seeded_user(id@, password@, group@, attrs),
{
    let mut groups: Vec<String> = Vec::new();
    groups.push(String::from_str(group));
    let u = User {
        userid: String::from_str(id),
        password: String::from_str(password),
        default_group: String::from_str(group),
        groups,
        attrs,
        revoked: false,
    };
    assert(u@.groups =~= seq![group@]);
    u
}

impl Racf {
    pub fn new() -> (r: Self)
        ensures
            r.users@ == Map::<Seq<char>, User>::empty(),
    {
        Racf { users: StrMap::new() }
    }

    /// IBMUSER/SYS1 with SPECIAL, and GUEST/GUEST with no attributes.
    pub fn seed_defaults() -> (r: Self)
        ensures
            r.users@.dom() == set!["IBMUSER"@, "GUEST"@],
            r.users@["IBMUSER"@]@ == seeded_user(
                "IBMUSER"@,
                "SYS1"@,
                "SYS1"@,
                Attrs { special: true, operations: false, auditor: false },
            ),
            r.users@["GUEST"@]@ == seeded_user(
                "GUEST"@,
                "GUEST"@,
                "PUBLIC"@,
                Attrs { special: false, operations: false, auditor: false },
            ),
    {
        proof {
            reveal_strlit("IBMUSER");
            reveal_strlit("GUEST");
            assert("IBMUSER"@.len() != "GUEST"@.len());
        }
        let mut r = Racf::new();
        r.add(make_user("IBMUSER", "SYS1", "SYS1", Attrs { special: true, operations: false, auditor: false }));
        r.add(make_user("GUEST", "GUEST", "PUBLIC", Attrs::default()));
        proof {
            reveal_strlit("IBMUSER");
            reveal_strlit("GUEST");
        }
        assert(r.users@.dom() =~= set!["IBMUSER"@, "GUEST"@]);
        r
    }

    fn add(&mut self, u: User)
        ensures
            final(self).users@ == old(self).users@.insert(u.userid@, u),
    {
        let id = u.userid.clone();
        self.users.insert(id, u);
    }

    /// Check a logon: unknown user, revoked, wrong password, or the user's record.
    pub fn verify(&self, userid: &str, pw: &str) -> (r: Logon)
        ensures
            same_logon(r, verify_spec(self.users@, userid@, pw@)),
    {
        let id = text::chars_of(userid);
        let key = text::upper_vec(&id);
        match self.users.get(&key) {
            None => Logon::NoUser,
            Some(u) => {
                if u.revoked {
                    Logon::Revoked
                } else {
                    let p = text::chars_of(u.password.as_str());
                    let q = text::chars_of(pw);
                    if text::eq_chars(&p, &q) {
                        Logon::Accepted(u.clone())
                    } else {
                        Logon::BadPassword
                    }
                }
            },
        }
    }
}

} // verus!
