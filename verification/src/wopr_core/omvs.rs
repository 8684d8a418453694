//! OMVS: a small z/OS UNIX shell with the UID/GID mapped from RACF.
use vstd::prelude::*;
use crate::table::StrMap;
use crate::text;
use crate::wopr_core::racf::{User, UserView};
use crate::wopr_core::session::{Env, Environment, Reply, SessionCtx};
use crate::wopr_core::system::System;
use crate::wopr_core::tso::Tso;

verus! {

pub struct Omvs {
    user: User,
    cwd: String,
    uid: u32,
    gid: u32,
    /// directory -> entries
    fs: StrMap<Vec<String>>,
}

/// Sum of the bytes.
pub open spec fn byte_sum(b: Seq<u8>) -> nat
    decreases b.len(),
{
    if b.len() == 0 {
        0
    } else {
        byte_sum(b.drop_last()) + b.last() as nat
    }
}

/// The UID of a userid: 0 for IBMUSER, otherwise 100 plus the sum of its UTF-8
/// bytes modulo 900.
pub open spec fn uid_spec(userid: Seq<char>) -> u32 {
    if text::eq_ignore_case(userid, "IBMUSER"@) {
        0
    } else {
        (100 + byte_sum(vstd::utf8::encode_utf8(userid)) % 900) as u32
    }
}

/// Whether the UID of a userid can be computed: the byte sum fits in 32 bits.
pub open spec fn uid_computable(userid: Seq<char>) -> bool {
    text::eq_ignore_case(userid, "IBMUSER"@) || byte_sum(vstd::utf8::encode_utf8(userid))
        <= u32::MAX
}

proof fn lemma_byte_sum_prefix(b: Seq<u8>, i: int)
    requires
        0 <= i <= b.len(),
    ensures
        byte_sum(b.take(i)) <= byte_sum(b),
    decreases b.len() - i,
{
    if i < b.len() {
        lemma_byte_sum_prefix(b, i + 1);
        assert(b.take(i + 1).drop_last() =~= b.take(i));
    } else {
        assert(b.take(i) =~= b);
    }
}

/// Whether the UID of `userid` can be computed.
pub fn uid_computable_now(userid: &str) -> (r: bool)
    ensures
        r == uid_computable(userid@),
{
    let v = text::chars_of(userid);
    let ib = text::chars_of("IBMUSER");
    if text::eq_ignore_case_vec(&v, &ib) {
        return true;
    }
    assert(!text::eq_ignore_case(userid@, "IBMUSER"@));
    let b = userid.as_bytes();
    let mut sum: u64 = 0;
    let mut i: usize = 0;
    while i < b.len()
        invariant
            i <= b@.len(),
            !text::eq_ignore_case(userid@, "IBMUSER"@),
            b@ == vstd::utf8::encode_utf8(userid@),
            sum == byte_sum(b@.take(i as int)),
            sum <= u32::MAX,
        decreases b.len() - i,
    {
        proof {
            assert(b@.take(i + 1).drop_last() =~= b@.take(i as int));
        }
        sum = sum + b[i] as u64;
        assert(sum == byte_sum(b@.take(i + 1)));
        if sum > u32::MAX as u64 {
            proof {
                lemma_byte_sum_prefix(b@, i + 1);
            }
            return false;
        }
        i += 1;
    }
    assert(b@.take(b@.len() as int) =~= b@);
    true
}

fn uid_for(userid: &str) -> (u: u32)
    requires
        uid_computable(userid@),
    ensures
        u == uid_spec(userid@),
{
    let v = text::chars_of(userid);
    let ib = text::chars_of("IBMUSER");
    if text::eq_ignore_case_vec(&v, &ib) {
        return 0;
    }
    let b = userid.as_bytes();
    let mut sum: u32 = 0;
    let mut i: usize = 0;
    while i < b.len()
        invariant
            i <= b@.len(),
            b@ == vstd::utf8::encode_utf8(userid@),
            byte_sum(b@) <= u32::MAX,
            sum == byte_sum(b@.take(i as int)),
        decreases b.len() - i,
    {
        proof {
            assert(b@.take(i + 1).drop_last() =~= b@.take(i as int));
            lemma_byte_sum_prefix(b@, i + 1);
        }
        sum = sum + b[i] as u32;
        i += 1;
    }
    assert(b@.take(b@.len() as int) =~= b@);
    100 + sum % 900
}

pub open spec fn names_view(v: Seq<String>) -> Seq<Seq<char>> {
    v.map_values(|s: String| s@)
}

/// The file system of a new shell for a user whose lower-cased id is `l`.
pub open spec fn initial_fs(l: Seq<char>) -> Map<Seq<char>, Seq<Seq<char>>> {
    Map::<Seq<char>, Seq<Seq<char>>>::empty().insert("/"@, seq!["u"@, "bin"@, "etc"@]).insert(
        "/u"@,
        seq![l],
    ).insert("/u/"@ + l, seq!["readme.txt"@, "hello.sh"@])
}

/// `o` is a new shell for user `u`: home directory `/u/<userid>`, UID from the
/// userid, GID 1.
pub open spec fn fresh(o: Omvs, u: UserView) -> bool {
    let l = text::lower(u.userid);
    &&& o.user()@ == u
    &&& o.cwd() == "/u/"@ + l
    &&& o.uid() == uid_spec(u.userid)
    &&& o.gid() == 1
    &&& o.fs() == initial_fs(l)
}

/// The last index of `c` in `s`.
pub open spec fn last_index(s: Seq<char>, c: char) -> Option<int> {
    let t = text::trail(s, text::CharClass::IsNot(c));
    if t >= s.len() {
        None
    } else {
        Some(s.len() - t - 1)
    }
}

/// The parent directory of `path`.
pub open spec fn parent_spec(path: Seq<char>) -> Seq<char> {
    match last_index(text::trim_end_char(path, '/'), '/') {
        None => "/"@,
        Some(i) => if i == 0 {
            "/"@
        } else {
            path.take(i)
        },
    }
}

/// The directory that `cd target` from `cwd` names.
pub open spec fn cd_target(cwd: Seq<char>, target: Seq<char>) -> Seq<char> {
    if text::starts_with(target, "/"@) {
        target
    } else if target == ".."@ {
        parent_spec(cwd)
    } else {
        text::trim_end_char(cwd, '/') + "/"@ + target
    }
}

/// What a shell command line does: the directory afterwards and the output.
pub open spec fn run_spec(
    cwd: Seq<char>,
    fs: Map<Seq<char>, Seq<Seq<char>>>,
    uid: u32,
    gid: u32,
    userid: Seq<char>,
    line: Seq<char>,
) -> (Seq<char>, Seq<char>) {
    let w = text::words(line);
    let cmd = if w.len() > 0 { w[0] } else { seq![] };
    if cmd.len() == 0 {
        (cwd, seq![])
    } else if cmd == "pwd"@ {
        (cwd, cwd + "\r\n"@)
    } else if cmd == "id"@ {
        (
            cwd,
            "uid="@ + text::dec(uid as nat) + "("@ + text::lower(userid) + ") gid="@ + text::dec(
                gid as nat,
            ) + "(GROUP)\r\n"@,
        )
    } else if cmd == "whoami"@ {
        (cwd, text::lower(userid) + "\r\n"@)
    } else if cmd == "ls"@ {
        (
            cwd,
            if fs.contains_key(cwd) {
                text::join(fs[cwd], "  "@) + "\r\n"@
            } else {
                "\r\n"@
            },
        )
    } else if cmd == "cd"@ {
        let target = if w.len() > 1 { w[1] } else { "/"@ };
        let next = cd_target(cwd, target);
        if fs.contains_key(next) {
            (next, seq![])
        } else {
            (cwd, "cd: "@ + target + ": No such directory\r\n"@)
        }
    } else if cmd == "cat"@ {
        (
            cwd,
            if w.len() > 1 {
                "(contents of "@ + w[1] + ")\r\n"@
            } else {
                "cat: missing operand\r\n"@
            },
        )
    } else if cmd == "echo"@ {
        (cwd, text::join(w.skip(1), " "@) + "\r\n"@)
    } else {
        (cwd, cmd + ": command not found\r\n"@)
    }
}

/// The working directory is always a directory of the shell's file system: a
/// new shell starts in its home, which is one, and no command line moves it
/// anywhere else (`cd` to a missing directory leaves it where it was).
pub proof fn lemma_cwd_is_a_directory(
    l: Seq<char>,
    cwd: Seq<char>,
    fs: Map<Seq<char>, Seq<Seq<char>>>,
    uid: u32,
    gid: u32,
    userid: Seq<char>,
    line: Seq<char>,
)
    ensures
        initial_fs(l).contains_key("/u/"@ + l),
        fs.contains_key(cwd) ==> fs.contains_key(run_spec(cwd, fs, uid, gid, userid, line).0),
{
}

/// `cd` with a relative name (not absolute, not `..`) moves into that entry of
/// the working directory: the path is the working directory without its
/// trailing slashes, a slash, and the name.  It succeeds with an empty reply
/// exactly when that path is a directory; otherwise the working directory stays
/// and the reply says there is no such directory.
pub proof fn lemma_cd_relative(
    cwd: Seq<char>,
    fs: Map<Seq<char>, Seq<Seq<char>>>,
    uid: u32,
    gid: u32,
    userid: Seq<char>,
    line: Seq<char>,
    t: Seq<char>,
)
    requires
        text::words(line) == seq!["cd"@, t],
        !text::starts_with(t, "/"@),
        t != ".."@,
    ensures
        ({
            let next = text::trim_end_char(cwd, '/') + "/"@ + t;
            let (c, out) = run_spec(cwd, fs, uid, gid, userid, line);
            &&& fs.contains_key(next) ==> c == next && out == Seq::<char>::empty()
            &&& !fs.contains_key(next) ==> c == cwd && out == "cd: "@ + t
                + ": No such directory\r\n"@
        }),
{
    reveal_strlit("cd");
    reveal_strlit("pwd");
    reveal_strlit("id");
    reveal_strlit("whoami");
    reveal_strlit("ls");
    assert("cd"@ != "pwd"@ && "cd"@ != "id"@ && "cd"@ != "whoami"@ && "cd"@ != "ls"@) by {
        assert("cd"@.len() != "pwd"@.len());
        assert("cd"@[0] != "id"@[0]);
        assert("cd"@.len() != "whoami"@.len());
        assert("cd"@[0] != "ls"@[0]);
    }
}

/// A new shell that has gone up to `/u` gets back home with `cd` and the
/// lower-cased userid, an entry of `/u`.
pub proof fn lemma_cd_home_from_u(o: Omvs, u: UserView, line: Seq<char>)
    requires
        fresh(o, u),
        text::words(line) == seq!["cd"@, text::lower(u.userid)],
        !text::starts_with(text::lower(u.userid), "/"@),
        text::lower(u.userid) != ".."@,
    ensures
        run_spec("/u"@, o.fs(), o.uid(), o.gid(), u.userid, line) == (
            "/u/"@ + text::lower(u.userid),
            Seq::<char>::empty(),
        ),
{
    let l = text::lower(u.userid);
    reveal_strlit("/u");
    reveal_strlit("/u/");
    reveal_strlit("/");
    assert(text::trail("/u"@, text::CharClass::Is('/')) == 0);
    assert(text::trim_end_char("/u"@, '/') =~= "/u"@);
    assert("/u"@ + "/"@ + l =~= "/u/"@ + l);
    lemma_cd_relative("/u"@, o.fs(), o.uid(), o.gid(), u.userid, line, l);
}

/// The working directory after running `lines` in turn from `cwd`.
pub open spec fn cwd_after(
    cwd: Seq<char>,
    fs: Map<Seq<char>, Seq<Seq<char>>>,
    uid: u32,
    gid: u32,
    userid: Seq<char>,
    lines: Seq<Seq<char>>,
) -> Seq<char>
    decreases lines.len(),
{
    if lines.len() == 0 {
        cwd
    } else {
        run_spec(cwd_after(cwd, fs, uid, gid, userid, lines.drop_last()), fs, uid, gid, userid, lines.last()).0
    }
}

proof fn lemma_cwd_after_in_fs(
    cwd: Seq<char>,
    fs: Map<Seq<char>, Seq<Seq<char>>>,
    uid: u32,
    gid: u32,
    userid: Seq<char>,
    lines: Seq<Seq<char>>,
)
    requires
        fs.contains_key(cwd),
    ensures
        fs.contains_key(cwd_after(cwd, fs, uid, gid, userid, lines)),
    decreases lines.len(),
{
    if lines.len() > 0 {
        lemma_cwd_after_in_fs(cwd, fs, uid, gid, userid, lines.drop_last());
        let c = cwd_after(cwd, fs, uid, gid, userid, lines.drop_last());
        lemma_cwd_is_a_directory(seq![], c, fs, uid, gid, userid, lines.last());
    }
}

/// Over any sequence of command lines, a new shell's working directory is one
/// of `/`, `/u` and the user's home `/u/<userid in lower case>` (the shell's file
/// system never changes, see `Omvs::run`).
pub proof fn lemma_cwd_stays_home(o: Omvs, u: UserView, lines: Seq<Seq<char>>)
    requires
        fresh(o, u),
    ensures
        ({
            let c = cwd_after(o.cwd(), o.fs(), o.uid(), o.gid(), u.userid, lines);
            c == "/"@ || c == "/u"@ || c == "/u/"@ + text::lower(u.userid)
        }),
{
    let l = text::lower(u.userid);
    lemma_cwd_is_a_directory(l, o.cwd(), o.fs(), o.uid(), o.gid(), u.userid, seq![]);
    lemma_cwd_after_in_fs(o.cwd(), o.fs(), o.uid(), o.gid(), u.userid, lines);
}

/// One line in the shell: `exit` returns to TSO as the same user; anything else
/// runs as a shell command.
pub open spec fn omvs_step(
    a: Omvs,
    b: Omvs,
    line: Seq<char>,
    s0: System,
    s1: System,
    c0: SessionCtx,
    c1: SessionCtx,
    r: Reply,
) -> bool {
    let l = text::trim(line);
    &&& s1 == s0
    &&& c1 == c0
    &&& b.user()@ == a.user()@
    &&& b.uid() == a.uid()
    &&& b.gid() == a.gid()
    &&& b.fs() == a.fs()
    &&& if l == "exit"@ {
        &&& b.cwd() == a.cwd()
        &&& r matches Reply::Switch(Env::Tso(t)) && t.user()@ == a.user()@
    } else {
        let (cwd, out) = run_spec(a.cwd(), a.fs(), a.uid(), a.gid(), a.user()@.userid, l);
        &&& b.cwd() == cwd
        &&& r matches Reply::Text(t) && t@ == out
    }
}

fn name_list2(a: &str, b: &str) -> (r: Vec<String>)
    ensures
        names_view(r@) == seq![a@, b@],
{
    let mut r: Vec<String> = Vec::new();
    r.push(String::from_str(a));
    r.push(String::from_str(b));
    assert(names_view(r@) =~= seq![a@, b@]);
    r
}

fn name_list3(a: &str, b: &str, c: &str) -> (r: Vec<String>)
    ensures
        names_view(r@) == seq![a@, b@, c@],
{
    let mut r: Vec<String> = Vec::new();
    r.push(String::from_str(a));
    r.push(String::from_str(b));
    r.push(String::from_str(c));
    assert(names_view(r@) =~= seq![a@, b@, c@]);
    r
}

impl Omvs {
    pub closed spec fn user(&self) -> User {
        self.user
    }

    pub closed spec fn cwd(&self) -> Seq<char> {
        self.cwd@
    }

    pub closed spec fn uid(&self) -> u32 {
        self.uid
    }

    pub closed spec fn gid(&self) -> u32 {
        self.gid
    }

    pub closed spec fn fs(&self) -> Map<Seq<char>, Seq<Seq<char>>> {
        self.fs@.map_values(|v: Vec<String>| names_view(v@))
    }

    /// A shell's file system is the one it started with, and its working
    /// directory is one of that file system's directories.
    #[verifier::type_invariant]
    spec fn shell_inv(self) -> bool {
        &&& self.fs() == initial_fs(text::lower(self.user@.userid))
        &&& self.fs().contains_key(self.cwd())
    }

    /// The user's home directory, `/u/<userid in lower case>`.
    pub open spec fn home(&self) -> Seq<char> {
        "/u/"@ + text::lower(self.user()@.userid)
    }

    /// A shell for `user`, in its home directory.
    pub fn new(user: &User) -> (o: Self)
        requires
            uid_computable(user.userid@),
        ensures
            fresh(o, user@),
    {
        let idv = text::chars_of(user.userid.as_str());
        let l = text::lower_vec(&idv);
        let mut home: Vec<char> = Vec::new();
        text::push_str(&mut home, "/u/");
        text::push_chars(&mut home, &l);
        let mut fs: StrMap<Vec<String>> = StrMap::new();
        fs.insert(String::from_str("/"), name_list3("u", "bin", "etc"));
        let mut u_entries: Vec<String> = Vec::new();
        u_entries.push(text::string_of(&l));
        fs.insert(String::from_str("/u"), u_entries);
        fs.insert(text::string_of(&home), name_list2("readme.txt", "hello.sh"));
        let uc = user.clone();
        let cwd = text::string_of(&home);
        let uid = uid_for(user.userid.as_str());
        proof {
            assert(names_view(u_entries@) =~= seq![l@]);
            assert(fs@.map_values(|v: Vec<String>| names_view(v@)) =~= initial_fs(l@));
            assert(uc@.userid == user@.userid);
        }
        Omvs { user: uc, cwd, uid, gid: 1, fs }
    }

    fn parent(path: &Vec<char>) -> (r: Vec<char>)
        ensures
            r@ == parent_spec(path@),
    {
        let p = text::trim_end_char_vec(path, '/');
        proof {
            text::lemma_trail(path@, text::CharClass::Is('/'));
        }
        let j = text::scan_back(&p, 0, p.len(), &text::CharClass::IsNot('/'));
        assert(p@.subrange(0, p@.len() as int) =~= p@);
        if j == 0 {
            text::chars_of("/")
        } else {
            let i = j - 1;
            if i == 0 {
                text::chars_of("/")
            } else {
                proof {
                    text::lemma_trail(p@, text::CharClass::IsNot('/'));
                }
                text::slice(path, 0, i)
            }
        }
    }

    /// Run one shell command line.
    pub fn run(&mut self, line: &str) -> (r: String)
        ensures
            ({
                let (cwd, out) = run_spec(old(self).cwd(), old(self).fs(), old(self).uid(), old(self).gid(), old(self).user()@.userid, line@);
                &&& final(self).cwd() == cwd
                &&& r@ == out
            }),
            final(self).user()@ == old(self).user()@,
            final(self).uid() == old(self).uid(),
            final(self).gid() == old(self).gid(),
            final(self).fs() == old(self).fs(),
            final(self).cwd() == "/"@ || final(self).cwd() == "/u"@ || final(self).cwd()
                == final(self).home(),
    {
        proof {
            use_type_invariant(&*self);
        }
        let lv = text::chars_of(line);
        let w = text::words_vec(&lv);
        let ghost ws = text::words(line@);
        assert(w@.len() == ws.len());
        let cmd: Vec<char> = if w.len() > 0 {
            assert(w@[0]@ == ws[0]);
            w[0].clone()
        } else {
            Vec::new()
        };
        let mut out: Vec<char> = Vec::new();
        let cwd = text::chars_of(self.cwd.as_str());
        if cmd.len() == 0 {
        } else if text::eq_str(&cmd, "pwd") {
            text::push_chars(&mut out, &cwd);
            text::push_str(&mut out, "\r\n");
        } else if text::eq_str(&cmd, "id") {
            text::push_str(&mut out, "uid=");
            let u = text::fmt_dec(self.uid as u64);
            text::push_chars(&mut out, &u);
            text::push_str(&mut out, "(");
            let idv = text::chars_of(self.user.userid.as_str());
            let l = text::lower_vec(&idv);
            text::push_chars(&mut out, &l);
            text::push_str(&mut out, ") gid=");
            let g = text::fmt_dec(self.gid as u64);
            text::push_chars(&mut out, &g);
            text::push_str(&mut out, "(GROUP)\r\n");
        } else if text::eq_str(&cmd, "whoami") {
            let idv = text::chars_of(self.user.userid.as_str());
            let l = text::lower_vec(&idv);
            text::push_chars(&mut out, &l);
            text::push_str(&mut out, "\r\n");
        } else if text::eq_str(&cmd, "ls") {
            match self.fs.get(&cwd) {
                Some(entries) => {
                    let mut ev: Vec<Vec<char>> = Vec::new();
                    let mut i: usize = 0;
                    while i < entries.len()
                        invariant
                            i <= entries@.len(),
                            ev@.len() == i,
                            forall|k: int| 0 <= k < i ==> #[trigger] ev@[k]@ == entries@[k]@,
                        decreases entries.len() - i,
                    {
                        ev.push(text::chars_of(entries[i].as_str()));
                        i += 1;
                    }
                    assert(ev@.map_values(|x: Vec<char>| x@) =~= names_view(entries@));
                    let j = text::join_vec(&ev, "  ");
                    text::push_chars(&mut out, &j);
                    text::push_str(&mut out, "\r\n");
                },
                None => {
                    text::push_str(&mut out, "\r\n");
                },
            }
        } else if text::eq_str(&cmd, "cd") {
            let target: Vec<char> = if w.len() > 1 {
                assert(w@[1]@ == ws[1]);
                w[1].clone()
            } else {
                text::chars_of("/")
            };
            let next: Vec<char> = if text::starts_with_str(&target, "/") {
                target.clone()
            } else if text::eq_str(&target, "..") {
                Self::parent(&cwd)
            } else {
                let mut n = text::trim_end_char_vec(&cwd, '/');
                text::push_str(&mut n, "/");
                text::push_chars(&mut n, &target);
                n
            };
            if self.fs.contains_key(&next) {
                self.cwd = text::string_of(&next);
            } else {
                text::push_str(&mut out, "cd: ");
                text::push_chars(&mut out, &target);
                text::push_str(&mut out, ": No such directory\r\n");
            }
        } else if text::eq_str(&cmd, "cat") {
            if w.len() > 1 {
                assert(w@[1]@ == ws[1]);
                text::push_str(&mut out, "(contents of ");
                text::push_chars(&mut out, &w[1]);
                text::push_str(&mut out, ")\r\n");
            } else {
                text::push_str(&mut out, "cat: missing operand\r\n");
            }
        } else if text::eq_str(&cmd, "echo") {
            let mut rest: Vec<Vec<char>> = Vec::new();
            let mut i: usize = 1;
            while i < w.len()
                invariant
                    1 <= i <= w@.len() || (w@.len() == 0 && i == 1),
                    rest@.len() == i - 1,
                    forall|k: int| 0 <= k < i - 1 ==> #[trigger] rest@[k]@ == w@[k + 1]@,
                decreases w.len() - i,
            {
                rest.push(w[i].clone());
                i += 1;
            }
            assert(rest@.map_values(|x: Vec<char>| x@) =~= ws.skip(1));
            let j = text::join_vec(&rest, " ");
            text::push_chars(&mut out, &j);
            text::push_str(&mut out, "\r\n");
        } else {
            text::push_chars(&mut out, &cmd);
            text::push_str(&mut out, ": command not found\r\n");
        }
        proof {
            use_type_invariant(&*self);
        }
        text::string_of(&out)
    }
}

impl Environment for Omvs {
    open spec fn can_take(&self, line: Seq<char>, sys: System) -> bool {
        true
    }

    fn prompt(&self) -> (p: &'static str)
        ensures
            p@ == "$ "@,
    {
        "$ "
    }

    fn on_line(&mut self, line: &str, sys: &mut System, ctx: &mut SessionCtx) -> (r: Reply)
        ensures
            omvs_step(*old(self), *final(self), line@, *old(sys), *final(sys), *old(ctx), *final(ctx), r),
    {
        let l = text::trim_str(line);
        if text::eq_str(&l, "exit") {
            Reply::Switch(Env::Tso(Tso::new(self.user.clone())))
        } else {
            let ls = text::string_of(&l);
            Reply::Text(self.run(ls.as_str()))
        }
    }
}

} // verus!
