//! Db2: a catalog of tables, a tiny SQL subset, SHOW and GRANT.
use vstd::prelude::*;
use crate::text;
use crate::wopr_core::session::{Environment, Reply, SessionCtx};
use crate::wopr_core::system::System;

verus! {

pub struct Db2 {
    /// (name, creator)
    tables: Vec<(String, String)>,
    /// (grantee, table)
    grants: Vec<(String, String)>,
}

pub open spec fn pair_views(p: Seq<(String, String)>) -> Seq<(Seq<char>, Seq<char>)> {
    p.map_values(|x: (String, String)| (x.0@, x.1@))
}

/// The catalog tables every Db2 starts with: (name, creator).
pub open spec fn initial_tables() -> Seq<(Seq<char>, Seq<char>)> {
    seq![
        ("SYSTABLES"@, "SYSIBM"@),
        ("SYSCOLUMNS"@, "SYSIBM"@),
        ("ACCOUNT"@, "IBMUSER"@),
        ("CUSTOMER"@, "IBMUSER"@),
    ]
}

/// `NAME        CREATOR` rows of SYSIBM.SYSTABLES.
pub open spec fn table_rows(t: Seq<(Seq<char>, Seq<char>)>) -> Seq<char>
    decreases t.len(),
{
    if t.len() == 0 {
        seq![]
    } else {
        table_rows(t.drop_last()) + text::pad_right(t.last().0, 11) + " "@ + t.last().1 + "\r\n"@
    }
}

/// The reply to a SQL statement: only SELECT is supported; a SELECT that names
/// SYSIBM.SYSTABLES lists the catalog, any other SELECT finds no rows.
pub open spec fn run_sql_spec(t: Seq<(Seq<char>, Seq<char>)>, sql: Seq<char>) -> Seq<char> {
    let up = text::upper(text::trim(sql));
    if text::starts_with(up, "SELECT"@) && text::contains(up, "SYSIBM.SYSTABLES"@) {
        "NAME        CREATOR\r\n"@ + table_rows(t) + "DSNE610I NUMBER OF ROWS DISPLAYED IS "@
            + text::dec(t.len()) + "\r\n"@
    } else if text::starts_with(up, "SELECT"@) {
        "DSNE610I NUMBER OF ROWS DISPLAYED IS 0\r\n"@
    } else {
        "DSNE104I ONLY SELECT IS SUPPORTED IN THIS SIM\r\n"@
    }
}

/// `CREATOR.NAME` lines for SHOW TABLES.
pub open spec fn qualified_names(t: Seq<(Seq<char>, Seq<char>)>) -> Seq<char>
    decreases t.len(),
{
    if t.len() == 0 {
        seq![]
    } else {
        qualified_names(t.drop_last()) + t.last().1 + "."@ + t.last().0 + "\r\n"@
    }
}

/// `GRANT SELECT ON table TO user` lines for SHOW PRIVS.
pub open spec fn grant_lines(g: Seq<(Seq<char>, Seq<char>)>) -> Seq<char>
    decreases g.len(),
{
    if g.len() == 0 {
        seq![]
    } else {
        grant_lines(g.drop_last()) + "GRANT SELECT ON "@ + g.last().1 + " TO "@ + g.last().0
            + "\r\n"@
    }
}

/// The reply to SHOW `what`.
pub open spec fn show_spec(
    t: Seq<(Seq<char>, Seq<char>)>,
    g: Seq<(Seq<char>, Seq<char>)>,
    what: Seq<char>,
) -> Seq<char> {
    let w = text::upper(what);
    if w == "TABLES"@ || w == "DBS"@ {
        qualified_names(t)
    } else if w == "PRIVS"@ {
        if g.len() == 0 {
            "NO GRANTS\r\n"@
        } else {
            grant_lines(g)
        }
    } else {
        "DSNE104I SHOW "@ + w + " NOT RECOGNIZED\r\n"@
    }
}

/// What a Db2 line does: the reply, and the grants afterwards.
pub open spec fn db2_line(
    t: Seq<(Seq<char>, Seq<char>)>,
    g: Seq<(Seq<char>, Seq<char>)>,
    line: Seq<char>,
) -> (LineReply, Seq<(Seq<char>, Seq<char>)>) {
    let l = text::trim(line);
    let up = text::upper(l);
    if up.len() == 0 {
        (LineReply::Text(seq![]), g)
    } else if text::starts_with(up, "RUN SQL "@) {
        (LineReply::Text(run_sql_spec(t, l.skip(8))), g)
    } else if text::starts_with(up, "SHOW "@) {
        (LineReply::Text(show_spec(t, g, text::trim(up.skip(5)))), g)
    } else if text::starts_with(up, "GRANT SELECT ON "@) {
        let w = text::words(up.skip(16));
        if w.len() >= 3 {
            (LineReply::Text("DSNE616I GRANT COMPLETE\r\n"@), g.push((w[2], w[0])))
        } else {
            (LineReply::Text("DSNE104I USAGE: GRANT SELECT ON <TABLE> TO <USER>\r\n"@), g)
        }
    } else if text::starts_with(up, "SELECT"@) {
        (LineReply::Text(run_sql_spec(t, l)), g)
    } else if up == "EXIT"@ || up == "END"@ {
        (LineReply::Disconnect, g)
    } else {
        (LineReply::Text("DSNE104I "@ + l + " NOT RECOGNIZED\r\n"@), g)
    }
}

/// `RUN SQL <statement>` is answered as `run_sql` answers the statement, and
/// for a SELECT written alone on a line just as that line is answered.
pub proof fn lemma_run_sql_prefix(
    t: Seq<(Seq<char>, Seq<char>)>,
    g: Seq<(Seq<char>, Seq<char>)>,
    line: Seq<char>,
    stmt: Seq<char>,
)
    requires
        text::trim(line) == "RUN SQL "@ + stmt,
    ensures
        db2_line(t, g, line) == (LineReply::Text(run_sql_spec(t, stmt)), g),
        text::trim(stmt) == stmt && text::starts_with(text::upper(stmt), "SELECT"@) ==> db2_line(
            t,
            g,
            stmt,
        ) == db2_line(t, g, line),
{
    reveal_strlit("RUN SQL ");
    reveal_strlit("SHOW ");
    reveal_strlit("GRANT SELECT ON ");
    reveal_strlit("SELECT");
    let l = text::trim(line);
    let up = text::upper(l);
    assert(up.take(8) =~= "RUN SQL "@);
    assert(l.skip(8) =~= stmt);
    assert(up.len() > 0);
    if text::trim(stmt) == stmt && text::starts_with(text::upper(stmt), "SELECT"@) {
        let u2 = text::upper(stmt);
        assert(u2.take(6) == "SELECT"@);
        assert(u2[0] == u2.take(6)[0] && u2[1] == u2.take(6)[1]);
        assert(u2[0] == 'S' && u2[1] == 'E');
        assert(!text::starts_with(u2, "RUN SQL "@)) by {
            if text::starts_with(u2, "RUN SQL "@) {
                assert(u2.take(8)[0] == 'R');
            }
        }
        assert(!text::starts_with(u2, "SHOW "@)) by {
            if text::starts_with(u2, "SHOW "@) {
                assert(u2.take(5)[1] == 'H');
            }
        }
        assert(!text::starts_with(u2, "GRANT SELECT ON "@)) by {
            if text::starts_with(u2, "GRANT SELECT ON "@) {
                assert(u2.take(16)[0] == 'G');
            }
        }
    }
}

/// A reply of an environment that never switches.
pub enum LineReply {
    Text(Seq<char>),
    Disconnect,
}

pub open spec fn reply_is(r: Reply, s: LineReply) -> bool {
    match (r, s) {
        (Reply::Text(a), LineReply::Text(b)) => a@ == b,
        (Reply::Disconnect, LineReply::Disconnect) => true,
        _ => false,
    }
}

impl Db2 {
    pub closed spec fn tables(&self) -> Seq<(Seq<char>, Seq<char>)> {
        pair_views(self.tables@)
    }

    pub closed spec fn grants(&self) -> Seq<(Seq<char>, Seq<char>)> {
        pair_views(self.grants@)
    }

    pub fn new() -> (d: Self)
        ensures
            d.tables() == initial_tables(),
            d.grants() == Seq::<(Seq<char>, Seq<char>)>::empty(),
    {
        let mut tables: Vec<(String, String)> = Vec::new();
        tables.push((String::from_str("SYSTABLES"), String::from_str("SYSIBM")));
        tables.push((String::from_str("SYSCOLUMNS"), String::from_str("SYSIBM")));
        tables.push((String::from_str("ACCOUNT"), String::from_str("IBMUSER")));
        tables.push((String::from_str("CUSTOMER"), String::from_str("IBMUSER")));
        let d = Db2 { tables, grants: Vec::new() };
        assert(d.tables() =~= initial_tables());
        assert(d.grants() =~= Seq::<(Seq<char>, Seq<char>)>::empty());
        d
    }

    /// A tiny SQL subset: SELECT ... FROM SYSIBM.SYSTABLES lists the catalog;
    /// only SELECT is supported.
    pub fn run_sql(&self, sql: &str) -> (r: String)
        ensures
            r@ == run_sql_spec(self.tables(), sql@),
    {
        let t = text::trim_str(sql);
        let up = text::upper_vec(&t);
        let mut out: Vec<char> = Vec::new();
        let select = text::starts_with_str(&up, "SELECT");
        if select && text::contains_str(&up, "SYSIBM.SYSTABLES") {
            text::push_str(&mut out, "NAME        CREATOR\r\n");
            let ghost head = out@;
            let mut i: usize = 0;
            while i < self.tables.len()
                invariant
                    i <= self.tables@.len(),
                    out@ == head + table_rows(pair_views(self.tables@).take(i as int)),
                decreases self.tables.len() - i,
            {
                let n = text::chars_of(self.tables[i].0.as_str());
                let n = text::pad_right_vec(&n, 11);
                text::push_chars(&mut out, &n);
                text::push_str(&mut out, " ");
                text::push_str(&mut out, self.tables[i].1.as_str());
                text::push_str(&mut out, "\r\n");
                assert(pair_views(self.tables@).take(i + 1).drop_last() =~= pair_views(
                    self.tables@,
                ).take(i as int));
                i += 1;
            }
            assert(pair_views(self.tables@).take(self.tables@.len() as int) =~= pair_views(
                self.tables@,
            ));
            text::push_str(&mut out, "DSNE610I NUMBER OF ROWS DISPLAYED IS ");
            let n = text::fmt_dec(self.tables.len() as u64);
            text::push_chars(&mut out, &n);
            text::push_str(&mut out, "\r\n");
        } else if select {
            text::push_str(&mut out, "DSNE610I NUMBER OF ROWS DISPLAYED IS 0\r\n");
        } else {
            text::push_str(&mut out, "DSNE104I ONLY SELECT IS SUPPORTED IN THIS SIM\r\n");
        }
        text::string_of(&out)
    }

    fn show(&self, what: &Vec<char>) -> (r: Vec<char>)
        ensures
            r@ == show_spec(self.tables(), self.grants(), what@),
    {
        let w = text::upper_vec(what);
        let mut out: Vec<char> = Vec::new();
        if text::eq_str(&w, "TABLES") || text::eq_str(&w, "DBS") {
            let mut i: usize = 0;
            while i < self.tables.len()
                invariant
                    i <= self.tables@.len(),
                    out@ == qualified_names(pair_views(self.tables@).take(i as int)),
                decreases self.tables.len() - i,
            {
                text::push_str(&mut out, self.tables[i].1.as_str());
                text::push_str(&mut out, ".");
                text::push_str(&mut out, self.tables[i].0.as_str());
                text::push_str(&mut out, "\r\n");
                assert(pair_views(self.tables@).take(i + 1).drop_last() =~= pair_views(
                    self.tables@,
                ).take(i as int));
                i += 1;
            }
            assert(pair_views(self.tables@).take(self.tables@.len() as int) =~= pair_views(
                self.tables@,
            ));
        } else if text::eq_str(&w, "PRIVS") {
            if self.grants.len() == 0 {
                text::push_str(&mut out, "NO GRANTS\r\n");
            } else {
                let mut i: usize = 0;
                while i < self.grants.len()
                    invariant
                        i <= self.grants@.len(),
                        out@ == grant_lines(pair_views(self.grants@).take(i as int)),
                    decreases self.grants.len() - i,
                {
                    text::push_str(&mut out, "GRANT SELECT ON ");
                    text::push_str(&mut out, self.grants[i].1.as_str());
                    text::push_str(&mut out, " TO ");
                    text::push_str(&mut out, self.grants[i].0.as_str());
                    text::push_str(&mut out, "\r\n");
                    assert(pair_views(self.grants@).take(i + 1).drop_last() =~= pair_views(
                        self.grants@,
                    ).take(i as int));
                    i += 1;
                }
                assert(pair_views(self.grants@).take(self.grants@.len() as int) =~= pair_views(
                    self.grants@,
                ));
            }
        } else {
            text::push_str(&mut out, "DSNE104I SHOW ");
            text::push_chars(&mut out, &w);
            text::push_str(&mut out, " NOT RECOGNIZED\r\n");
        }
        out
    }
}

/// One Db2 line: the reply as `db2_line` gives it, the grants it leaves, and
/// nothing else changed.
pub open spec fn db2_step(
    a: Db2,
    b: Db2,
    line: Seq<char>,
    s0: System,
    s1: System,
    c0: SessionCtx,
    c1: SessionCtx,
    r: Reply,
) -> bool {
    &&& reply_is(r, db2_line(a.tables(), a.grants(), line).0)
    &&& b.tables() == a.tables()
    &&& b.grants() == db2_line(a.tables(), a.grants(), line).1
    &&& s1 == s0
    &&& c1 == c0
}

impl Environment for Db2 {
    open spec fn can_take(&self, line: Seq<char>, sys: System) -> bool {
        true
    }

    fn prompt(&self) -> (p: &'static str)
        ensures
            p@ == "DSN "@,
    {
        "DSN "
    }

    fn on_line(&mut self, line: &str, sys: &mut System, ctx: &mut SessionCtx) -> (r: Reply)
        ensures
            db2_step(*old(self), *final(self), line@, *old(sys), *final(sys), *old(ctx), *final(ctx), r),
    {
        let l = text::trim_str(line);
        let up = text::upper_vec(&l);
        let mut out: Vec<char> = Vec::new();
        if up.len() == 0 {
            return Reply::Text(String::new());
        } else if text::starts_with_str(&up, "RUN SQL ") {
            proof {
                reveal_strlit("RUN SQL ");
            }
            let rest = text::slice(&l, 8, l.len());
            let rs = text::string_of(&rest);
            return Reply::Text(self.run_sql(rs.as_str()));
        } else if text::starts_with_str(&up, "SHOW ") {
            proof {
                reveal_strlit("SHOW ");
            }
            let rest = text::slice(&up, 5, up.len());
            let w = text::trim_vec(&rest);
            let s = self.show(&w);
            return Reply::Text(text::string_of(&s));
        } else if text::starts_with_str(&up, "GRANT SELECT ON ") {
            proof {
                reveal_strlit("GRANT SELECT ON ");
            }
            let rest = text::slice(&up, 16, up.len());
            let w = text::words_vec(&rest);
            if w.len() >= 3 {
                let user = text::string_of(&w[2]);
                let tbl = text::string_of(&w[0]);
                let ghost before = self.grants@;
                self.grants.push((user, tbl));
                assert(pair_views(self.grants@) =~= pair_views(before).push((w@[2]@, w@[0]@)));
                text::push_str(&mut out, "DSNE616I GRANT COMPLETE\r\n");
            } else {
                text::push_str(&mut out, "DSNE104I USAGE: GRANT SELECT ON <TABLE> TO <USER>\r\n");
            }
        } else if text::starts_with_str(&up, "SELECT") {
            let ls = text::string_of(&l);
            return Reply::Text(self.run_sql(ls.as_str()));
        } else if text::eq_str(&up, "EXIT") || text::eq_str(&up, "END") {
            return Reply::Disconnect;
        } else {
            text::push_str(&mut out, "DSNE104I ");
            text::push_chars(&mut out, &l);
            text::push_str(&mut out, " NOT RECOGNIZED\r\n");
        }
        Reply::Text(text::string_of(&out))
    }
}

} // verus!
