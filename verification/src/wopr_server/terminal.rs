//! A terminal connection: bytes in, lines out, and one session step per line.
use vstd::prelude::*;
use crate::text;
use crate::wopr_core::session::{self, Env, Reply, Session};
use crate::wopr_core::system::System;

verus! {

/// Assembling lines from the bytes of a line-mode terminal: LF ends a line, CR is
/// dropped, every other byte is kept.  A finished line is its text, trimmed.
pub open spec fn assemble(acc: Seq<u8>, data: Seq<u8>) -> (Seq<Seq<char>>, Seq<u8>)
    decreases data.len(),
{
    if data.len() == 0 {
        (seq![], acc)
    } else {
        let (ls, a) = assemble(acc, data.drop_last());
        let b = data.last();
        if b == 10 {
            (ls.push(text::trim(text::lossy_text(a))), seq![])
        } else if b != 13 {
            (ls, a.push(b))
        } else {
            (ls, a)
        }
    }
}

proof fn lemma_assemble_plain(acc: Seq<u8>, t: Seq<u8>)
    requires
        forall|i: int| 0 <= i < t.len() ==> #[trigger] t[i] != 10 && t[i] != 13,
    ensures
        assemble(acc, t) == (Seq::<Seq<char>>::empty(), acc + t),
    decreases t.len(),
{
    if t.len() == 0 {
        assert(acc + t =~= acc);
    } else {
        lemma_assemble_plain(acc, t.drop_last());
        assert((acc + t.drop_last()).push(t.last()) =~= acc + t);
    }
}

/// Bytes with no CR or LF, then CR LF, make one line: the pending bytes and
/// these, read as text and trimmed; nothing stays pending.
pub proof fn lemma_assemble_line(acc: Seq<u8>, t: Seq<u8>)
    requires
        forall|i: int| 0 <= i < t.len() ==> #[trigger] t[i] != 10 && t[i] != 13,
    ensures
        assemble(acc, t + seq![13u8, 10u8]) == (
            seq![text::trim(text::lossy_text(acc + t))],
            Seq::<u8>::empty(),
        ),
{
    let d = t + seq![13u8, 10u8];
    assert(d.drop_last() =~= t.push(13u8));
    assert(d.drop_last().drop_last() =~= t);
    lemma_assemble_plain(acc, t);
    assert(d.drop_last().last() == 13u8);
    assert(d.last() == 10u8);
    assert(assemble(acc, d.drop_last()) == (Seq::<Seq<char>>::empty(), acc + t));
    assert(Seq::<Seq<char>>::empty().push(text::trim(text::lossy_text(acc + t))) =~= seq![
        text::trim(text::lossy_text(acc + t)),
    ]);
}

pub struct LineAssembler {
    acc: Vec<u8>,
}

impl LineAssembler {
    /// The bytes of the line not yet ended.
    pub closed spec fn pending(&self) -> Seq<u8> {
        self.acc@
    }

    pub fn new() -> (a: Self)
        ensures
            a.pending() == Seq::<u8>::empty(),
    {
        LineAssembler { acc: Vec::new() }
    }

    /// Take in bytes; give back every line that they finish.
    pub fn feed(&mut self, data: &[u8]) -> (r: Vec<String>)
        ensures
            r@.map_values(|s: String| s@) == assemble(old(self).pending(), data@).0,
            final(self).pending() == assemble(old(self).pending(), data@).1,
    {
        let ghost acc0 = self.acc@;
        let mut out: Vec<String> = Vec::new();
        let mut i: usize = 0;
        while i < data.len()
            invariant
                i <= data@.len(),
                (out@.map_values(|s: String| s@), self.acc@) == assemble(acc0, data@.take(i as int)),
            decreases data.len() - i,
        {
            proof {
                assert(data@.take(i + 1).drop_last() =~= data@.take(i as int));
            }
            let b = data[i];
            let ghost before = out@;
            if b == 10 {
                let t = text::from_utf8_lossy(self.acc.as_slice());
                let tv = text::trim_str(t.as_str());
                out.push(text::string_of(&tv));
                self.acc = Vec::new();
                assert(out@.map_values(|s: String| s@) =~= before.map_values(|s: String| s@).push(
                    tv@,
                ));
            } else if b != 13 {
                self.acc.push(b);
            }
            i += 1;
        }
        assert(data@.take(data@.len() as int) =~= data@);
        out
    }
}

/// What the terminal gets after a reply, and whether the session goes on: a
/// text reply and then the prompt; a switch shows the new environment's banner
/// and prompt; a disconnect ends the session with nothing more.
pub open spec fn reply_output(r: Reply, next: Env) -> (Seq<char>, bool) {
    match r {
        Reply::Text(t) => (t@ + session::env_prompt_spec(next), true),
        Reply::Switch(_) => (session::env_prompt_spec(next), true),
        Reply::Disconnect => (Seq::<char>::empty(), false),
    }
}

/// Feed one line to the session: step its environment, switch when told to, and
/// give the text to send and whether the session goes on.
pub fn feed_line(sess: &mut Session, sys: &mut System, line: &str) -> (r: (String, bool))
    requires
        session::env_can_take(old(sess).env, line@, *old(sys)),
    ensures
        exists|stepped: Env, reply: Reply|
            {
                &&& session::env_step(old(sess).env, stepped, line@, *old(sys), *final(sys), old(sess).ctx, final(sess).ctx, reply)
                &&& final(sess).env == match reply {
                    Reply::Switch(e) => e,
                    _ => stepped,
                }
                &&& (r.0@, r.1) == reply_output(reply, final(sess).env)
            },
{
    let ghost env0 = sess.env;
    let ghost ctx0 = sess.ctx;
    let ghost sys0 = *sys;
    let reply = session::env_on_line(&mut sess.env, line, sys, &mut sess.ctx);
    let ghost stepped = sess.env;
    let ghost rep = reply;
    assert(session::env_step(env0, stepped, line@, sys0, *sys, ctx0, sess.ctx, rep));
    let mut out: Vec<char> = Vec::new();
    match reply {
        Reply::Text(t) => {
            text::push_str(&mut out, t.as_str());
            assert(out@ == t@);
        },
        Reply::Switch(e) => {
            sess.env = e;
            text::push_str(&mut out, session::env_banner(&sess.env));
            proof {
                reveal_strlit("");
            }
            assert(out@ =~= Seq::<char>::empty());
        },
        Reply::Disconnect => {
            let r = (String::new(), false);
            assert((r.0@, r.1) == reply_output(rep, sess.env));
            return r;
        },
    }
    text::push_str(&mut out, session::env_prompt(&sess.env));
    let r = (text::string_of(&out), true);
    assert((r.0@, r.1) == reply_output(rep, sess.env));
    r
}

} // verus!
