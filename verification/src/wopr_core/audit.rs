//! SMF-style audit trail: security events kept in a bounded, oldest-first log.
use vstd::prelude::*;
use std::collections::VecDeque;
use crate::text;

verus! {

#[derive(Clone, Copy, PartialEq, Eq, Structural, Debug)]
pub enum EventKind {
    LogonOk,
    LogonFail,
    DsAccess,
    JobSubmit,
    PrivUse,
}

/// An event's detail, a JSON value: null, or an object of string fields.
pub enum Detail {
    Null,
    Object(Vec<(String, String)>),
}

pub struct SmfEvent {
    /// Seconds since the Unix epoch, UTC.
    pub ts: i64,
    pub kind: EventKind,
    pub userid: String,
    pub detail: Detail,
}

/// The JSON text of an object whose fields are the given string pairs.
pub uninterp spec fn json_object_text(fields: Seq<(Seq<char>, Seq<char>)>) -> Seq<char>;

pub open spec fn pairs_view(p: Seq<(String, String)>) -> Seq<(Seq<char>, Seq<char>)> {
    p.map_values(|f: (String, String)| (f.0@, f.1@))
}

/// `serde_json::Value::to_string` of a `Value::Object` collected from string
/// pairs (`serde_json::Map`'s `FromIterator`, then `Display`).  Trusted: the text is a function
/// of the pairs alone; serde_json's default map is a `BTreeMap`, so nothing but
/// the pairs decides it.  What that text is, is not stated here.
#[verifier::external_body]
fn json_object_to_string(fields: &Vec<(String, String)>) -> (r: String)
    ensures
        r@ == json_object_text(pairs_view(fields@)),
{
    let m: serde_json::Map<String, serde_json::Value> =
        fields.iter().map(|(k, v)| (k.clone(), serde_json::Value::String(v.clone()))).collect();
    serde_json::Value::Object(m).to_string()
}

pub open spec fn detail_text(d: Detail) -> Seq<char> {
    match d {
        Detail::Null => seq![],
        Detail::Object(p) => json_object_text(pairs_view(p@)),
    }
}

pub open spec fn kind_name(k: EventKind) -> Seq<char> {
    match k {
        EventKind::LogonOk => "LogonOk"@,
        EventKind::LogonFail => "LogonFail"@,
        EventKind::DsAccess => "DsAccess"@,
        EventKind::JobSubmit => "JobSubmit"@,
        EventKind::PrivUse => "PrivUse"@,
    }
}

fn kind_str(k: EventKind) -> (s: &'static str)
    ensures
        s@ == kind_name(k),
{
    match k {
        EventKind::LogonOk => "LogonOk",
        EventKind::LogonFail => "LogonFail",
        EventKind::DsAccess => "DsAccess",
        EventKind::JobSubmit => "JobSubmit",
        EventKind::PrivUse => "PrivUse",
    }
}

/// `HH:MM:SS` (UTC) of a Unix timestamp.
pub open spec fn hms(ts: int) -> Seq<char> {
    let t = ts % 86400;
    text::pad_zero(text::dec((t / 3600) as nat), 2) + ":"@ + text::pad_zero(
        text::dec(((t % 3600) / 60) as nat),
        2,
    ) + ":"@ + text::pad_zero(text::dec((t % 60) as nat), 2)
}

fn fmt_hms(ts: i64) -> (r: Vec<char>)
    ensures
        r@ == hms(ts as int),
{
    let t: i64 = ((ts % 86400) + 86400) % 86400;
    assert(t == ts as int % 86400);
    let h = text::fmt_dec_pad((t / 3600) as u64, 2);
    let m = text::fmt_dec_pad(((t % 3600) / 60) as u64, 2);
    let s = text::fmt_dec_pad((t % 60) as u64, 2);
    let mut r: Vec<char> = Vec::new();
    text::push_chars(&mut r, &h);
    text::push_str(&mut r, ":");
    text::push_chars(&mut r, &m);
    text::push_str(&mut r, ":");
    text::push_chars(&mut r, &s);
    r
}

/// One SECEVENTS line: time, kind, user, detail.
pub open spec fn event_line(e: SmfEvent) -> Seq<char> {
    text::pad_right(hms(e.ts as int), 8) + "   "@ + text::pad_right(kind_name(e.kind), 11) + " "@
        + text::pad_right(e.userid@, 8) + " "@ + detail_text(e.detail) + "\r\n"@
}

pub open spec fn event_lines(es: Seq<SmfEvent>) -> Seq<char>
    decreases es.len(),
{
    if es.len() == 0 {
        seq![]
    } else {
        event_lines(es.drop_last()) + event_line(es.last())
    }
}

impl SmfEvent {
    /// An event stamped with the time `ts` (seconds since the Unix epoch, UTC),
    /// which the caller reads from its clock.
    pub fn now(kind: EventKind, userid: &str, detail: Detail, ts: i64) -> (e: Self)
        ensures
            e.kind == kind,
            e.userid@ == userid@,
            e.detail == detail,
            e.ts == ts,
    {
        SmfEvent { ts, kind, userid: String::from_str(userid), detail }
    }

    fn line(&self) -> (r: Vec<char>)
        ensures
            r@ == event_line(*self),
    {
        let mut r: Vec<char> = Vec::new();
        let t = fmt_hms(self.ts);
        let t = text::pad_right_vec(&t, 8);
        text::push_chars(&mut r, &t);
        text::push_str(&mut r, "   ");
        let k = text::chars_of(kind_str(self.kind));
        let k = text::pad_right_vec(&k, 11);
        text::push_chars(&mut r, &k);
        text::push_str(&mut r, " ");
        let u = text::chars_of(self.userid.as_str());
        let u = text::pad_right_vec(&u, 8);
        text::push_chars(&mut r, &u);
        text::push_str(&mut r, " ");
        match &self.detail {
            Detail::Null => {},
            Detail::Object(p) => {
                let j = json_object_to_string(p);
                text::push_str(&mut r, j.as_str());
            },
        }
        text::push_str(&mut r, "\r\n");
        r
    }
}

/// The events kept before a new one is appended: at capacity, the oldest goes.
pub open spec fn keep_room(es: Seq<SmfEvent>, cap: nat) -> Seq<SmfEvent> {
    if es.len() == cap && es.len() > 0 {
        es.drop_first()
    } else {
        es
    }
}

/// The SECEVENTS report over `es`: a header, then the last `n` events.
pub open spec fn recent_report(es: Seq<SmfEvent>, n: nat) -> Seq<char> {
    "TIME       KIND        USER     DETAIL\r\n"@ + event_lines(
        es.skip((if es.len() >= n { es.len() - n } else { 0 }) as int),
    )
}

/// `d` is the JSON object with exactly the given string fields.
pub open spec fn detail_is(d: Detail, fields: Seq<(Seq<char>, Seq<char>)>) -> bool {
    d matches Detail::Object(p) && pairs_view(p@) == fields
}

/// `a1` is `a0` after one more event of `kind` for `userid` with detail `fields`,
/// stamped with time `ts`.
pub open spec fn recorded(
    a0: Audit,
    a1: Audit,
    kind: EventKind,
    userid: Seq<char>,
    fields: Seq<(Seq<char>, Seq<char>)>,
    ts: i64,
) -> bool {
    &&& a1.capacity() == a0.capacity()
    &&& a1.events().len() > 0
    &&& a1.events().drop_last() == keep_room(a0.events(), a0.capacity())
    &&& a1.events().last().kind == kind
    &&& a1.events().last().userid@ == userid
    &&& detail_is(a1.events().last().detail, fields)
    &&& a1.events().last().ts == ts
}

/// The event log: the most recent events, oldest first, at most `cap` of them
/// (a capacity of 0 keeps every event).
pub struct Audit {
    recent: VecDeque<SmfEvent>,
    cap: usize,
}

impl Audit {
    pub closed spec fn events(&self) -> Seq<SmfEvent> {
        self.recent@
    }

    pub closed spec fn capacity(&self) -> nat {
        self.cap as nat
    }

    /// The log holds no more than its capacity.
    pub open spec fn bounded(&self) -> bool {
        self.capacity() == 0 || self.events().len() <= self.capacity()
    }

    pub fn new(cap: usize) -> (a: Self)
        ensures
            a.events() == Seq::<SmfEvent>::empty(),
            a.capacity() == cap,
            a.bounded(),
    {
        Audit { recent: VecDeque::new(), cap }
    }

    /// Append an event; when the log is at capacity the oldest one is dropped.
    pub fn record(&mut self, e: SmfEvent)
        ensures
            final(self).capacity() == old(self).capacity(),
            final(self).events() == keep_room(old(self).events(), old(self).capacity()).push(e),
            final(self).events().drop_last() == keep_room(old(self).events(), old(self).capacity()),
            final(self).events().last() == e,
            old(self).bounded() ==> final(self).bounded(),
    {
        if self.recent.len() == self.cap {
            let _ = self.recent.pop_front();
        }
        self.recent.push_back(e);
        assert(self.recent@.drop_last() =~= keep_room(old(self).events(), old(self).capacity()));
    }

    /// The SECEVENTS report: a header, then the last `n` events, oldest first.
    pub fn render_recent(&self, n: usize) -> (r: String)
        ensures
            r@ == recent_report(self.events(), n as nat),
    {
        let len = self.recent.len();
        let start = if len >= n {
            len - n
        } else {
            0
        };
        let mut out: Vec<char> = Vec::new();
        text::push_str(&mut out, "TIME       KIND        USER     DETAIL\r\n");
        let ghost head = out@;
        let mut i = start;
        while i < len
            invariant
                start <= i <= len,
                len == self.recent@.len(),
                out@ == head + event_lines(self.recent@.subrange(start as int, i as int)),
            decreases len - i,
        {
            let l = self.recent[i].line();
            text::push_chars(&mut out, &l);
            assert(self.recent@.subrange(start as int, i + 1).drop_last() =~= self.recent@.subrange(
                start as int,
                i as int,
            ));
            i += 1;
        }
        assert(self.recent@.subrange(start as int, len as int) =~= self.recent@.skip(start as int));
        text::string_of(&out)
    }
}

impl Default for Audit {
    fn default() -> (a: Self)
        ensures
            a.events() == Seq::<SmfEvent>::empty(),
            a.capacity() == 1024,
    {
        Audit::new(1024)
    }
}

} // verus!
