//! Telnet (RFC 854) option refusal for a line-mode host.
use vstd::prelude::*;

verus! {

pub const IAC: u8 = 255;
pub const DONT: u8 = 254;
pub const DO: u8 = 253;
pub const WONT: u8 = 252;
pub const WILL: u8 = 251;

/// The plain bytes and the reply that filtering `raw` from position `i` yields.
pub open spec fn telnet_from(raw: Seq<u8>, i: int) -> (Seq<u8>, Seq<u8>)
    decreases raw.len() - i,
{
    if i < 0 || i >= raw.len() {
        (seq![], seq![])
    } else if raw[i] == IAC && i + 1 < raw.len() {
        let c = raw[i + 1];
        if c == IAC {
            let rest = telnet_from(raw, i + 2);
            (seq![IAC] + rest.0, rest.1)
        } else if (c == DO || c == DONT) && i + 2 < raw.len() {
            let rest = telnet_from(raw, i + 3);
            (rest.0, seq![IAC, WONT, raw[i + 2]] + rest.1)
        } else if (c == WILL || c == WONT) && i + 2 < raw.len() {
            let rest = telnet_from(raw, i + 3);
            (rest.0, seq![IAC, DONT, raw[i + 2]] + rest.1)
        } else {
            telnet_from(raw, i + 2)
        }
    } else {
        let rest = telnet_from(raw, i + 1);
        (seq![raw[i]] + rest.0, rest.1)
    }
}

/// Pull telnet commands out of `raw`: the plain bytes, and the reply to send.
/// Every DO/DONT is answered WONT and every WILL/WONT is answered DONT; IAC IAC
/// stands for one data byte 255; other commands are dropped.
pub open spec fn telnet_filter(raw: Seq<u8>) -> (Seq<u8>, Seq<u8>) {
    telnet_from(raw, 0)
}

pub fn filter_telnet(raw: &[u8]) -> (r: (Vec<u8>, Vec<u8>))
    ensures
        (r.0@, r.1@) == telnet_filter(raw@),
{
    let mut data: Vec<u8> = Vec::new();
    let mut reply: Vec<u8> = Vec::new();
    let mut i: usize = 0;
    while i < raw.len()
        invariant
            i <= raw@.len(),
            telnet_filter(raw@) == (data@ + telnet_from(raw@, i as int).0, reply@ + telnet_from(
                raw@,
                i as int,
            ).1),
        decreases raw.len() - i,
    {
        if raw[i] == IAC && i + 1 < raw.len() {
            let c = raw[i + 1];
            if c == IAC {
                data.push(IAC);
                assert(telnet_from(raw@, i as int).0 =~= seq![IAC] + telnet_from(raw@, i + 2).0);
                i += 2;
            } else if (c == DO || c == DONT) && i + 2 < raw.len() {
                reply.push(IAC);
                reply.push(WONT);
                reply.push(raw[i + 2]);
                i += 3;
            } else if (c == WILL || c == WONT) && i + 2 < raw.len() {
                reply.push(IAC);
                reply.push(DONT);
                reply.push(raw[i + 2]);
                i += 3;
            } else {
                i += 2;
            }
        } else {
            data.push(raw[i]);
            i += 1;
        }
        assert(telnet_filter(raw@) =~= (data@ + telnet_from(raw@, i as int).0, reply@
            + telnet_from(raw@, i as int).1));
    }
    assert(telnet_from(raw@, i as int).0 =~= seq![]);
    assert(data@ + seq![] =~= data@);
    assert(reply@ + seq![] =~= reply@);
    (data, reply)
}

/// Data bytes as a peer sends them: every 255 doubled to IAC IAC.
pub open spec fn escape_iac(d: Seq<u8>) -> Seq<u8>
    decreases d.len(),
{
    if d.len() == 0 {
        seq![]
    } else if d[0] == IAC {
        seq![IAC, IAC] + escape_iac(d.drop_first())
    } else {
        seq![d[0]] + escape_iac(d.drop_first())
    }
}

proof fn lemma_escape_from(p: Seq<u8>, d: Seq<u8>)
    ensures
        telnet_from(p + escape_iac(d), p.len() as int) == (d, Seq::<u8>::empty()),
    decreases d.len(),
{
    let raw = p + escape_iac(d);
    if d.len() == 0 {
        assert(raw.len() == p.len());
    } else if d[0] == IAC {
        let p2 = p + seq![IAC, IAC];
        assert(raw =~= p2 + escape_iac(d.drop_first()));
        lemma_escape_from(p2, d.drop_first());
        assert(raw[p.len() as int] == IAC && raw[p.len() as int + 1] == IAC);
        assert(seq![IAC] + d.drop_first() =~= d);
    } else {
        let p2 = p + seq![d[0]];
        assert(raw =~= p2 + escape_iac(d.drop_first()));
        lemma_escape_from(p2, d.drop_first());
        assert(raw[p.len() as int] == d[0]);
        assert(seq![d[0]] + d.drop_first() =~= d);
    }
}

/// Filtering what a peer sends for data `d` (IAC doubled) gives back `d`, with
/// nothing to reply.
pub proof fn lemma_filter_escaped(d: Seq<u8>)
    ensures
        telnet_filter(escape_iac(d)) == (d, Seq::<u8>::empty()),
{
    lemma_escape_from(Seq::empty(), d);
    assert(Seq::<u8>::empty() + escape_iac(d) =~= escape_iac(d));
}

} // verus!
