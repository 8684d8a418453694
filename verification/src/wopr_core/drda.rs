//! A DRDA listener stub: enough to answer an EXCSAT probe with a server name so a
//! recon tool reports a plausible Db2.  Not a real DRDA stack.
//!
//! A DRDA DSS is: 2-byte length, a format byte (0xD0), a 2-byte request
//! correlation id, then DDM objects (each: 2-byte length + 2-byte code point +
//! data).  EXCSAT = 0x1041; the answer is EXCSATRD = 0x1443 carrying SRVNAM
//! (0x116D) = "WOPR".
use vstd::prelude::*;

verus! {

/// Whether the EXCSAT code point (0x1041) occurs anywhere in the frame.
pub open spec fn has_excsat(frame: Seq<u8>) -> bool {
    exists|i: int| 0 <= i && i + 1 < frame.len() && frame[i] == 0x10 && #[trigger] frame[i + 1] == 0x41
}

/// The EXCSATRD reply: DSS header, EXCSATRD object, SRVNAM object "WOPR".
pub open spec fn excsatrd() -> Seq<u8> {
    seq![
        0x00, 0x12, 0xD0, 0x01, 0x00, 0x01,
        0x00, 0x0C, 0x14, 0x43,
        0x00, 0x08, 0x11, 0x6D, 0x57, 0x4F, 0x50, 0x52,
    ]
}

fn push_be16(v: &mut Vec<u8>, n: usize)
    requires
        n < 0x10000,
    ensures
        final(v)@ == old(v)@ + seq![(n / 256) as u8, (n % 256) as u8],
{
    v.push((n / 256) as u8);
    v.push((n % 256) as u8);
}

fn excsatrd_reply() -> (b: Vec<u8>)
    ensures
        b@ == excsatrd(),
{
    let srvnam: [u8; 4] = [0x57, 0x4F, 0x50, 0x52];
    // SRVNAM object: len(2) + codepoint(2) + data
    let mut srvobj: Vec<u8> = Vec::new();
    push_be16(&mut srvobj, 4 + 4);
    srvobj.push(0x11);
    srvobj.push(0x6D);
    srvobj.push(srvnam[0]);
    srvobj.push(srvnam[1]);
    srvobj.push(srvnam[2]);
    srvobj.push(srvnam[3]);
    // EXCSATRD object wrapping SRVNAM
    let mut exc: Vec<u8> = Vec::new();
    push_be16(&mut exc, 4 + srvobj.len());
    exc.push(0x14);
    exc.push(0x43);
    exc.append(&mut srvobj);
    // DSS header: len(2), format(0xD0), reply flag(0x01), correlation id(2)
    let mut dss: Vec<u8> = Vec::new();
    push_be16(&mut dss, 6 + exc.len());
    dss.push(0xD0);
    dss.push(0x01);
    dss.push(0x00);
    dss.push(0x01);
    dss.append(&mut exc);
    assert(dss@ =~= excsatrd());
    dss
}

/// Answer an EXCSAT probe; any other frame gets no answer.
pub fn handle_drda(frame: &[u8]) -> (r: Option<Vec<u8>>)
    ensures
        match r {
            Some(b) => has_excsat(frame@) && b@ == excsatrd(),
            None => !has_excsat(frame@),
        },
{
    let mut i: usize = 0;
    while frame.len() > 1 && i < frame.len() - 1
        invariant
            forall|k: int| 0 <= k < i ==> !(frame@[k] == 0x10 && #[trigger] frame@[k + 1] == 0x41),
        decreases frame.len() - i,
    {
        if frame[i] == 0x10 && frame[i + 1] == 0x41 {
            assert(frame@[i as int] == 0x10 && frame@[i + 1] == 0x41);
            return Some(excsatrd_reply());
        }
        i += 1;
    }
    assert forall|k: int| 0 <= k && k + 1 < frame@.len() implies !(frame@[k] == 0x10
        && #[trigger] frame@[k + 1] == 0x41) by {
        assert(k < i);
    }
    None
}

} // verus!
