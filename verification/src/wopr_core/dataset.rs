//! Datasets and the catalog: sequential and partitioned datasets with their DCB,
//! and the TSO LISTDS / LISTCAT commands.
use vstd::prelude::*;
use crate::table::StrMap;
use crate::text;
use crate::wopr_core::system::System;

verus! {

/// Sequential vs partitioned.
#[derive(Clone, Copy, PartialEq, Eq, Structural, Debug)]
pub enum DsOrg {
    Ps,
    Po,
}

#[derive(Clone, Copy, PartialEq, Eq, Structural, Debug)]
pub enum RecFm {
    F,
    Fb,
    V,
    Vb,
    U,
}

#[derive(Clone, Copy, PartialEq, Eq, Structural, Debug)]
pub struct Dcb {
    pub recfm: RecFm,
    pub lrecl: u16,
    pub blksize: u16,
}

/// The records of a dataset, raw bytes and never translated.
pub enum DsContent {
    /// Records, each LRECL bytes (FB).
    Sequential(Vec<Vec<u8>>),
    /// Member name -> records.
    Pds(StrMap<Vec<Vec<u8>>>),
}

pub struct DataSet {
    pub name: String,
    pub dsorg: DsOrg,
    pub dcb: Dcb,
    pub content: DsContent,
}

pub struct Catalog {
    pub sets: StrMap<DataSet>,
}

/// CUSTOMER-RECORD: CUST-ID PIC 9(5)="00001"; CUST-NAME PIC X(20)="ACME WIDGETS INC";
/// CUST-BALANCE PIC S9(7)V99 COMP-3=+1234.56.  30 data bytes, then 0x40 padding to
/// LRECL=80.  Raw EBCDIC, never translated.
pub const CUST_GOLDEN: [u8; 80] = [
    0xF0, 0xF0, 0xF0, 0xF0, 0xF1, 0xC1, 0xC3, 0xD4, 0xC5, 0x40,
    0xE6, 0xC9, 0xC4, 0xC7, 0xC5, 0xE3, 0xE2, 0x40, 0xC9, 0xD5,
    0xC3, 0x40, 0x40, 0x40, 0x40, 0x00, 0x01, 0x23, 0x45, 0x6C,
    0x40, 0x40, 0x40, 0x40, 0x40, 0x40, 0x40, 0x40, 0x40, 0x40,
    0x40, 0x40, 0x40, 0x40, 0x40, 0x40, 0x40, 0x40, 0x40, 0x40,
    0x40, 0x40, 0x40, 0x40, 0x40, 0x40, 0x40, 0x40, 0x40, 0x40,
    0x40, 0x40, 0x40, 0x40, 0x40, 0x40, 0x40, 0x40, 0x40, 0x40,
    0x40, 0x40, 0x40, 0x40, 0x40, 0x40, 0x40, 0x40, 0x40, 0x40,
];

/// The records of a sequential dataset as plain byte sequences.
pub open spec fn records_view(rs: Seq<Vec<u8>>) -> Seq<Seq<u8>> {
    rs.map_values(|r: Vec<u8>| r@)
}

/// The name of the golden customer dataset.
pub open spec fn golden_dsn() -> Seq<char> {
    "IBMUSER.CUST.DATA"@
}

/// `c` is the catalog that `with_golden` builds: one FB/80 sequential dataset
/// holding the golden customer record.
pub open spec fn is_golden_catalog(c: Catalog) -> bool {
    &&& c.sets@.dom() == set![golden_dsn()]
    &&& c.sets@[golden_dsn()].name@ == golden_dsn()
    &&& c.sets@[golden_dsn()].dsorg == DsOrg::Ps
    &&& c.sets@[golden_dsn()].dcb == (Dcb { recfm: RecFm::Fb, lrecl: 80, blksize: 800 })
    &&& c.sets@[golden_dsn()].content matches DsContent::Sequential(rs) && records_view(rs@) == seq![
        CUST_GOLDEN@,
    ]
}

/// The JCL library that the seeded system catalogs.
pub open spec fn jcl_dsn() -> Seq<char> {
    "IBMUSER.JCL"@
}

/// The statements of member RUNIT: an IEBGENER job that copies the golden
/// dataset to SYSOUT.
pub open spec fn runit_lines() -> Seq<Seq<char>> {
    seq![
        "//RUNIT JOB (ACCT),'DEMO',CLASS=A"@,
        "//STEP1 EXEC PGM=IEBGENER"@,
        "//SYSUT1 DD DSN=IBMUSER.CUST.DATA,DISP=SHR"@,
        "//SYSUT2 DD SYSOUT=*"@,
        "//SYSIN DD DUMMY"@,
    ]
}

/// A JCL statement as an FB/80 record: its text padded with blanks to 80
/// columns, as UTF-8 bytes.
pub open spec fn jcl_record_spec(line: Seq<char>) -> Seq<u8> {
    vstd::utf8::encode_utf8(text::pad_right(line, 80))
}

pub open spec fn runit_records() -> Seq<Seq<u8>> {
    runit_lines().map_values(|l: Seq<char>| jcl_record_spec(l))
}

/// `ds` is the golden dataset: one FB/80 sequential record, `CUST_GOLDEN`.
pub open spec fn is_golden_dataset(ds: DataSet) -> bool {
    &&& ds.name@ == golden_dsn()
    &&& ds.dsorg == DsOrg::Ps
    &&& ds.dcb == (Dcb { recfm: RecFm::Fb, lrecl: 80, blksize: 800 })
    &&& ds.content matches DsContent::Sequential(rs) && records_view(rs@) == seq![CUST_GOLDEN@]
}

/// `ds` is the JCL library: partitioned, FB/80, with the one member RUNIT.
pub open spec fn is_jcl_library(ds: DataSet) -> bool {
    &&& ds.name@ == jcl_dsn()
    &&& ds.dsorg == DsOrg::Po
    &&& ds.dcb == (Dcb { recfm: RecFm::Fb, lrecl: 80, blksize: 800 })
    &&& ds.content matches DsContent::Pds(m) && m@.dom() == set!["RUNIT"@] && records_view(
        m@["RUNIT"@]@,
    ) == runit_records()
}

/// `c` is the catalog of a newly built system: the golden dataset and the JCL
/// library.
pub open spec fn is_seeded_catalog(c: Catalog) -> bool {
    &&& c.sets@.dom() == set![golden_dsn(), jcl_dsn()]
    &&& is_golden_dataset(c.sets@[golden_dsn()])
    &&& is_jcl_library(c.sets@[jcl_dsn()])
}

fn jcl_record(line: &str) -> (r: Vec<u8>)
    ensures
        r@ == jcl_record_spec(line@),
{
    let v = text::chars_of(line);
    let p = text::pad_right_vec(&v, 80);
    let s = text::string_of(&p);
    vstd::slice::slice_to_vec(s.as_str().as_bytes())
}

impl Catalog {
    pub fn new() -> (c: Self)
        ensures
            c.sets@ == Map::<Seq<char>, DataSet>::empty(),
    {
        Catalog { sets: StrMap::new() }
    }

    pub fn with_golden() -> (c: Self)
        ensures
            is_golden_catalog(c),
    {
        let mut c = Catalog::new();
        let rec = vstd::slice::slice_to_vec(&CUST_GOLDEN);
        let mut recs: Vec<Vec<u8>> = Vec::new();
        recs.push(rec);
        let ds = DataSet {
            name: String::from_str("IBMUSER.CUST.DATA"),
            dsorg: DsOrg::Ps,
            dcb: Dcb { recfm: RecFm::Fb, lrecl: 80, blksize: 800 },
            content: DsContent::Sequential(recs),
        };
        c.sets.insert(String::from_str("IBMUSER.CUST.DATA"), ds);
        assert(c.sets@.dom() =~= set![golden_dsn()]);
        assert(records_view(recs@) =~= seq![CUST_GOLDEN@]);
        c
    }

    /// The catalog of a newly built system: the golden dataset, and the JCL
    /// library `IBMUSER.JCL` with member RUNIT.
    pub fn seeded() -> (c: Self)
        ensures
            is_seeded_catalog(c),
    {
        let mut c = Catalog::with_golden();
        let mut recs: Vec<Vec<u8>> = Vec::new();
        recs.push(jcl_record("//RUNIT JOB (ACCT),'DEMO',CLASS=A"));
        recs.push(jcl_record("//STEP1 EXEC PGM=IEBGENER"));
        recs.push(jcl_record("//SYSUT1 DD DSN=IBMUSER.CUST.DATA,DISP=SHR"));
        recs.push(jcl_record("//SYSUT2 DD SYSOUT=*"));
        recs.push(jcl_record("//SYSIN DD DUMMY"));
        assert(records_view(recs@) =~= runit_records());
        let mut members: StrMap<Vec<Vec<u8>>> = StrMap::new();
        members.insert(String::from_str("RUNIT"), recs);
        assert(members@.dom() =~= set!["RUNIT"@]);
        let lib = DataSet {
            name: String::from_str("IBMUSER.JCL"),
            dsorg: DsOrg::Po,
            dcb: Dcb { recfm: RecFm::Fb, lrecl: 80, blksize: 800 },
            content: DsContent::Pds(members),
        };
        proof {
            reveal_strlit("IBMUSER.JCL");
            reveal_strlit("IBMUSER.CUST.DATA");
            assert(jcl_dsn()[8] != golden_dsn()[8]);
        }
        c.sets.insert(String::from_str("IBMUSER.JCL"), lib);
        assert(c.sets@.dom() =~= set![golden_dsn(), jcl_dsn()]);
        c
    }
}

impl Default for Catalog {
    fn default() -> (c: Self)
        ensures
            c.sets@ == Map::<Seq<char>, DataSet>::empty(),
    {
        Catalog::new()
    }
}

/// `{:?}` of a record format.
pub open spec fn recfm_name(r: RecFm) -> Seq<char> {
    match r {
        RecFm::F => "F"@,
        RecFm::Fb => "Fb"@,
        RecFm::V => "V"@,
        RecFm::Vb => "Vb"@,
        RecFm::U => "U"@,
    }
}

/// `{:?}` of a dataset organisation.
pub open spec fn dsorg_name(o: DsOrg) -> Seq<char> {
    match o {
        DsOrg::Ps => "Ps"@,
        DsOrg::Po => "Po"@,
    }
}

fn recfm_str(r: RecFm) -> (s: &'static str)
    ensures
        s@ == recfm_name(r),
{
    match r {
        RecFm::F => "F",
        RecFm::Fb => "Fb",
        RecFm::V => "V",
        RecFm::Vb => "Vb",
        RecFm::U => "U",
    }
}

fn dsorg_str(o: DsOrg) -> (s: &'static str)
    ensures
        s@ == dsorg_name(o),
{
    match o {
        DsOrg::Ps => "Ps",
        DsOrg::Po => "Po",
    }
}

/// The catalog key that a LISTDS operand names: blanks and quotes stripped.
pub open spec fn dsn_key(dsn: Seq<char>) -> Seq<char> {
    text::trim_char(text::trim(dsn), '\'')
}

/// The LISTDS reply for `dsn` over the datasets `sets`.
pub open spec fn listds_spec(dsn: Seq<char>, sets: Map<Seq<char>, DataSet>) -> Seq<char> {
    let key = dsn_key(dsn);
    if !sets.contains_key(key) {
        "IKJ58503I DATA SET "@ + key + " NOT IN CATALOG\r\n"@
    } else {
        let ds = sets[key];
        key + "\r\n RECFM="@ + recfm_name(ds.dcb.recfm) + "  LRECL="@ + text::dec(
            ds.dcb.lrecl as nat,
        ) + "  BLKSIZE="@ + text::dec(ds.dcb.blksize as nat) + "  DSORG="@ + dsorg_name(
            ds.dsorg,
        ) + "\r\n"@
    }
}

pub fn listds(dsn: &str, sys: &System) -> (r: String)
    ensures
        r@ == listds_spec(dsn@, sys.catalog.sets@),
{
    let t = text::trim_str(dsn);
    let key = text::trim_char_vec(&t, '\'');
    let mut out: Vec<char> = Vec::new();
    match sys.catalog.sets.get(&key) {
        None => {
            text::push_str(&mut out, "IKJ58503I DATA SET ");
            text::push_chars(&mut out, &key);
            text::push_str(&mut out, " NOT IN CATALOG\r\n");
        },
        Some(ds) => {
            text::push_chars(&mut out, &key);
            text::push_str(&mut out, "\r\n RECFM=");
            text::push_str(&mut out, recfm_str(ds.dcb.recfm));
            text::push_str(&mut out, "  LRECL=");
            let l = text::fmt_dec(ds.dcb.lrecl as u64);
            text::push_chars(&mut out, &l);
            text::push_str(&mut out, "  BLKSIZE=");
            let b = text::fmt_dec(ds.dcb.blksize as u64);
            text::push_chars(&mut out, &b);
            text::push_str(&mut out, "  DSORG=");
            text::push_str(&mut out, dsorg_str(ds.dsorg));
            text::push_str(&mut out, "\r\n");
        },
    }
    text::string_of(&out)
}

/// One LISTCAT line per dataset name, in the given order.
pub open spec fn listcat_lines(names: Seq<Seq<char>>) -> Seq<char>
    decreases names.len(),
{
    if names.len() == 0 {
        seq![]
    } else {
        listcat_lines(names.drop_last()) + "NONVSAM ------- "@ + names.last() + "\r\n"@
    }
}

/// The LISTCAT reply: every catalogued name in sorted order, or a note that
/// the catalog is empty.
pub open spec fn listcat_spec(names: Seq<Seq<char>>) -> Seq<char> {
    if names.len() == 0 {
        "IDC0001I NO ENTRIES FOUND\r\n"@
    } else {
        listcat_lines(names)
    }
}

pub fn listcat(sys: &System) -> (r: String)
    ensures
        exists|names: Seq<Seq<char>>|
            {
                &&& text::lex_sorted_strict(names)
                &&& names.to_set() == sys.catalog.sets@.dom()
                &&& r@ == listcat_spec(names)
            },
{
    broadcast use vstd::seq_lib::group_to_multiset_ensures;
    let keys = sys.catalog.sets.keys();
    let mut kv: Vec<Vec<char>> = Vec::new();
    let mut i: usize = 0;
    while i < keys.len()
        invariant
            i <= keys@.len(),
            kv@.len() == i,
            forall|j: int| 0 <= j < i ==> #[trigger] kv@[j]@ == keys@[j]@,
        decreases keys.len() - i,
    {
        kv.push(text::chars_of(keys[i].as_str()));
        i += 1;
    }
    let ghost ks = keys@.map_values(|k: String| k@);
    assert(text::views(kv@) =~= ks);
    let names = text::sort_strings(kv);
    let ghost ns = text::views(names@);
    proof {
        assert(ns.to_multiset() == ks.to_multiset());
        assert forall|k: Seq<char>| ns.to_set().contains(k) <==> ks.to_set().contains(k) by {
            assert(ns.to_multiset().count(k) == ks.to_multiset().count(k));
        }
        assert(ns.to_set() =~= ks.to_set());
        ks.lemma_multiset_has_no_duplicates();
        ns.lemma_multiset_has_no_duplicates_conv();
        text::lemma_sorted_distinct_strict(ns);
    }
    let mut out: Vec<char> = Vec::new();
    let mut j: usize = 0;
    while j < names.len()
        invariant
            j <= names@.len(),
            ns == text::views(names@),
            out@ == listcat_lines(ns.take(j as int)),
        decreases names.len() - j,
    {
        text::push_str(&mut out, "NONVSAM ------- ");
        text::push_chars(&mut out, &names[j]);
        text::push_str(&mut out, "\r\n");
        assert(ns.take(j + 1).drop_last() =~= ns.take(j as int));
        j += 1;
    }
    assert(ns.take(names.len() as int) =~= ns);
    if out.len() == 0 {
        proof {
            if ns.len() > 0 {
                reveal_strlit("NONVSAM ------- ");
                assert(listcat_lines(ns).len() > 0);
            }
        }
        text::push_str(&mut out, "IDC0001I NO ENTRIES FOUND\r\n");
    }
    text::string_of(&out)
}

/// The catalog commands: LISTCAT, or LISTDS of the operand.
pub open spec fn catalog_cmd_is_listcat(verb: Seq<char>) -> bool {
    text::upper(verb) == "LISTCAT"@
}

/// `r` is the reply of LISTCAT or LISTDS as `verb` picks: the listing of a
/// sorted order of the names, or the LISTDS reply for `args`.
pub open spec fn catalog_reply(
    verb: Seq<char>,
    args: Seq<char>,
    sets: Map<Seq<char>, DataSet>,
    r: Seq<char>,
) -> bool {
    if catalog_cmd_is_listcat(verb) {
        exists|names: Seq<Seq<char>>|
            {
                &&& text::lex_sorted_strict(names)
                &&& names.to_set() == sets.dom()
                &&& r == listcat_spec(names)
            }
    } else {
        r == listds_spec(args, sets)
    }
}

pub fn catalog_cmd(verb: &str, args: &str, sys: &System) -> (r: String)
    ensures
        catalog_reply(verb@, args@, sys.catalog.sets@, r@),
{
    let v = text::chars_of(verb);
    let u = text::upper_vec(&v);
    if text::eq_str(&u, "LISTCAT") {
        listcat(sys)
    } else {
        listds(args, sys)
    }
}

} // verus!
