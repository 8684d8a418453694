//! JES: JCL parsing, step execution, the spool and SDSF status.
use vstd::prelude::*;
use crate::text;
use crate::wopr_core::audit::{self, Detail, EventKind, SmfEvent};
use crate::wopr_core::dataset::DsContent;
use crate::wopr_core::system::System;

verus! {

#[derive(Clone, Copy, PartialEq, Eq, Structural, Debug)]
pub enum Disp {
    Shr,
    Old,
    New,
    Mod,
}

pub struct Dd {
    pub name: String,
    pub dsn: Option<String>,
    pub disp: Disp,
    pub sysout: Option<char>,
    pub dummy: bool,
}

pub struct Step {
    pub name: String,
    pub pgm: String,
    pub dds: Vec<Dd>,
}

pub struct Job {
    pub id: u32,
    pub name: String,
    pub class: char,
    pub steps: Vec<Step>,
}

pub struct DdView {
    pub name: Seq<char>,
    pub dsn: Option<Seq<char>>,
    pub disp: Disp,
    pub sysout: Option<char>,
    pub dummy: bool,
}

pub struct StepView {
    pub name: Seq<char>,
    pub pgm: Seq<char>,
    pub dds: Seq<DdView>,
}

pub struct JobView {
    pub id: u32,
    pub name: Seq<char>,
    pub class: char,
    pub steps: Seq<StepView>,
}

pub open spec fn opt_view(o: Option<String>) -> Option<Seq<char>> {
    match o {
        Some(s) => Some(s@),
        None => None,
    }
}

impl View for Dd {
    type V = DdView;

    open spec fn view(&self) -> DdView {
        DdView {
            name: self.name@,
            dsn: opt_view(self.dsn),
            disp: self.disp,
            sysout: self.sysout,
            dummy: self.dummy,
        }
    }
}

impl View for Step {
    type V = StepView;

    open spec fn view(&self) -> StepView {
        StepView { name: self.name@, pgm: self.pgm@, dds: self.dds@.map_values(|d: Dd| d@) }
    }
}

impl View for Job {
    type V = JobView;

    open spec fn view(&self) -> JobView {
        JobView {
            id: self.id,
            name: self.name@,
            class: self.class,
            steps: self.steps@.map_values(|s: Step| s@),
        }
    }
}

// ---------------------------------------------------------------------------
// JCL statements
// ---------------------------------------------------------------------------

/// Split at the first blank: the text before it, and the text after it.
pub open spec fn split_at_blank(s: Seq<char>) -> (Seq<char>, Seq<char>) {
    let n = text::lead(s, text::CharClass::NotWs);
    if n >= s.len() {
        (s, seq![])
    } else {
        (s.take(n as int), s.skip(n + 1 as int))
    }
}

fn split_at_blank_vec(s: &Vec<char>) -> (r: (Vec<char>, Vec<char>))
    ensures
        (r.0@, r.1@) == split_at_blank(s@),
{
    let n = text::scan_fwd(s, 0, &text::CharClass::NotWs);
    assert(s@.skip(0) =~= s@);
    if n >= s.len() {
        (s.clone(), Vec::new())
    } else {
        (text::slice(s, 0, n), text::slice(s, n + 1, s.len()))
    }
}

/// A `//` statement body split into (name, operation, operands).
pub open spec fn split_stmt(rest: Seq<char>) -> (Seq<char>, Seq<char>, Seq<char>) {
    let (name, a) = split_at_blank(rest);
    let (op, ops) = split_at_blank(text::trim_start(a));
    (name, op, text::trim(ops))
}

fn split_stmt_vec(rest: &Vec<char>) -> (r: (Vec<char>, Vec<char>, Vec<char>))
    ensures
        (r.0@, r.1@, r.2@) == split_stmt(rest@),
{
    let (name, a) = split_at_blank_vec(rest);
    let after = text::trim_start_vec(&a);
    let (op, ops) = split_at_blank_vec(&after);
    (name, op, text::trim_vec(&ops))
}

/// The value of the first `KEY=value` among comma-separated operands, blanks and
/// quotes stripped.
pub open spec fn operand_in(parts: Seq<Seq<char>>, key: Seq<char>) -> Option<Seq<char>>
    decreases parts.len(),
{
    if parts.len() == 0 {
        None
    } else {
        let p = text::trim(parts[0]);
        let k = key + "="@;
        if text::starts_with(p, k) {
            Some(text::trim_char(text::trim(p.skip(k.len() as int)), '\''))
        } else {
            operand_in(parts.drop_first(), key)
        }
    }
}

pub open spec fn operand(ops: Seq<char>, key: Seq<char>) -> Option<Seq<char>> {
    operand_in(text::split_char(ops, ','), key)
}

fn operand_vec(ops: &Vec<char>, key: &str) -> (r: Option<Vec<char>>)
    ensures
        match r {
            Some(v) => operand(ops@, key@) == Some(v@),
            None => operand(ops@, key@) is None,
        },
{
    let parts = text::split_char_vec(ops, ',');
    let ghost ps = parts@.map_values(|w: Vec<char>| w@);
    let mut k = text::chars_of(key);
    k.push('=');
    proof {
        reveal_strlit("=");
        assert(k@ =~= key@ + "="@);
        assert(ps.skip(0) =~= ps);
    }
    let mut i: usize = 0;
    while i < parts.len()
        invariant
            i <= parts@.len(),
            ps == parts@.map_values(|w: Vec<char>| w@),
            k@ == key@ + "="@,
            operand(ops@, key@) == operand_in(ps.skip(i as int), key@),
        decreases parts.len() - i,
    {
        proof {
            reveal_strlit("=");
            assert(ps.skip(i as int)[0] == parts@[i as int]@);
            assert(ps.skip(i as int).drop_first() =~= ps.skip(i + 1));
        }
        let p = text::trim_vec(&parts[i]);
        if text::starts_with_vec(&p, &k) {
            let v = text::slice(&p, k.len(), p.len());
            let v = text::trim_vec(&v);
            return Some(text::trim_char_vec(&v, '\''));
        }
        i += 1;
    }
    None
}

/// Whether one of the comma-separated operands is `DUMMY` (any case).
pub open spec fn has_dummy(ops: Seq<char>) -> bool {
    exists|i: int|
        0 <= i < text::split_char(ops, ',').len() && text::eq_ignore_case(
            text::trim(#[trigger] text::split_char(ops, ',')[i]),
            "DUMMY"@,
        )
}

pub open spec fn disp_of(v: Option<Seq<char>>) -> Disp {
    if v == Some("OLD"@) {
        Disp::Old
    } else if v == Some("NEW"@) {
        Disp::New
    } else if v == Some("MOD"@) {
        Disp::Mod
    } else {
        Disp::Shr
    }
}

pub open spec fn first_char(v: Option<Seq<char>>) -> Option<char> {
    match v {
        Some(s) => if s.len() > 0 { Some(s[0]) } else { None },
        None => None,
    }
}

/// The DD statement `name` with operands `ops`.
pub open spec fn parse_dd_spec(name: Seq<char>, ops: Seq<char>) -> DdView {
    DdView {
        name,
        dsn: operand(ops, "DSN"@),
        disp: disp_of(operand(ops, "DISP"@)),
        sysout: first_char(operand(ops, "SYSOUT"@)),
        dummy: has_dummy(ops),
    }
}

fn first_char_vec(v: &Option<Vec<char>>) -> (r: Option<char>)
    ensures
        r == first_char(match v {
            Some(s) => Some(s@),
            None => None,
        }),
{
    match v {
        Some(s) => if s.len() > 0 {
            Some(s[0])
        } else {
            None
        },
        None => None,
    }
}

fn parse_dd(name: &Vec<char>, ops: &Vec<char>) -> (d: Dd)
    ensures
        d@ == parse_dd_spec(name@, ops@),
{
    let parts = text::split_char_vec(ops, ',');
    let ghost ps = parts@.map_values(|w: Vec<char>| w@);
    let dm = text::chars_of("DUMMY");
    let mut dummy = false;
    let mut i: usize = 0;
    while i < parts.len()
        invariant
            i <= parts@.len(),
            ps == parts@.map_values(|w: Vec<char>| w@),
            ps == text::split_char(ops@, ','),
            dm@ == "DUMMY"@,
            dummy == exists|j: int|
                0 <= j < i && text::eq_ignore_case(text::trim(#[trigger] ps[j]), "DUMMY"@),
        decreases parts.len() - i,
    {
        let p = text::trim_vec(&parts[i]);
        if text::eq_ignore_case_vec(&p, &dm) {
            dummy = true;
        }
        assert(ps[i as int] == parts@[i as int]@);
        i += 1;
    }
    let disp_v = operand_vec(ops, "DISP");
    let disp = match &disp_v {
        Some(v) => if text::eq_str(v, "OLD") {
            Disp::Old
        } else if text::eq_str(v, "NEW") {
            Disp::New
        } else if text::eq_str(v, "MOD") {
            Disp::Mod
        } else {
            Disp::Shr
        },
        None => Disp::Shr,
    };
    let dsn = match operand_vec(ops, "DSN") {
        Some(v) => Some(text::string_of(&v)),
        None => None,
    };
    let so = operand_vec(ops, "SYSOUT");
    let sysout = first_char_vec(&so);
    Dd { name: text::string_of(name), dsn, disp, sysout, dummy }
}

// ---------------------------------------------------------------------------
// JCL jobs
// ---------------------------------------------------------------------------

/// The parser's state after some lines: job name and class, the finished steps,
/// and the step being built.
pub struct JclState {
    pub name: Seq<char>,
    pub class: char,
    pub steps: Seq<StepView>,
    pub cur: Option<StepView>,
}

pub open spec fn jcl_start() -> JclState {
    JclState { name: seq![], class: 'A', steps: seq![], cur: None }
}

/// The state after one more line of JCL.  Lines that are blank, not `//`
/// statements, or `//*` comments change nothing.
pub open spec fn jcl_line(st: JclState, raw: Seq<char>) -> JclState {
    let line = text::trim_end(raw);
    if line.len() == 0 || !text::starts_with(line, "//"@) || text::starts_with(line, "//*"@) {
        st
    } else {
        let (name, op, ops) = split_stmt(line.skip(2));
        let uop = text::upper(op);
        if uop == "JOB"@ {
            JclState {
                name,
                class: match first_char(operand(ops, "CLASS"@)) {
                    Some(c) => c,
                    None => st.class,
                },
                ..st
            }
        } else if uop == "EXEC"@ {
            JclState {
                steps: match st.cur {
                    Some(s) => st.steps.push(s),
                    None => st.steps,
                },
                cur: Some(
                    StepView {
                        name,
                        pgm: match operand(ops, "PGM"@) {
                            Some(p) => p,
                            None => seq![],
                        },
                        dds: seq![],
                    },
                ),
                ..st
            }
        } else if uop == "DD"@ {
            match st.cur {
                Some(s) => JclState {
                    cur: Some(StepView { dds: s.dds.push(parse_dd_spec(name, ops)), ..s }),
                    ..st
                },
                None => st,
            }
        } else {
            st
        }
    }
}

pub open spec fn jcl_fold(lines: Seq<Seq<char>>) -> JclState
    decreases lines.len(),
{
    if lines.len() == 0 {
        jcl_start()
    } else {
        jcl_line(jcl_fold(lines.drop_last()), lines.last())
    }
}

/// The steps of the whole job: the finished steps and the last one.
pub open spec fn jcl_steps(st: JclState) -> Seq<StepView> {
    match st.cur {
        Some(s) => st.steps.push(s),
        None => st.steps,
    }
}

/// Why JCL was refused.
#[derive(Clone, Copy, PartialEq, Eq, Structural, Debug)]
pub enum JclError {
    /// The JCL has no EXEC statement.
    NoSteps,
}

impl JclError {
    /// The message of the error.
    pub fn message(&self) -> (s: &'static str)
        ensures
            s@ == "no EXEC steps found"@,
    {
        "no EXEC steps found"
    }
}

/// Parse JCL: job name and CLASS from the JOB statement, one step per EXEC with
/// its PGM, and the DD statements of each step.  The JCL is refused when it has
/// no EXEC statement.
pub open spec fn parse_jcl_spec(src: Seq<char>) -> Result<JobView, JclError> {
    let st = jcl_fold(text::lines(src));
    let steps = jcl_steps(st);
    if steps.len() == 0 {
        Err(JclError::NoSteps)
    } else {
        Ok(JobView { id: 0, name: st.name, class: st.class, steps })
    }
}

pub open spec fn job_result_view(r: Result<Job, JclError>) -> Result<JobView, JclError> {
    match r {
        Ok(j) => Ok(j@),
        Err(e) => Err(e),
    }
}

fn new_step(name: Vec<char>, pgm: Vec<char>) -> (s: Step)
    ensures
        s@ == (StepView { name: name@, pgm: pgm@, dds: seq![] }),
{
    let s = Step { name: text::string_of(&name), pgm: text::string_of(&pgm), dds: Vec::new() };
    assert(s@.dds =~= seq![]);
    s
}

pub fn parse_jcl(src: &str) -> (r: Result<Job, JclError>)
    ensures
        job_result_view(r) == parse_jcl_spec(src@),
{
    let sv = text::chars_of(src);
    let lines = text::lines_vec(&sv);
    let ghost ls = lines@.map_values(|w: Vec<char>| w@);
    let mut job_name: Vec<char> = Vec::new();
    let mut class: char = 'A';
    let mut steps: Vec<Step> = Vec::new();
    let mut cur: Option<Step> = None;
    let mut i: usize = 0;
    while i < lines.len()
        invariant
            i <= lines@.len(),
            ls == lines@.map_values(|w: Vec<char>| w@),
            ls == text::lines(src@),
            ({
                let st = jcl_fold(ls.take(i as int));
                &&& st.name == job_name@
                &&& st.class == class
                &&& st.steps == steps@.map_values(|s: Step| s@)
                &&& st.cur == match cur {
                    Some(s) => Some(s@),
                    None => None,
                }
            }),
        decreases lines.len() - i,
    {
        proof {
            assert(ls.take(i + 1).drop_last() =~= ls.take(i as int));
            assert(ls.take(i + 1).last() == lines@[i as int]@);
        }
        let line = text::trim_end_vec(&lines[i]);
        if line.len() == 0 || !text::starts_with_str(&line, "//") || text::starts_with_str(
            &line,
            "//*",
        ) {
            i += 1;
            continue;
        }
        proof {
            reveal_strlit("//");
            assert(line@.len() >= 2);
        }
        let body = text::slice(&line, 2, line.len());
        assert(body@ =~= line@.skip(2));
        let (name, op, ops) = split_stmt_vec(&body);
        let uop = text::upper_vec(&op);
        if text::eq_str(&uop, "JOB") {
            let cl = operand_vec(&ops, "CLASS");
            match first_char_vec(&cl) {
                Some(c) => {
                    class = c;
                },
                None => {},
            }
            job_name = name;
        } else if text::eq_str(&uop, "EXEC") {
            let ghost old_steps = steps@;
            let ghost old_cur = cur;
            match cur {
                Some(s) => {
                    steps.push(s);
                },
                None => {},
            }
            proof {
                match old_cur {
                    Some(s) => {
                        assert(steps@.map_values(|s: Step| s@) =~= old_steps.map_values(
                            |s: Step| s@,
                        ).push(s@));
                    },
                    None => {},
                }
            }
            let pgm = match operand_vec(&ops, "PGM") {
                Some(p) => p,
                None => Vec::new(),
            };
            cur = Some(new_step(name, pgm));
        } else if text::eq_str(&uop, "DD") {
            match cur {
                Some(mut s) => {
                    let ghost old_dds = s.dds@;
                    let d = parse_dd(&name, &ops);
                    s.dds.push(d);
                    assert(s.dds@.map_values(|d: Dd| d@) =~= old_dds.map_values(|d: Dd| d@).push(
                        d@,
                    ));
                    cur = Some(s);
                },
                None => {
                    cur = None;
                },
            }
        }
        i += 1;
    }
    assert(ls.take(lines.len() as int) =~= ls);
    let ghost old_steps = steps@;
    let ghost old_cur = cur;
    match cur {
        Some(s) => {
            steps.push(s);
        },
        None => {},
    }
    proof {
        match old_cur {
            Some(s) => {
                assert(steps@.map_values(|s: Step| s@) =~= old_steps.map_values(|s: Step| s@).push(
                    s@,
                ));
            },
            None => {},
        }
    }
    if steps.len() == 0 {
        return Err(JclError::NoSteps);
    }
    Ok(Job { id: 0, name: text::string_of(&job_name), class, steps })
}

// ---------------------------------------------------------------------------
// Running jobs
// ---------------------------------------------------------------------------

/// The first DD of `step` named `name` (any case).
pub open spec fn find_dd_spec(dds: Seq<DdView>, name: Seq<char>) -> Option<DdView>
    decreases dds.len(),
{
    if dds.len() == 0 {
        None
    } else if text::eq_ignore_case(dds[0].name, name) {
        Some(dds[0])
    } else {
        find_dd_spec(dds.drop_first(), name)
    }
}

fn find_dd<'a>(step: &'a Step, name: &str) -> (r: Option<&'a Dd>)
    ensures
        match r {
            Some(d) => find_dd_spec(step@.dds, name@) == Some(d@),
            None => find_dd_spec(step@.dds, name@) is None,
        },
{
    let nv = text::chars_of(name);
    let ghost ds = step@.dds;
    assert(ds.skip(0) =~= ds);
    let mut i: usize = 0;
    while i < step.dds.len()
        invariant
            i <= step.dds@.len(),
            ds == step@.dds,
            nv@ == name@,
            find_dd_spec(ds, name@) == find_dd_spec(ds.skip(i as int), name@),
        decreases step.dds.len() - i,
    {
        assert(ds.skip(i as int)[0] == step.dds@[i as int]@);
        assert(ds.skip(i as int).drop_first() =~= ds.skip(i + 1));
        let dn = text::chars_of(step.dds[i].name.as_str());
        if text::eq_ignore_case_vec(&dn, &nv) {
            return Some(&step.dds[i]);
        }
        i += 1;
    }
    None
}

/// IEBGENER ends with 0 when SYSUT1 names a catalogued dataset and SYSUT2 is
/// present; otherwise 12.
pub open spec fn iebgener_rc(step: StepView, sets: Set<Seq<char>>) -> i32 {
    match (find_dd_spec(step.dds, "SYSUT1"@), find_dd_spec(step.dds, "SYSUT2"@)) {
        (Some(inp), Some(_)) => match inp.dsn {
            Some(dsn) => if sets.contains(text::trim_char(dsn, '\'')) {
                0
            } else {
                12
            },
            None => 12,
        },
        _ => 12,
    }
}

/// A step's return code: IEFBR14 and IDCAMS end with 0, IEBGENER copies, and
/// any other program is a JCL error (12).
pub open spec fn step_rc(step: StepView, sets: Set<Seq<char>>) -> i32 {
    let p = text::upper(step.pgm);
    if p == "IEFBR14"@ {
        0
    } else if p == "IEBGENER"@ {
        iebgener_rc(step, sets)
    } else if p == "IDCAMS"@ {
        0
    } else {
        12
    }
}

/// A job's return code: the highest step return code, or 0 without steps.
pub open spec fn job_rc(steps: Seq<StepView>, sets: Set<Seq<char>>) -> i32
    decreases steps.len(),
{
    if steps.len() == 0 {
        0
    } else {
        let b = step_rc(steps.last(), sets);
        if steps.len() == 1 {
            b
        } else {
            let a = job_rc(steps.drop_last(), sets);
            if a >= b {
                a
            } else {
                b
            }
        }
    }
}

/// A job's return code is the highest of its steps' return codes: no step
/// ended higher, and some step ended with exactly it (0 for a job without
/// steps).
pub proof fn lemma_job_rc_is_highest(steps: Seq<StepView>, sets: Set<Seq<char>>)
    ensures
        forall|i: int| 0 <= i < steps.len() ==> job_rc(steps, sets) >= #[trigger] step_rc(steps[i], sets),
        steps.len() > 0 ==> exists|i: int|
            0 <= i < steps.len() && job_rc(steps, sets) == #[trigger] step_rc(steps[i], sets),
        steps.len() == 0 ==> job_rc(steps, sets) == 0,
    decreases steps.len(),
{
    if steps.len() > 1 {
        let init = steps.drop_last();
        lemma_job_rc_is_highest(init, sets);
        assert forall|i: int| 0 <= i < steps.len() implies job_rc(steps, sets) >= #[trigger] step_rc(
            steps[i],
            sets,
        ) by {
            if i < steps.len() - 1 {
                assert(steps[i] == init[i]);
            }
        }
        if job_rc(steps, sets) == step_rc(steps.last(), sets) {
            assert(step_rc(steps[steps.len() - 1], sets) == job_rc(steps, sets));
        } else {
            let k = choose|k: int| 0 <= k < init.len() && job_rc(init, sets) == #[trigger] step_rc(init[k], sets);
            assert(steps[k] == init[k]);
        }
    } else if steps.len() == 1 {
        assert(step_rc(steps[0], sets) == job_rc(steps, sets));
    }
}

fn iebgener(step: &Step, sys: &System) -> (rc: i32)
    ensures
        rc == iebgener_rc(step@, sys.catalog.sets@.dom()),
{
    match (find_dd(step, "SYSUT1"), find_dd(step, "SYSUT2")) {
        (Some(inp), Some(_)) => match &inp.dsn {
            Some(dsn) => {
                let d = text::chars_of(dsn.as_str());
                let k = text::trim_char_vec(&d, '\'');
                if sys.catalog.sets.contains_key(&k) {
                    0
                } else {
                    12
                }
            },
            None => 12,
        },
        _ => 12,
    }
}

/// DEFINE/REPRO/LISTCAT land here later; IDCAMS always ends with 0.
fn idcams(_step: &Step, _sys: &mut System) -> (rc: i32)
    ensures
        rc == 0,
        *final(_sys) == *old(_sys),
{
    0
}

pub fn run_step(step: &Step, sys: &mut System) -> (rc: i32)
    ensures
        rc == step_rc(step@, old(sys).catalog.sets@.dom()),
        *final(sys) == *old(sys),
{
    let p = text::chars_of(step.pgm.as_str());
    let u = text::upper_vec(&p);
    if text::eq_str(&u, "IEFBR14") {
        0
    } else if text::eq_str(&u, "IEBGENER") {
        iebgener(step, sys)
    } else if text::eq_str(&u, "IDCAMS") {
        idcams(step, sys)
    } else {
        12
    }
}

pub fn run_job(job: &Job, sys: &mut System) -> (rc: i32)
    ensures
        rc == job_rc(job@.steps, old(sys).catalog.sets@.dom()),
        forall|i: int|
            0 <= i < job@.steps.len() ==> rc >= #[trigger] step_rc(
                job@.steps[i],
                old(sys).catalog.sets@.dom(),
            ),
        job@.steps.len() > 0 ==> exists|i: int|
            0 <= i < job@.steps.len() && rc == #[trigger] step_rc(
                job@.steps[i],
                old(sys).catalog.sets@.dom(),
            ),
        *final(sys) == *old(sys),
{
    proof {
        lemma_job_rc_is_highest(job@.steps, sys.catalog.sets@.dom());
    }
    let ghost steps = job@.steps;
    let ghost sets = sys.catalog.sets@.dom();
    let mut rc: i32 = 0;
    let mut i: usize = 0;
    while i < job.steps.len()
        invariant
            i <= job.steps@.len(),
            steps == job@.steps,
            sets == sys.catalog.sets@.dom(),
            *sys == *old(sys),
            rc == job_rc(steps.take(i as int), sets),
        decreases job.steps.len() - i,
    {
        let r = run_step(&job.steps[i], sys);
        proof {
            assert(steps.take(i + 1).drop_last() =~= steps.take(i as int));
            assert(steps.take(i + 1).last() == job.steps@[i as int]@);
        }
        if i == 0 || r > rc {
            rc = r;
        }
        i += 1;
    }
    assert(steps.take(job.steps.len() as int) =~= steps);
    rc
}

// ---------------------------------------------------------------------------
// The spool
// ---------------------------------------------------------------------------

pub struct SpoolEntry {
    pub job: Job,
    pub rc: i32,
    pub sysout: Vec<(String, String)>,
}

pub struct Spool {
    pub jobs: Vec<SpoolEntry>,
    next_id: u32,
}

impl Spool {
    /// The last job number handed out (0 before the first).
    pub closed spec fn last_id(&self) -> u32 {
        self.next_id
    }

    /// The spooled jobs, oldest first.
    pub closed spec fn queue(&self) -> Seq<SpoolEntry> {
        self.jobs@
    }

    pub fn new() -> (s: Self)
        ensures
            s.queue() == Seq::<SpoolEntry>::empty(),
            s.last_id() == 0,
    {
        Spool { jobs: Vec::new(), next_id: 0 }
    }

    /// The last job number handed out (0 before the first).
    pub fn last_job_id(&self) -> (n: u32)
        ensures
            n == self.last_id(),
    {
        self.next_id
    }

    fn next_job_id(&mut self) -> (id: u32)
        requires
            old(self).last_id() < u32::MAX,
        ensures
            id == old(self).last_id() + 1,
            final(self).last_id() == id,
            final(self).queue() == old(self).queue(),
    {
        self.next_id += 1;
        self.next_id
    }
}

impl Default for Spool {
    fn default() -> (s: Self)
        ensures
            s.queue() == Seq::<SpoolEntry>::empty(),
            s.last_id() == 0,
    {
        Spool::new()
    }
}

/// What a SUBMIT operand names: a dataset, and a member when written `DSN(MEM)`.
pub open spec fn source_name(spec: Seq<char>) -> (Seq<char>, Option<Seq<char>>) {
    let s = text::trim_char(text::trim(spec), '\'');
    match text::split_once(s, '(') {
        Some((d, r)) => (d, Some(text::trim_end_char(r, ')'))),
        None => (s, None),
    }
}

/// The records, as text joined by newlines.
pub open spec fn records_text(rs: Seq<Vec<u8>>) -> Seq<char> {
    text::join(rs.map_values(|r: Vec<u8>| text::lossy_text(r@)), "\n"@)
}

/// The JCL text that a SUBMIT operand names: a sequential dataset, or a member of
/// a partitioned one.
pub open spec fn read_source_spec(spec: Seq<char>, sets: Map<Seq<char>, crate::wopr_core::dataset::DataSet>) -> Option<Seq<char>> {
    let (name, member) = source_name(spec);
    if !sets.contains_key(name) {
        None
    } else {
        match (sets[name].content, member) {
            (DsContent::Pds(m), Some(mem)) => if m@.contains_key(mem) {
                Some(records_text(m@[mem]@))
            } else {
                None
            },
            (DsContent::Sequential(r), None) => Some(records_text(r@)),
            _ => None,
        }
    }
}

fn records_to_text(rs: &Vec<Vec<u8>>) -> (r: String)
    ensures
        r@ == records_text(rs@),
{
    let mut parts: Vec<Vec<char>> = Vec::new();
    let mut i: usize = 0;
    while i < rs.len()
        invariant
            i <= rs@.len(),
            parts@.map_values(|w: Vec<char>| w@) =~= rs@.take(i as int).map_values(
                |r: Vec<u8>| text::lossy_text(r@),
            ),
        decreases rs.len() - i,
    {
        let t = text::from_utf8_lossy(rs[i].as_slice());
        let tv = text::chars_of(t.as_str());
        let ghost before = parts@;
        parts.push(tv);
        proof {
            assert(rs@.take(i + 1) =~= rs@.take(i as int).push(rs@[i as int]));
            assert(rs@.take(i + 1).map_values(|r: Vec<u8>| text::lossy_text(r@)) =~= rs@.take(
                i as int,
            ).map_values(|r: Vec<u8>| text::lossy_text(r@)).push(text::lossy_text(rs@[i as int]@)));
            assert(parts@.map_values(|w: Vec<char>| w@) =~= before.map_values(|w: Vec<char>| w@).push(
                tv@,
            ));
        }
        i += 1;
    }
    assert(rs@.take(rs@.len() as int) =~= rs@);
    let j = text::join_vec(&parts, "\n");
    text::string_of(&j)
}

fn read_source(sys: &System, spec: &str) -> (r: Option<String>)
    ensures
        match r {
            Some(s) => read_source_spec(spec@, sys.catalog.sets@) == Some(s@),
            None => read_source_spec(spec@, sys.catalog.sets@) is None,
        },
{
    let t = text::trim_str(spec);
    let s = text::trim_char_vec(&t, '\'');
    let (name, member) = match text::split_once_vec(&s, '(') {
        Some((d, r)) => (d, Some(text::trim_end_char_vec(&r, ')'))),
        None => (s, None),
    };
    let ds = match sys.catalog.sets.get(&name) {
        Some(ds) => ds,
        None => {
            return None;
        },
    };
    match (&ds.content, &member) {
        (DsContent::Pds(m), Some(mem)) => match m.get(mem) {
            Some(recs) => Some(records_to_text(recs)),
            None => None,
        },
        (DsContent::Sequential(r), None) => Some(records_to_text(r)),
        _ => None,
    }
}

/// The JESMSGLG line of a finished job.
pub open spec fn job_line(id: u32, name: Seq<char>, rc: i32) -> Seq<char> {
    "JOB"@ + text::pad_zero(text::dec(id as nat), 5) + " "@ + text::pad_right(name, 8) + " "@
        + text::pad_right("IBMUSER"@, 8) + " RC="@ + text::dec_signed_pad(rc as int, 4) + "\r\n"@
}

/// Whether SUBMIT of `args` gets as far as giving the job a number.
pub open spec fn submit_numbers_job(args: Seq<char>, sys: System) -> bool {
    match read_source_spec(args, sys.catalog.sets@) {
        Some(src) => parse_jcl_spec(src) is Ok,
        None => false,
    }
}

/// Whether SUBMIT of `args` would give the job a number.
pub fn would_number(args: &str, sys: &System) -> (r: bool)
    ensures
        r == submit_numbers_job(args@, *sys),
{
    match read_source(sys, args) {
        Some(src) => parse_jcl(src.as_str()).is_ok(),
        None => false,
    }
}

/// The SUBMIT reply.
pub open spec fn submit_reply(args: Seq<char>, sys: System) -> Seq<char> {
    match read_source_spec(args, sys.catalog.sets@) {
        None => "IKJ56250I DATA SET "@ + text::trim(args) + " NOT FOUND\r\n"@,
        Some(src) => match parse_jcl_spec(src) {
            Err(_) => "IEFC001I INVALID JCL: "@ + "no EXEC steps found"@ + "\r\n"@,
            Ok(job) => job_line(
                (sys.spool.last_id() + 1) as u32,
                job.name,
                job_rc(job.steps, sys.catalog.sets@.dom()),
            ),
        },
    }
}

/// `s1` is `s0` after SUBMIT of `args` replied `r`: only the spool changes, and
/// only when the job got a number, by one entry for it.
/// The detail of a job-submit event: the job's number and name.
pub open spec fn submit_event_fields(id: u32, name: Seq<char>) -> Seq<(Seq<char>, Seq<char>)> {
    seq![("jobid"@, "JOB"@ + text::pad_zero(text::dec(id as nat), 5)), ("jobname"@, name)]
}

pub open spec fn submitted(args: Seq<char>, s0: System, s1: System, r: Seq<char>, now: i64) -> bool {
    &&& r == submit_reply(args, s0)
    &&& s1.racf == s0.racf
    &&& s1.catalog == s0.catalog
    &&& s1.services == s0.services
    &&& !submit_numbers_job(args, s0) ==> s1.spool == s0.spool && s1.audit == s0.audit
    &&& submit_numbers_job(args, s0) ==> {
        &&& audit::recorded(
            s0.audit,
            s1.audit,
            EventKind::JobSubmit,
            "IBMUSER"@,
            submit_event_fields(s1.spool.last_id(), s1.spool.queue().last().job.name@),
            now,
        )
        &&& s1.spool.last_id() == s0.spool.last_id() + 1
        &&& s1.spool.queue().len() == s0.spool.queue().len() + 1
        &&& s1.spool.queue().drop_last() == s0.spool.queue()
        &&& ({
            let e = s1.spool.queue().last();
            let job = parse_jcl_spec(read_source_spec(args, s0.catalog.sets@)->Some_0)->Ok_0;
            &&& e.job@ == JobView { id: s1.spool.last_id(), ..job }
            &&& e.rc == job_rc(job.steps, s0.catalog.sets@.dom())
            &&& e.sysout@.map_values(|p: (String, String)| (p.0@, p.1@)) == seq![("JESMSGLG"@, r)]
        })
    }
}

/// SUBMIT a job from a dataset: parse its JCL, number it, run it, queue its
/// output on the spool, and record a job-submit event stamped `now`.
pub fn submit(args: &str, sys: &mut System, now: i64) -> (r: String)
    requires
        submit_numbers_job(args@, *old(sys)) ==> old(sys).spool.last_id() < u32::MAX,
    ensures
        submitted(args@, *old(sys), *final(sys), r@, now),
{
    let src = match read_source(sys, args) {
        Some(s) => s,
        None => {
            let mut out: Vec<char> = Vec::new();
            text::push_str(&mut out, "IKJ56250I DATA SET ");
            let a = text::trim_str(args);
            text::push_chars(&mut out, &a);
            text::push_str(&mut out, " NOT FOUND\r\n");
            return text::string_of(&out);
        },
    };
    let mut job = match parse_jcl(src.as_str()) {
        Ok(j) => j,
        Err(e) => {
            let mut out: Vec<char> = Vec::new();
            text::push_str(&mut out, "IEFC001I INVALID JCL: ");
            text::push_str(&mut out, e.message());
            text::push_str(&mut out, "\r\n");
            return text::string_of(&out);
        },
    };
    let ghost sys0 = *sys;
    job.id = sys.spool.next_job_id();
    let rc = run_job(&job, sys);
    let mut out: Vec<char> = Vec::new();
    text::push_str(&mut out, "JOB");
    let idv = text::fmt_dec_pad(job.id as u64, 5);
    text::push_chars(&mut out, &idv);
    text::push_str(&mut out, " ");
    let nv = text::chars_of(job.name.as_str());
    let nv = text::pad_right_vec(&nv, 8);
    text::push_chars(&mut out, &nv);
    text::push_str(&mut out, " ");
    let ow = text::chars_of("IBMUSER");
    let ow = text::pad_right_vec(&ow, 8);
    text::push_chars(&mut out, &ow);
    text::push_str(&mut out, " RC=");
    let rcv = text::fmt_signed_pad(rc, 4);
    text::push_chars(&mut out, &rcv);
    text::push_str(&mut out, "\r\n");
    let line = text::string_of(&out);
    let mut sysout: Vec<(String, String)> = Vec::new();
    sysout.push((String::from_str("JESMSGLG"), line.clone()));
    assert(sysout@.map_values(|p: (String, String)| (p.0@, p.1@)) =~= seq![("JESMSGLG"@, line@)]);
    let mut jid: Vec<char> = Vec::new();
    text::push_str(&mut jid, "JOB");
    text::push_chars(&mut jid, &idv);
    let mut fields: Vec<(String, String)> = Vec::new();
    fields.push((String::from_str("jobid"), text::string_of(&jid)));
    fields.push((String::from_str("jobname"), job.name.clone()));
    assert(audit::pairs_view(fields@) =~= submit_event_fields(job.id, job.name@));
    sys.audit.record(SmfEvent::now(EventKind::JobSubmit, "IBMUSER", Detail::Object(fields), now));
    let ghost before = sys.spool.jobs@;
    sys.spool.jobs.push(SpoolEntry { job, rc, sysout });
    assert(sys.spool.jobs@.drop_last() =~= before);
    line
}

/// One SDSF status line.
pub open spec fn st_line(e: SpoolEntry) -> Seq<char> {
    text::pad_right(e.job.name@, 8) + " JOB"@ + text::pad_zero(text::dec(e.job.id as nat), 5) + " "@
        + text::pad_right("IBMUSER"@, 8) + " "@ + text::dec_signed_pad(e.rc as int, 4) + "\r\n"@
}

pub open spec fn st_lines(es: Seq<SpoolEntry>) -> Seq<char>
    decreases es.len(),
{
    if es.len() == 0 {
        seq![]
    } else {
        st_lines(es.drop_last()) + st_line(es.last())
    }
}

/// The SDSF ST reply: every spooled job, or a note that the queue is empty.
pub open spec fn sdsf_st_spec(jobs: Seq<SpoolEntry>) -> Seq<char> {
    if jobs.len() == 0 {
        "NO JOBS ON OUTPUT QUEUE\r\n"@
    } else {
        "JOBNAME  JOBID    OWNER    RC\r\n"@ + st_lines(jobs)
    }
}

fn st_line_exec(e: &SpoolEntry) -> (r: Vec<char>)
    ensures
        r@ == st_line(*e),
{
    let mut out: Vec<char> = Vec::new();
    let nv = text::chars_of(e.job.name.as_str());
    let nv = text::pad_right_vec(&nv, 8);
    text::push_chars(&mut out, &nv);
    text::push_str(&mut out, " JOB");
    let idv = text::fmt_dec_pad(e.job.id as u64, 5);
    text::push_chars(&mut out, &idv);
    text::push_str(&mut out, " ");
    let ow = text::chars_of("IBMUSER");
    let ow = text::pad_right_vec(&ow, 8);
    text::push_chars(&mut out, &ow);
    text::push_str(&mut out, " ");
    let rcv = text::fmt_signed_pad(e.rc, 4);
    text::push_chars(&mut out, &rcv);
    text::push_str(&mut out, "\r\n");
    out
}

pub fn sdsf_st(sys: &System) -> (r: String)
    ensures
        r@ == sdsf_st_spec(sys.spool.queue()),
{
    let jobs = &sys.spool.jobs;
    let mut out: Vec<char> = Vec::new();
    if jobs.len() == 0 {
        text::push_str(&mut out, "NO JOBS ON OUTPUT QUEUE\r\n");
        return text::string_of(&out);
    }
    text::push_str(&mut out, "JOBNAME  JOBID    OWNER    RC\r\n");
    let ghost head = out@;
    let mut i: usize = 0;
    while i < jobs.len()
        invariant
            i <= jobs@.len(),
            out@ == head + st_lines(jobs@.take(i as int)),
        decreases jobs.len() - i,
    {
        let l = st_line_exec(&jobs[i]);
        text::push_chars(&mut out, &l);
        assert(jobs@.take(i + 1).drop_last() =~= jobs@.take(i as int));
        i += 1;
    }
    assert(jobs@.take(jobs.len() as int) =~= jobs@);
    text::string_of(&out)
}

} // verus!
