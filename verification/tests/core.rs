use wopr::wopr_core::audit::{Audit, Detail, EventKind, SmfEvent};
use wopr::wopr_core::cics::Cics;
use wopr::wopr_core::dataset::{listcat, listds, Dcb, DsContent, DsOrg, RecFm};
use wopr::wopr_core::db2::Db2;
use wopr::wopr_core::drda::handle_drda;
use wopr::wopr_core::jes::{parse_jcl, run_job, sdsf_st, submit, JclError};
use wopr::wopr_core::logon::LogonState;
use wopr::wopr_core::omvs::Omvs;
use wopr::wopr_core::racf::{Logon, Racf};
use wopr::wopr_core::scenario::{
    build_system, guest_is_over_privileged, Mode, Scenario, ServiceToggles, UserSpec, Weaknesses,
};
use wopr::wopr_core::selector::Selector;
use wopr::wopr_core::session::{Env, Environment, Reply, SessionCtx};
use wopr::wopr_core::system::System;
use wopr::wopr_core::tso::Tso;

/// 12:34:56 UTC on a day in 2023.
const NOW: i64 = 86_400 * 19_700 + 45_296;

fn text_of(r: Reply) -> String {
    match r {
        Reply::Text(t) => t,
        _ => panic!("expected a text reply"),
    }
}

#[test]
fn events_render_in_order() {
    let mut a = Audit::new(64);
    a.record(SmfEvent::now(
        EventKind::LogonFail,
        "GUEST",
        Detail::Object(vec![("reason".to_string(), "BadPassword".to_string())]),
        NOW,
    ));
    a.record(SmfEvent::now(EventKind::LogonOk, "IBMUSER", Detail::Object(vec![]), NOW + 1));
    let out = a.render_recent(10);
    let (fail, ok) = (out.find("LogonFail").unwrap(), out.find("LogonOk").unwrap());
    assert!(fail < ok); // oldest first
}

#[test]
fn audit_detail_is_json_text() {
    let mut a = Audit::new(4);
    a.record(SmfEvent::now(
        EventKind::LogonFail,
        "GUEST",
        Detail::Object(vec![("reason".to_string(), "BadPassword".to_string())]),
        NOW,
    ));
    let out = a.render_recent(1);
    assert_eq!(
        out,
        "TIME       KIND        USER     DETAIL\r\n12:34:56   LogonFail   GUEST    {\"reason\":\"BadPassword\"}\r\n"
    );
}

#[test]
fn audit_keeps_only_capacity_events() {
    let mut a = Audit::new(2);
    for u in ["A", "B", "C"] {
        a.record(SmfEvent::now(EventKind::PrivUse, u, Detail::Null, NOW));
    }
    let out = a.render_recent(10);
    assert!(!out.contains("PrivUse     A "));
    assert!(out.contains("PrivUse     B "));
    assert!(out.contains("PrivUse     C "));
    let last = a.render_recent(1);
    assert!(!last.contains(" B "));
    assert!(last.contains(" C "));
}

#[test]
fn audit_capacity_zero_keeps_all() {
    let mut a = Audit::new(0);
    for u in ["A", "B", "C"] {
        a.record(SmfEvent::now(EventKind::DsAccess, u, Detail::Null, NOW));
    }
    let out = a.render_recent(10);
    assert!(out.contains(" A ") && out.contains(" B ") && out.contains(" C "));
}

#[test]
fn event_time_is_stamped() {
    let e = SmfEvent::now(EventKind::LogonOk, "IBMUSER", Detail::Null, NOW);
    assert_eq!(e.ts, NOW);
    let mut a = Audit::new(1);
    a.record(SmfEvent::now(EventKind::LogonOk, "IBMUSER", Detail::Null, -1));
    assert!(a.render_recent(1).contains("23:59:59   LogonOk     IBMUSER  \r\n"));
}

#[test]
fn signon_gates_transactions() {
    let mut cics = Cics::new();
    assert!(cics.signed_on_user().is_none());
    cics.handle("CESN", "IBMUSER SYS1", &mut System::default()); // signon
    assert_eq!(cics.signed_on_user().as_deref(), Some("IBMUSER"));
    // an unknown transid replies in character rather than panicking:
    let screen = cics.handle("ZZZZ", "", &mut System::default());
    assert!(screen.contains_text("DFHAC2001")); // "transaction ZZZZ not recognized"
}

#[test]
fn cics_gated_before_signon_and_after_signoff() {
    let mut sys = System::default();
    let mut cics = Cics::new();
    assert!(cics.handle("CEMT", "", &mut sys).contains_text("DFHAC2002"));
    assert!(cics.handle("CESN", "IBMUSER WRONG", &mut sys).contains_text("DFHCE3504"));
    assert!(cics.handle("CESN", "IBMUSER", &mut sys).contains_text("DFHCE3520"));
    assert!(cics.handle("cesn", "ibmuser SYS1", &mut sys).contains_text("DFHCE3548"));
    assert!(cics.handle("CECI", "", &mut sys).contains_text("CECI  Command-level"));
    assert!(cics.handle("CESF", "", &mut sys).contains_text("DFHCE3549"));
    assert!(cics.signed_on_user().is_none());
    assert!(cics.handle("CEMT", "", &mut sys).contains_text("DFHAC2002"));
}

#[test]
fn golden_dataset_dcb() {
    let sys = System::default(); // seeds IBMUSER.CUST.DATA as FB/80
    let out = listds("'IBMUSER.CUST.DATA'", &sys);
    assert!(out.contains("RECFM=Fb") && out.contains("LRECL=80"));
    assert!(listds("NO.SUCH.DSN", &sys).contains("IKJ58503I"));

    // one 80-byte FB record: known head bytes, EBCDIC-space tail, no translation
    let ds = sys.catalog.sets.get_str("IBMUSER.CUST.DATA").unwrap();
    match &ds.content {
        DsContent::Sequential(recs) => {
            assert_eq!(recs.len(), 1);
            assert_eq!(recs[0].len(), 80);
            assert_eq!(&recs[0][0..5], &[0xF0, 0xF0, 0xF0, 0xF0, 0xF1]); // "00001"
            assert!(recs[0][30..].iter().all(|&b| b == 0x40)); // trailing spaces
        }
        _ => panic!("expected sequential dataset"),
    }
}

#[test]
fn listds_reply_lines() {
    let sys = System::default();
    assert_eq!(
        listds("'IBMUSER.CUST.DATA'", &sys),
        "IBMUSER.CUST.DATA\r\n RECFM=Fb  LRECL=80  BLKSIZE=800  DSORG=Ps\r\n"
    );
    assert!(listcat(&sys).contains("IBMUSER.CUST.DATA"));
}

#[test]
fn select_systables() {
    let db2 = Db2::new();
    let out = db2.run_sql("SELECT NAME FROM SYSIBM.SYSTABLES");
    assert!(out.contains("SYSTABLES")); // the catalog lists itself
}

#[test]
fn db2_replies() {
    let db2 = Db2::new();
    let out = db2.run_sql("select name from sysibm.systables");
    assert!(out.starts_with("NAME        CREATOR\r\n"));
    assert!(out.contains("ACCOUNT     IBMUSER\r\n"));
    assert!(out.ends_with("DSNE610I NUMBER OF ROWS DISPLAYED IS 4\r\n"));
    assert_eq!(db2.run_sql("SELECT * FROM X"), "DSNE610I NUMBER OF ROWS DISPLAYED IS 0\r\n");
    assert_eq!(db2.run_sql("DELETE FROM X"), "DSNE104I ONLY SELECT IS SUPPORTED IN THIS SIM\r\n");
    assert_eq!(
        db2.run_sql("DELETE FROM SYSIBM.SYSTABLES"),
        "DSNE104I ONLY SELECT IS SUPPORTED IN THIS SIM\r\n"
    );
}

#[test]
fn db2_grant_then_show_privs() {
    let (mut sys, mut ctx, mut db2) = (System::default(), SessionCtx::default(), Db2::new());
    assert_eq!(text_of(db2.on_line("SHOW PRIVS", &mut sys, &mut ctx)), "NO GRANTS\r\n");
    assert_eq!(
        text_of(db2.on_line("GRANT SELECT ON ACCOUNT TO GUEST", &mut sys, &mut ctx)),
        "DSNE616I GRANT COMPLETE\r\n"
    );
    assert_eq!(
        text_of(db2.on_line("SHOW PRIVS", &mut sys, &mut ctx)),
        "GRANT SELECT ON ACCOUNT TO GUEST\r\n"
    );
    assert!(text_of(db2.on_line("GRANT SELECT ON X", &mut sys, &mut ctx)).contains("USAGE"));
    assert!(text_of(db2.on_line("SHOW TABLES", &mut sys, &mut ctx)).contains("SYSIBM.SYSTABLES\r\n"));
    assert!(matches!(db2.on_line("END", &mut sys, &mut ctx), Reply::Disconnect));
}

fn sample_excsat() -> Vec<u8> {
    // minimal DSS carrying an EXCSAT (0x1041) code point
    vec![0x00, 0x0A, 0xD0, 0x01, 0x00, 0x01, 0x00, 0x04, 0x10, 0x41]
}

#[test]
fn excsat_gets_a_reply() {
    let reply = handle_drda(&sample_excsat()).expect("EXCSAT should be answered");
    assert!(reply.windows(4).any(|w| w == b"WOPR")); // SRVNAM present
}

#[test]
fn excsat_reply_bytes() {
    let reply = handle_drda(&sample_excsat()).unwrap();
    assert_eq!(
        reply,
        vec![0x00, 0x12, 0xD0, 0x01, 0x00, 0x01, 0x00, 0x0C, 0x14, 0x43, 0x00, 0x08, 0x11, 0x6D, b'W', b'O', b'P', b'R']
    );
    assert!(handle_drda(&[0x00, 0x04, 0xD0, 0x01]).is_none());
    assert!(handle_drda(&[]).is_none());
}

const RUNIT: &str = "//RUNIT JOB (ACCT),'DEMO',CLASS=A\n\
                     //STEP1 EXEC PGM=IEBGENER\n\
                     //SYSUT1 DD DSN=IBMUSER.CUST.DATA,DISP=SHR\n\
                     //SYSUT2 DD SYSOUT=*\n//SYSIN DD DUMMY\n";

#[test]
fn iebgener_runs_rc0() {
    let job = parse_jcl(RUNIT).expect("parse");
    assert_eq!(job.steps.len(), 1);
    let mut sys = System::default();
    assert_eq!(run_job(&job, &mut sys), 0);
}

#[test]
fn jcl_without_steps_is_rejected() {
    assert!(matches!(parse_jcl("//ONLY JOB (ACCT)\n"), Err(JclError::NoSteps)));
    assert_eq!(JclError::NoSteps.message(), "no EXEC steps found");
}

#[test]
fn iebgener_on_missing_input_fails() {
    let src = "//J JOB\n//S EXEC PGM=IEBGENER\n//SYSUT1 DD DSN=NO.SUCH.DSN,DISP=SHR\n";
    let job = parse_jcl(src).unwrap();
    let mut sys = System::default();
    assert_ne!(run_job(&job, &mut sys), 0);
}

#[test]
fn seeded_catalog_holds_the_jcl_library() {
    let sys = System::default();
    let lib = sys.catalog.sets.get_str("IBMUSER.JCL").unwrap();
    assert_eq!(lib.dsorg, DsOrg::Po);
    assert_eq!(lib.dcb, Dcb { recfm: RecFm::Fb, lrecl: 80, blksize: 800 });
    match &lib.content {
        DsContent::Pds(m) => {
            let recs = m.get_str("RUNIT").unwrap();
            assert_eq!(recs.len(), 5);
            assert!(recs.iter().all(|r| r.len() == 80));
            assert!(recs[0].starts_with(b"//RUNIT JOB (ACCT),'DEMO',CLASS=A   "));
        }
        _ => panic!("expected a partitioned dataset"),
    }
    assert_eq!(listcat(&sys), "NONVSAM ------- IBMUSER.CUST.DATA\r\nNONVSAM ------- IBMUSER.JCL\r\n");
}

#[test]
fn readme_quick_start_submit() {
    let mut sys = System::default();
    assert_eq!(submit("'IBMUSER.JCL(RUNIT)'", &mut sys, NOW), "JOB00001 RUNIT    IBMUSER  RC=0000\r\n");
    assert_eq!(sys.spool.jobs.len(), 1);
}

#[test]
fn submit_numbers_jobs_in_turn() {
    let mut sys = System::default();
    assert_eq!(sdsf_st(&sys), "NO JOBS ON OUTPUT QUEUE\r\n");
    assert_eq!(submit("'IBMUSER.JCL(RUNIT)'", &mut sys, NOW), "JOB00001 RUNIT    IBMUSER  RC=0000\r\n");
    assert_eq!(submit("'IBMUSER.JCL(RUNIT)'", &mut sys, NOW), "JOB00002 RUNIT    IBMUSER  RC=0000\r\n");
    assert_eq!(sys.spool.last_job_id(), 2);
    assert_eq!(
        sdsf_st(&sys),
        "JOBNAME  JOBID    OWNER    RC\r\nRUNIT    JOB00001 IBMUSER  0000\r\nRUNIT    JOB00002 IBMUSER  0000\r\n"
    );
    let ev = sys.audit.render_recent(10);
    assert!(ev.contains("12:34:56   JobSubmit   IBMUSER  {\"jobid\":\"JOB00001\",\"jobname\":\"RUNIT\"}\r\n"));
}

#[test]
fn submit_of_missing_dataset() {
    let mut sys = System::default();
    assert_eq!(
        submit(" 'IBMUSER.JCL(NOPE)' ", &mut sys, NOW),
        "IKJ56250I DATA SET 'IBMUSER.JCL(NOPE)' NOT FOUND\r\n"
    );
    assert_eq!(
        submit("'IBMUSER.CUST.DATA(RUNIT)'", &mut sys, NOW),
        "IKJ56250I DATA SET 'IBMUSER.CUST.DATA(RUNIT)' NOT FOUND\r\n"
    );
    assert_eq!(sys.spool.last_job_id(), 0);
}

#[test]
fn id_reflects_racf_uid() {
    let user = Racf::seed_defaults().users.get_str("IBMUSER").unwrap().clone();
    let mut sh = Omvs::new(&user);
    assert!(sh.run("pwd").contains("/u/ibmuser"));
    assert!(sh.run("id").contains("uid=")); // mapped from RACF, not invented per call
}

#[test]
fn omvs_commands() {
    let user = Racf::seed_defaults().users.get_str("IBMUSER").unwrap().clone();
    let mut sh = Omvs::new(&user);
    assert_eq!(sh.run("id"), "uid=0(ibmuser) gid=1(GROUP)\r\n");
    assert_eq!(sh.run("whoami"), "ibmuser\r\n");
    assert_eq!(sh.run("ls"), "readme.txt  hello.sh\r\n");
    assert_eq!(sh.run("cd .."), "");
    assert_eq!(sh.run("pwd"), "/u\r\n");
    assert_eq!(sh.run("cd /nowhere"), "cd: /nowhere: No such directory\r\n");
    assert_eq!(sh.run("cd"), "");
    assert_eq!(sh.run("pwd"), "/\r\n");
    assert_eq!(sh.run("ls"), "u  bin  etc\r\n");
    assert_eq!(sh.run("cat readme.txt"), "(contents of readme.txt)\r\n");
    assert_eq!(sh.run("cat"), "cat: missing operand\r\n");
    assert_eq!(sh.run("echo  hi   there"), "hi there\r\n");
    assert_eq!(sh.run("frob"), "frob: command not found\r\n");
    assert_eq!(sh.run("   "), "");
}

#[test]
fn omvs_uid_of_other_users() {
    let user = Racf::seed_defaults().users.get_str("GUEST").unwrap().clone();
    let mut sh = Omvs::new(&user);
    // G+U+E+S+T = 71+85+69+83+84 = 392 -> 100 + 392 % 900
    assert_eq!(sh.run("id"), "uid=492(guest) gid=1(GROUP)\r\n");
}

#[test]
fn logon_paths() {
    let racf = Racf::seed_defaults();
    assert!(matches!(racf.verify("ibmuser", "SYS1"), Logon::Accepted(_))); // case-folded
    assert!(matches!(racf.verify("IBMUSER", "nope"), Logon::BadPassword));
    assert!(matches!(racf.verify("NOBODY", "x"), Logon::NoUser));
}

#[test]
fn profile_line_text() {
    let racf = Racf::seed_defaults();
    let u = racf.users.get_str("IBMUSER").unwrap();
    assert_eq!(u.profile_line(), "IKJ56455I IBMUSER LOGON IN PROGRESS\r\n DEFAULT-GROUP=SYS1\r\n");
}

fn guest_scenario(mode: Mode) -> Scenario {
    Scenario {
        mode,
        hostname: "WOPR".to_string(),
        users: vec![UserSpec { userid: "GUEST".to_string(), password: "GUEST".to_string(), attributes: vec![] }],
        services: ServiceToggles::default(),
        weaknesses: Weaknesses { guest_over_privileged: true, ..Weaknesses::default() },
    }
}

#[test]
fn weaknesses_ignored_unless_training() {
    // secure mode: the flag is present in the file but must NOT take effect
    assert!(!guest_is_over_privileged(&build_system(guest_scenario(Mode::Secure))));
    // flip only the mode: same weakness now applies
    assert!(guest_is_over_privileged(&build_system(guest_scenario(Mode::Training))));
}

#[test]
fn listuser_shows_the_posture() {
    let racf = Racf::seed_defaults();
    let mut tso = Tso::new(racf.users.get_str("IBMUSER").unwrap().clone());
    let mut ctx = SessionCtx::default();
    let mut secure = build_system(guest_scenario(Mode::Secure));
    assert!(text_of(tso.on_line("LISTUSER GUEST", &mut secure, &mut ctx)).contains("ATTRIBUTES=NONE\r\n"));
    let mut training = build_system(guest_scenario(Mode::Training));
    assert!(text_of(tso.on_line("LISTUSER guest", &mut training, &mut ctx))
        .contains("ATTRIBUTES=OPERATIONS\r\n"));
}

#[test]
fn selector_routes() {
    let (mut sys, mut ctx, mut sel) = (System::default(), SessionCtx::default(), Selector);
    // L TSO switches into the logon panel:
    assert!(matches!(sel.on_line("L TSO", &mut sys, &mut ctx), Reply::Switch(Env::TsoLogon(_))));
    // unknown applids are still rejected in character:
    match sel.on_line("L IMS", &mut sys, &mut ctx) {
        Reply::Text(t) => assert!(t.contains("DFS3649E")),
        _ => panic!("expected rejection"),
    }
}

#[test]
fn selector_other_routes() {
    let (mut sys, mut ctx, mut sel) = (System::default(), SessionCtx::default(), Selector);
    assert!(matches!(sel.on_line("l cics", &mut sys, &mut ctx), Reply::Switch(Env::Cics(_))));
    assert!(matches!(sel.on_line("L DB2", &mut sys, &mut ctx), Reply::Switch(Env::Db2(_))));
    assert_eq!(
        text_of(sel.on_line("HELLO", &mut sys, &mut ctx)),
        "ENTER 'L TSO', 'L CICS' OR 'L DB2'\r\n"
    );
    assert_eq!(sel.prompt(), "Logon Type: ");
}

#[test]
fn unknown_command_and_listuser() {
    let racf = Racf::seed_defaults();
    let mut tso = Tso::new(racf.users.get_str("IBMUSER").unwrap().clone());
    let (mut sys, mut ctx) = (System::default(), SessionCtx::default());
    match tso.on_line("FOOBAR", &mut sys, &mut ctx) {
        Reply::Text(t) => assert!(t.contains("IKJ56500I")),
        _ => panic!(),
    }
    match tso.on_line("LISTUSER IBMUSER", &mut sys, &mut ctx) {
        Reply::Text(t) => assert!(t.contains("ATTRIBUTES=SPECIAL")),
        _ => panic!(),
    }
}

#[test]
fn tso_commands() {
    let racf = Racf::seed_defaults();
    let mut tso = Tso::new(racf.users.get_str("IBMUSER").unwrap().clone());
    let (mut sys, mut ctx) = (System::default(), SessionCtx::default());
    assert_eq!(tso.prompt(), "READY\r\n");
    assert_eq!(text_of(tso.on_line("", &mut sys, &mut ctx)), "");
    assert_eq!(text_of(tso.on_line("foobar x", &mut sys, &mut ctx)), "IKJ56500I COMMAND FOOBAR NOT FOUND\r\n");
    assert!(text_of(tso.on_line("help", &mut sys, &mut ctx)).starts_with("IKJ56650I ENTER HELP"));
    assert!(text_of(tso.on_line("LISTUSER NOBODY", &mut sys, &mut ctx)).contains("IKJ56712I INVALID USERID, NOBODY"));
    assert!(matches!(tso.on_line("OMVS", &mut sys, &mut ctx), Reply::Switch(Env::Omvs(_))));
    assert!(matches!(tso.on_line("LOGOFF", &mut sys, &mut ctx), Reply::Disconnect));
}

#[test]
fn logon_records_audit_events() {
    let (mut sys, mut ctx) = (System::default(), SessionCtx::default());
    let mut st = LogonState::default();
    assert_eq!(st.prompt(), "USERID: ");
    assert_eq!(text_of(st.on_line("GUEST", &mut sys, &mut ctx)), "");
    assert_eq!(st.prompt(), "PASSWORD: ");
    assert_eq!(
        text_of(st.on_line("WRONG", &mut sys, &mut ctx)),
        "IKJ56420I USERID OR PASSWORD INVALID\r\n"
    );
    assert_eq!(text_of(st.on_line("IBMUSER", &mut sys, &mut ctx)), "");
    assert!(matches!(st.on_line("SYS1", &mut sys, &mut ctx), Reply::Switch(Env::Tso(_))));
    assert_eq!(ctx.user.as_deref(), Some("IBMUSER"));
    let ev = sys.audit.render_recent(20);
    let (fail, ok) = (ev.find("LogonFail   GUEST").unwrap(), ev.find("LogonOk     IBMUSER").unwrap());
    assert!(fail < ok);
}

#[test]
fn omvs_exit_returns_to_tso() {
    let user = Racf::seed_defaults().users.get_str("IBMUSER").unwrap().clone();
    let (mut sys, mut ctx) = (System::default(), SessionCtx::default());
    let mut sh = Omvs::new(&user);
    assert_eq!(sh.prompt(), "$ ");
    assert_eq!(text_of(sh.on_line("pwd", &mut sys, &mut ctx)), "/u/ibmuser\r\n");
    assert!(matches!(sh.on_line(" exit ", &mut sys, &mut ctx), Reply::Switch(Env::Tso(_))));
}
