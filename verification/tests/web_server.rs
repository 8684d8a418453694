use wopr::wopr_core::scenario::build_system;
use wopr::wopr_core::session::{env_can_take_now, Env, Session};
use wopr::wopr_core::system::System;
use wopr::wopr_server::persist::dump_files;
use wopr::wopr_server::posture::{active_weaknesses, base_users, secure_scenario, training_scenario};
use wopr::wopr_server::terminal::{feed_line, LineAssembler};
use wopr::wopr_web::api::account_json;
use wopr::wopr_web::http::{dashboard_html, http_response, request_path, route};
use wopr::wopr_web::jwt::{accept_alg, b64url_decode, b64url_encode, validate, JwtConfig};

#[test]
fn account_endpoint_reads_core() {
    let j = account_json("00001").expect("account 00001 exists");
    assert!(j.contains("balance"));
    assert!(account_json("99999").is_none());
}

#[test]
fn account_json_text() {
    assert_eq!(account_json("00001").unwrap(), "{\"id\":\"00001\",\"balance\":1234.56}");
    assert_eq!(account_json("00002").unwrap(), "{\"id\":\"00002\",\"balance\":42.00}");
    assert!(account_json("").is_none());
    assert!(account_json("0000").is_none());
}

#[test]
fn routes() {
    assert_eq!(route("/"), ("200 OK".to_string(), "text/html".to_string(), dashboard_html()));
    assert_eq!(
        route("/api/accounts/00001"),
        ("200 OK".to_string(), "application/json".to_string(), account_json("00001").unwrap())
    );
    assert_eq!(
        route("/api/accounts/7"),
        ("404 Not Found".to_string(), "application/json".to_string(), "{\"error\":\"not found\"}".to_string())
    );
    assert_eq!(route("/x"), ("404 Not Found".to_string(), "text/plain".to_string(), "not found".to_string()));
}

#[test]
fn request_paths() {
    assert_eq!(request_path("GET /api/accounts/00001 HTTP/1.1\r\nHost: x\r\n\r\n"), "/api/accounts/00001");
    assert_eq!(request_path(""), "/");
    assert_eq!(request_path("GET"), "/");
}

#[test]
fn response_framing() {
    assert_eq!(
        http_response("200 OK", "text/plain", "hé"),
        "HTTP/1.1 200 OK\r\nContent-Type: text/plain\r\nContent-Length: 3\r\nConnection: close\r\n\r\nhé"
    );
}

fn alg_none_token() -> String {
    format!(
        "{}.{}.",
        b64url_encode(br#"{"alg":"none","typ":"JWT"}"#),
        b64url_encode(br#"{"sub":"admin"}"#)
    )
}

#[test]
fn alg_none_rejected_in_secure_mode() {
    let tok = alg_none_token();
    assert!(!validate(&JwtConfig { allow_alg_none: false }, &tok)); // secure: reject
    assert!(validate(&JwtConfig { allow_alg_none: true }, &tok)); // training: accepted on purpose
}

#[test]
fn hs256_needs_a_signature() {
    let h = b64url_encode(br#"{"alg":"HS256"}"#);
    let p = b64url_encode(br#"{}"#);
    let cfg = JwtConfig { allow_alg_none: false };
    assert!(validate(&cfg, &format!("{h}.{p}.sig")));
    assert!(!validate(&cfg, &format!("{h}.{p}.")));
    assert!(!validate(&cfg, &format!("{h}.{p}")));
    assert!(!validate(&cfg, &h));
    assert!(!validate(&cfg, "!!!.x.y"));
    let other = b64url_encode(br#"{"alg":"RS256"}"#);
    assert!(!validate(&cfg, &format!("{other}.{p}.sig")));
}

#[test]
fn accept_alg_decisions() {
    let secure = JwtConfig { allow_alg_none: false };
    assert!(!accept_alg(&secure, &Some("none".to_string()), ""));
    assert!(accept_alg(&secure, &Some("HS256".to_string()), "s"));
    assert!(!accept_alg(&secure, &None, "s"));
}

#[test]
fn base64url_encoding() {
    assert_eq!(b64url_encode(b""), "");
    assert_eq!(b64url_encode(b"f"), "Zg");
    assert_eq!(b64url_encode(b"fo"), "Zm8");
    assert_eq!(b64url_encode(b"foo"), "Zm9v");
    assert_eq!(b64url_encode(b"foobar"), "Zm9vYmFy");
    assert_eq!(b64url_encode(&[0xFB, 0xFF]), "-_8");
}

#[test]
fn base_users_and_scenarios() {
    let us = base_users();
    assert_eq!(us.len(), 2);
    assert_eq!(us[0].userid, "IBMUSER");
    assert_eq!(us[0].attributes, vec!["SPECIAL".to_string()]);
    assert_eq!(us[1].userid, "GUEST");
    assert!(training_scenario().weaknesses.guest_over_privileged);
    assert!(!secure_scenario().weaknesses.guest_over_privileged);
}

#[test]
fn posture_is_hardened_only_in_secure_mode() {
    assert!(active_weaknesses(&build_system(secure_scenario())).is_empty());
    let w = active_weaknesses(&build_system(training_scenario()));
    assert_eq!(
        w,
        vec!["GUEST over-privileged (OPERATIONS)".to_string(), "cleartext FTP enabled".to_string()]
    );
}

#[test]
fn dump_is_the_raw_golden_record() {
    let sys = System::default();
    let files = dump_files(&sys.catalog);
    assert_eq!(files.len(), 1);
    assert_eq!(files[0].0, "IBMUSER.CUST.DATA");
    assert_eq!(files[0].1.len(), 80);
    assert!(!files[0].1.contains(&0x0A));
    assert!(files[0].1[30..].iter().all(|&b| b == 0x40));
}

#[test]
fn line_assembler_splits_on_newline() {
    let mut a = LineAssembler::new();
    assert!(a.feed(b"L T").is_empty());
    assert_eq!(a.feed(b"SO \r\nUSER"), vec!["L TSO".to_string()]);
    assert_eq!(a.feed(b"\n\n"), vec!["USER".to_string(), "".to_string()]);
}

fn step(sess: &mut Session, sys: &mut System, line: &str) -> (String, bool) {
    assert!(env_can_take_now(&sess.env, line, sys));
    feed_line(sess, sys, line)
}

#[test]
fn scripted_logon_listuser_secevents() {
    let mut sys = build_system(secure_scenario());
    let mut sess = Session::new();
    assert_eq!(step(&mut sess, &mut sys, "L TSO"), ("USERID: ".to_string(), true));
    assert_eq!(step(&mut sess, &mut sys, "IBMUSER"), ("PASSWORD: ".to_string(), true));
    assert_eq!(step(&mut sess, &mut sys, "SYS1"), ("READY\r\n".to_string(), true));
    assert!(matches!(sess.env, Env::Tso(_)));
    let (out, on) = step(&mut sess, &mut sys, "LISTUSER GUEST");
    assert!(on && out.contains("ATTRIBUTES=NONE") && out.ends_with("READY\r\n"));
    let (out, _) = step(&mut sess, &mut sys, "SECEVENTS");
    assert!(out.contains("LogonOk     IBMUSER"));
    let (out, _) = step(&mut sess, &mut sys, "LISTDS 'IBMUSER.CUST.DATA'");
    assert!(out.contains("RECFM=Fb  LRECL=80  BLKSIZE=800  DSORG=Ps"));
    assert_eq!(step(&mut sess, &mut sys, "LOGOFF"), ("".to_string(), false));
}

#[test]
fn training_applies_every_weakness() {
    let secure = build_system(secure_scenario());
    assert!(!secure.services.ftp);
    let training = build_system(training_scenario());
    assert!(training.services.ftp);
    assert!(wopr::wopr_core::scenario::guest_is_over_privileged(&training));
    assert!(!training.services.nje && !training.services.db2 && !training.services.web);
}

#[test]
fn base64url_decode_undoes_encode() {
    for b in [&b""[..], b"f", b"fo", b"foo", b"foob", &[0u8, 255, 128, 7, 63][..]] {
        assert_eq!(b64url_decode(&b64url_encode(b)), b.to_vec());
    }
    assert_eq!(b64url_decode("Zm9v.YmFy"), b"foobar".to_vec()); // other characters are skipped
}
