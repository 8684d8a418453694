# wopr

A z/OS-style training simulator (WOPR), as a Verus-verified library: the
green-screen protocol, RACF, TSO, datasets, JES/JCL and the spool, the SMF
audit trail, CICS, Db2 and its DRDA responder, OMVS, the secure/training
scenario model and the web tier's routing and JWT lab.

- `src/` is the library. Its functions are verified against their
  `requires`/`ensures`, except four small trusted wrappers around outside
  calls, marked `#[verifier::external_body]`, whose contracts are taken on
  trust: `String::push` and `String::from_utf8_lossy` (`text.rs`), and
  serde_json's object printing (`wopr_core/audit.rs`) and parsing
  (`wopr_web/jwt.rs`). The properties that span functions are public proof
  functions (`lemma_*`), such as the 3270 address and Read-Modified
  round-trips, the CP037 codec, base64url decoding what was encoded, and
  weaknesses applying only in training mode.
  - `tn3270/`: telnet filtering, CP037 EBCDIC, 3270 data stream.
  - `wopr_core/`: the simulated system; no I/O.
  - `wopr_web/`: HTTP routing and framing, the REST data, the JWT lab.
  - `wopr_server/`: built-in scenarios, posture report, dataset dump, and
    the terminal line discipline that drives a session.
  - `text.rs`, `table.rs`: verified string helpers and a string-keyed map.
- `app/` is the server binary (tokio listeners on 2023, 50000 and 8080); it
  does the I/O and hands plain values to the library.
- `tests/` exercises the library on concrete values.
