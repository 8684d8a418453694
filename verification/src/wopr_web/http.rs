//! A minimal HTTP/1.1 front: request path, routing, and the response text.
use vstd::prelude::*;
use crate::text;
use crate::wopr_web::api;

verus! {

pub open spec fn dashboard_text() -> Seq<char> {
    "<!doctype html><title>WOPR</title><h1>WOPR dashboard</h1><p>Same data, two front doors: try <code>/api/accounts/00001</code>.</p>"@
}

pub fn dashboard_html() -> (r: String)
    ensures
        r@ == dashboard_text(),
{
    String::from_str(
        "<!doctype html><title>WOPR</title><h1>WOPR dashboard</h1><p>Same data, two front doors: try <code>/api/accounts/00001</code>.</p>",
    )
}

/// The response to a path: `/` is the dashboard, `/api/accounts/<id>` the
/// account's JSON, anything else is not found.  (status, content type, body)
pub open spec fn route_spec(path: Seq<char>) -> (Seq<char>, Seq<char>, Seq<char>) {
    let pre = "/api/accounts/"@;
    if path == "/"@ {
        ("200 OK"@, "text/html"@, dashboard_text())
    } else if text::starts_with(path, pre) {
        match api::account_json_spec(path.skip(pre.len() as int)) {
            Some(j) => ("200 OK"@, "application/json"@, j),
            None => ("404 Not Found"@, "application/json"@, "{\"error\":\"not found\"}"@),
        }
    } else {
        ("404 Not Found"@, "text/plain"@, "not found"@)
    }
}

pub fn route(path: &str) -> (r: (String, String, String))
    ensures
        (r.0@, r.1@, r.2@) == route_spec(path@),
{
    let pv = text::chars_of(path);
    if text::eq_str(&pv, "/") {
        return (String::from_str("200 OK"), String::from_str("text/html"), dashboard_html());
    }
    let pre = text::chars_of("/api/accounts/");
    if text::starts_with_vec(&pv, &pre) {
        let idv = text::slice(&pv, pre.len(), pv.len());
        let id = text::string_of(&idv);
        match api::account_json(id.as_str()) {
            Some(j) => (String::from_str("200 OK"), String::from_str("application/json"), j),
            None => (
                String::from_str("404 Not Found"),
                String::from_str("application/json"),
                String::from_str("{\"error\":\"not found\"}"),
            ),
        }
    } else {
        (String::from_str("404 Not Found"), String::from_str("text/plain"), String::from_str("not found"))
    }
}

/// The path of a request: the second word of its first line, or `/`.
pub open spec fn request_path_spec(req: Seq<char>) -> Seq<char> {
    let ls = text::lines(req);
    if ls.len() > 0 && text::words(ls[0]).len() > 1 {
        text::words(ls[0])[1]
    } else {
        "/"@
    }
}

pub fn request_path(req: &str) -> (r: String)
    ensures
        r@ == request_path_spec(req@),
{
    let rv = text::chars_of(req);
    let ls = text::lines_vec(&rv);
    assert(ls@.len() == text::lines(req@).len());
    if ls.len() > 0 {
        assert(ls@[0]@ == text::lines(req@)[0]);
        let w = text::words_vec(&ls[0]);
        assert(w@.len() == text::words(ls@[0]@).len());
        if w.len() > 1 {
            assert(w@[1]@ == text::words(ls@[0]@)[1]);
            return text::string_of(&w[1]);
        }
    }
    String::from_str("/")
}

/// The response text: status line, headers, a blank line, and the body;
/// `body_len` is the body's length in bytes.
pub open spec fn response_spec(
    status: Seq<char>,
    ctype: Seq<char>,
    body: Seq<char>,
    body_len: nat,
) -> Seq<char> {
    "HTTP/1.1 "@ + status + "\r\nContent-Type: "@ + ctype + "\r\nContent-Length: "@ + text::dec(
        body_len,
    ) + "\r\nConnection: close\r\n\r\n"@ + body
}

pub fn http_response(status: &str, ctype: &str, body: &str) -> (r: String)
    ensures
        r@ == response_spec(status@, ctype@, body@, body.len() as nat),
{
    let mut out: Vec<char> = Vec::new();
    text::push_str(&mut out, "HTTP/1.1 ");
    text::push_str(&mut out, status);
    text::push_str(&mut out, "\r\nContent-Type: ");
    text::push_str(&mut out, ctype);
    text::push_str(&mut out, "\r\nContent-Length: ");
    let n = text::fmt_dec(body.len() as u64);
    text::push_chars(&mut out, &n);
    text::push_str(&mut out, "\r\nConnection: close\r\n\r\n");
    text::push_str(&mut out, body);
    text::string_of(&out)
}

} // verus!
