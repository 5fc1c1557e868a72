//! Text encoding of protocol messages: one JSON object per line.

use crate::protocol::{Request, Response, RpcError, StreamEvent};
use vstd::prelude::*;

verus! {

/// The lower-case hexadecimal digit of `d` (0 to 15).
pub open spec fn hex_digit(d: int) -> char {
    if d < 10 {
        digit_char(d)
    } else if d == 10 {
        'a'
    } else if d == 11 {
        'b'
    } else if d == 12 {
        'c'
    } else if d == 13 {
        'd'
    } else if d == 14 {
        'e'
    } else {
        'f'
    }
}

/// How one character is written inside a JSON string: the quote and the
/// backslash are escaped, the usual control characters get their short
/// escapes, the other control characters a `\u00XX` escape, and everything
/// else stands as it is.
pub open spec fn escape_char(c: char) -> Seq<char> {
    if c == '"' {
        seq!['\\', '"']
    } else if c == '\\' {
        seq!['\\', '\\']
    } else if c == '\u{8}' {
        seq!['\\', 'b']
    } else if c == '\t' {
        seq!['\\', 't']
    } else if c == '\n' {
        seq!['\\', 'n']
    } else if c == '\u{c}' {
        seq!['\\', 'f']
    } else if c == '\r' {
        seq!['\\', 'r']
    } else if (c as u32) < 0x20 {
        seq!['\\', 'u', '0', '0', hex_digit((c as u32) as int / 16), hex_digit((c as u32) as int % 16)]
    } else {
        seq![c]
    }
}

/// The escaped contents of a JSON string.
pub open spec fn escaped(s: Seq<char>) -> Seq<char>
    decreases s.len(),
{
    if s.len() == 0 {
        Seq::empty()
    } else {
        escaped(s.drop_last()) + escape_char(s.last())
    }
}

/// The JSON string literal of a text: its escaped contents between quotes.
pub open spec fn json_string(s: Seq<char>) -> Seq<char> {
    seq!['"'] + escaped(s) + seq!['"']
}

/// No character of the text is a line feed.
pub open spec fn newline_free(s: Seq<char>) -> bool {
    forall|i: int| 0 <= i < s.len() ==> s[i] != '\n'
}

/// Relies on `serde_json::to_string` on a string slice: the quoted literal,
/// escaped by serde_json's escape table. Serializing a `str` into memory
/// cannot fail (serde_json only fails on maps with non-string keys or on a
/// failing `Serialize` impl), so the fallback is never taken.
#[verifier::external_body]
fn quote(s: &str) -> (r: String)
    ensures
        r@ == json_string(s@),
{
    serde_json::to_string(s).unwrap_or_default()
}

/// Relies on `serde_json::to_string` on a JSON value: its compact text, in
/// which strings are escaped and no whitespace is written, so it holds no
/// line feed. It cannot fail: every arm of `Value`'s `Serialize` impl
/// succeeds, its map keys are strings, and the text is written into memory;
/// the fallback is never taken.
#[verifier::external_body]
fn value_text(v: &serde_json::Value) -> (r: String)
    ensures
        newline_free(r@),
{
    serde_json::to_string(v).unwrap_or_default()
}

/// The decimal digit character of `d` (0 to 9).
pub open spec fn digit_char(d: int) -> char {
    if d == 0 {
        '0'
    } else if d == 1 {
        '1'
    } else if d == 2 {
        '2'
    } else if d == 3 {
        '3'
    } else if d == 4 {
        '4'
    } else if d == 5 {
        '5'
    } else if d == 6 {
        '6'
    } else if d == 7 {
        '7'
    } else if d == 8 {
        '8'
    } else {
        '9'
    }
}

/// The decimal digits of `n`, most significant first, without leading zeros.
pub open spec fn digits(n: nat) -> Seq<char>
    decreases n,
{
    if n < 10 {
        seq![digit_char(n as int)]
    } else {
        digits(n / 10).push(digit_char((n % 10) as int))
    }
}

/// The decimal text of an integer, with a leading `-` when negative.
pub open spec fn decimal(n: int) -> Seq<char> {
    if n < 0 {
        seq!['-'] + digits((-n) as nat)
    } else {
        digits(n as nat)
    }
}

/// The text is one line: it ends with its only line feed.
pub open spec fn one_line(s: Seq<char>) -> bool {
    s.len() > 0 && s.last() == '\n' && newline_free(s.drop_last())
}

proof fn lemma_newline_free_concat(a: Seq<char>, b: Seq<char>)
    requires
        newline_free(a),
        newline_free(b),
    ensures
        newline_free(a + b),
{
    assert forall|i: int| 0 <= i < (a + b).len() implies (a + b)[i] != '\n' by {
        if i >= a.len() {
            assert((a + b)[i] == b[i - a.len()]);
        }
    }
}

proof fn lemma_escaped_newline_free(s: Seq<char>)
    ensures
        newline_free(escaped(s)),
    decreases s.len(),
{
    if s.len() > 0 {
        lemma_escaped_newline_free(s.drop_last());
        let c = s.last();
        let t = escape_char(c);
        assert(newline_free(t));
        lemma_newline_free_concat(escaped(s.drop_last()), t);
    }
}

/// The JSON literal of any text holds no line feed.
pub proof fn lemma_json_string_newline_free(s: Seq<char>)
    ensures
        newline_free(json_string(s)),
{
    lemma_escaped_newline_free(s);
    lemma_newline_free_concat(seq!['"'], escaped(s));
    lemma_newline_free_concat(seq!['"'] + escaped(s), seq!['"']);
}

proof fn lemma_digits_newline_free(n: nat)
    ensures
        newline_free(digits(n)),
    decreases n,
{
    if n >= 10 {
        lemma_digits_newline_free(n / 10);
        lemma_newline_free_concat(digits(n / 10), seq![digit_char((n % 10) as int)]);
        assert(digits(n) == digits(n / 10) + seq![digit_char((n % 10) as int)]);
    }
}

proof fn lemma_decimal_newline_free(n: int)
    ensures
        newline_free(decimal(n)),
{
    if n < 0 {
        lemma_digits_newline_free((-n) as nat);
        lemma_newline_free_concat(seq!['-'], digits((-n) as nat));
    } else {
        lemma_digits_newline_free(n as nat);
    }
}

proof fn lemma_params_newline_free(e: StreamEvent)
    ensures
        newline_free(event_params(e)),
{
    reveal_strlit("{\"chunk\":");
    reveal_strlit("{\"code\":");
    reveal_strlit("{\"data\":");
    reveal_strlit(",\"mime\":");
    reveal_strlit(",\"path\":");
    reveal_strlit("{\"message\":");
    reveal_strlit("}");
    match e {
        StreamEvent::Stdout { chunk } | StreamEvent::Stderr { chunk } => {
            lemma_json_string_newline_free(chunk@);
            lemma_newline_free_concat("{\"chunk\":"@, json_string(chunk@));
            lemma_newline_free_concat("{\"chunk\":"@ + json_string(chunk@), "}"@);
        },
        StreamEvent::Exit { code } => {
            lemma_decimal_newline_free(code as int);
            lemma_newline_free_concat("{\"code\":"@, decimal(code as int));
            lemma_newline_free_concat("{\"code\":"@ + decimal(code as int), "}"@);
        },
        StreamEvent::Artifact { path, mime, data_base64 } => {
            lemma_json_string_newline_free(data_base64@);
            lemma_json_string_newline_free(mime@);
            lemma_json_string_newline_free(path@);
            let a = "{\"data\":"@ + json_string(data_base64@);
            lemma_newline_free_concat("{\"data\":"@, json_string(data_base64@));
            lemma_newline_free_concat(a, ",\"mime\":"@);
            lemma_newline_free_concat(a + ",\"mime\":"@, json_string(mime@));
            let b = a + ",\"mime\":"@ + json_string(mime@);
            lemma_newline_free_concat(b, ",\"path\":"@);
            lemma_newline_free_concat(b + ",\"path\":"@, json_string(path@));
            lemma_newline_free_concat(b + ",\"path\":"@ + json_string(path@), "}"@);
        },
        StreamEvent::Error { message } => {
            lemma_json_string_newline_free(message@);
            lemma_newline_free_concat("{\"message\":"@, json_string(message@));
            lemma_newline_free_concat("{\"message\":"@ + json_string(message@), "}"@);
        },
    }
}

fn digit_text(d: u64) -> (r: String)
    requires
        d < 10,
    ensures
        r@ == seq![digit_char(d as int)],
{
    let t = if d == 0 {
        String::from_str("0")
    } else if d == 1 {
        String::from_str("1")
    } else if d == 2 {
        String::from_str("2")
    } else if d == 3 {
        String::from_str("3")
    } else if d == 4 {
        String::from_str("4")
    } else if d == 5 {
        String::from_str("5")
    } else if d == 6 {
        String::from_str("6")
    } else if d == 7 {
        String::from_str("7")
    } else if d == 8 {
        String::from_str("8")
    } else {
        String::from_str("9")
    };
    proof {
        reveal_strlit("0");
        reveal_strlit("1");
        reveal_strlit("2");
        reveal_strlit("3");
        reveal_strlit("4");
        reveal_strlit("5");
        reveal_strlit("6");
        reveal_strlit("7");
        reveal_strlit("8");
        reveal_strlit("9");
    }
    t
}

/// The decimal text of `n`, as JSON writes an integer.
pub fn decimal_text(n: i32) -> (r: String)
    ensures
        r@ == decimal(n as int),
{
    let wide: i64 = n as i64;
    let mag: u64 = if wide < 0 { (0 - wide) as u64 } else { wide as u64 };
    let mut m: u64 = mag;
    let mut tail = String::new();
    while m >= 10
        invariant
            digits(mag as nat) == digits(m as nat) + tail@,
        decreases m,
    {
        let d = digit_text(m % 10);
        let ghost old_tail = tail@;
        tail = d.concat(tail.as_str());
        assert(digits(m as nat) == digits((m / 10) as nat).push(digit_char((m % 10) as int)));
        assert(digits(m as nat) + old_tail == digits((m / 10) as nat) + tail@);
        m = m / 10;
    }
    let first = digit_text(m);
    let body = first.concat(tail.as_str());
    if wide < 0 {
        let r = String::from_str("-").concat(body.as_str());
        proof {
            reveal_strlit("-");
        }
        r
    } else {
        body
    }
}

/// `"key":value` after a comma, or nothing when the value is absent.
pub open spec fn optional_member(key: Seq<char>, value: Option<Seq<char>>) -> Seq<char> {
    match value {
        Some(t) => key + t,
        None => Seq::empty(),
    }
}

/// The parameter object of an event notification; its members are in key order.
pub open spec fn event_params(e: StreamEvent) -> Seq<char> {
    match e {
        StreamEvent::Stdout { chunk } => "{\"chunk\":"@ + json_string(chunk@) + "}"@,
        StreamEvent::Stderr { chunk } => "{\"chunk\":"@ + json_string(chunk@) + "}"@,
        StreamEvent::Exit { code } => "{\"code\":"@ + decimal(code as int) + "}"@,
        StreamEvent::Artifact { path, mime, data_base64 } => "{\"data\":"@ + json_string(
            data_base64@,
        ) + ",\"mime\":"@ + json_string(mime@) + ",\"path\":"@ + json_string(path@) + "}"@,
        StreamEvent::Error { message } => "{\"message\":"@ + json_string(message@) + "}"@,
    }
}

/// The line of an event: a notification whose method is the variant's name and
/// whose parameters are its fields, ended by a newline.
pub open spec fn event_line(e: StreamEvent) -> Seq<char> {
    "{\"jsonrpc\":\"2.0\",\"method\":\""@ + crate::protocol::event_method(e) + "\",\"params\":"@
        + event_params(e) + "}\n"@
}

/// Every event is sent as exactly one line: the line feed that ends it is its
/// only one, whatever its text fields hold.
pub proof fn lemma_event_is_one_line(e: StreamEvent)
    ensures
        one_line(event_line(e)),
{
    let head = "{\"jsonrpc\":\"2.0\",\"method\":\""@;
    let mid = "\",\"params\":"@;
    reveal_strlit("{\"jsonrpc\":\"2.0\",\"method\":\"");
    reveal_strlit("\",\"params\":");
    reveal_strlit("}\n");
    reveal_strlit("}");
    reveal_strlit("stdout");
    reveal_strlit("stderr");
    reveal_strlit("exit");
    reveal_strlit("artifact");
    reveal_strlit("error");
    let name = crate::protocol::event_method(e);
    assert(newline_free(name));
    lemma_params_newline_free(e);
    lemma_newline_free_concat(head, name);
    lemma_newline_free_concat(head + name, mid);
    lemma_newline_free_concat(head + name + mid, event_params(e));
    let body = head + name + mid + event_params(e) + "}"@;
    lemma_newline_free_concat(head + name + mid + event_params(e), "}"@);
    assert("}\n"@ == "}"@ + seq!['\n']);
    assert(event_line(e) == body + seq!['\n']);
    assert((body + seq!['\n']).drop_last() == body);
}

fn event_params_text(e: &StreamEvent) -> (r: String)
    ensures
        r@ == event_params(*e),
{
    match e {
        StreamEvent::Stdout { chunk } | StreamEvent::Stderr { chunk } => {
            let mut s = String::from_str("{\"chunk\":");
            s.append(quote(chunk.as_str()).as_str());
            s.append("}");
            s
        },
        StreamEvent::Exit { code } => {
            let mut s = String::from_str("{\"code\":");
            s.append(decimal_text(*code).as_str());
            s.append("}");
            s
        },
        StreamEvent::Artifact { path, mime, data_base64 } => {
            let mut s = String::from_str("{\"data\":");
            s.append(quote(data_base64.as_str()).as_str());
            s.append(",\"mime\":");
            s.append(quote(mime.as_str()).as_str());
            s.append(",\"path\":");
            s.append(quote(path.as_str()).as_str());
            s.append("}");
            s
        },
        StreamEvent::Error { message } => {
            let mut s = String::from_str("{\"message\":");
            s.append(quote(message.as_str()).as_str());
            s.append("}");
            s
        },
    }
}

/// Encodes an event as one notification line.
pub fn encode_event(e: &StreamEvent) -> (r: String)
    ensures
        r@ == event_line(*e),
        one_line(r@),
{
    proof {
        lemma_event_is_one_line(*e);
    }
    let mut s = String::from_str("{\"jsonrpc\":\"2.0\",\"method\":\"");
    s.append(e.method_name().as_str());
    s.append("\",\"params\":");
    s.append(event_params_text(e).as_str());
    s.append("}\n");
    s
}

/// The error object of a response, given the text of its optional `data`.
pub open spec fn error_object(code: i32, message: Seq<char>, data: Option<Seq<char>>) -> Seq<char> {
    "{\"code\":"@ + decimal(code as int) + ",\"message\":"@ + json_string(message)
        + optional_member(",\"data\":"@, data) + "}"@
}

/// The line of a response, given the texts of its identifier and of its
/// optional result and error object.
pub open spec fn response_line(
    jsonrpc: Seq<char>,
    result: Option<Seq<char>>,
    error: Option<Seq<char>>,
    id: Seq<char>,
) -> Seq<char> {
    "{\"jsonrpc\":"@ + json_string(jsonrpc) + optional_member(",\"result\":"@, result)
        + optional_member(",\"error\":"@, error) + ",\"id\":"@ + id + "}\n"@
}

/// The line of a request, given the texts of its parameters and optional identifier.
pub open spec fn request_line(
    jsonrpc: Seq<char>,
    method: Seq<char>,
    params: Seq<char>,
    id: Option<Seq<char>>,
) -> Seq<char> {
    "{\"jsonrpc\":"@ + json_string(jsonrpc) + ",\"method\":"@ + json_string(method)
        + ",\"params\":"@ + params + optional_member(",\"id\":"@, id) + "}\n"@
}

/// The line of `resp`, given the texts of its identifier, of its optional
/// result and of its error's optional data.
pub open spec fn response_text(
    resp: Response,
    id: Seq<char>,
    result: Option<Seq<char>>,
    data: Option<Seq<char>>,
) -> Seq<char> {
    response_line(
        resp.jsonrpc@,
        result,
        match resp.error {
            Some(e) => Some(error_object(e.code, e.message@, data)),
            None => None,
        },
        id,
    )
}

/// An optional text holds no line feed when present.
pub open spec fn newline_free_opt(t: Option<Seq<char>>) -> bool {
    t matches Some(x) ==> newline_free(x)
}

proof fn lemma_member_newline_free(key: Seq<char>, value: Option<Seq<char>>)
    requires
        newline_free(key),
        newline_free_opt(value),
    ensures
        newline_free(optional_member(key, value)),
{
    if let Some(t) = value {
        lemma_newline_free_concat(key, t);
    }
}

proof fn lemma_error_object_newline_free(code: i32, message: Seq<char>, data: Option<Seq<char>>)
    requires
        newline_free_opt(data),
    ensures
        newline_free(error_object(code, message, data)),
{
    let a = "{\"code\":"@;
    let b = ",\"message\":"@;
    let c = ",\"data\":"@;
    reveal_strlit("{\"code\":");
    reveal_strlit(",\"message\":");
    reveal_strlit(",\"data\":");
    reveal_strlit("}");
    lemma_decimal_newline_free(code as int);
    lemma_json_string_newline_free(message);
    lemma_member_newline_free(c, data);
    lemma_newline_free_concat(a, decimal(code as int));
    lemma_newline_free_concat(a + decimal(code as int), b);
    lemma_newline_free_concat(a + decimal(code as int) + b, json_string(message));
    let x = a + decimal(code as int) + b + json_string(message);
    lemma_newline_free_concat(x, optional_member(c, data));
    lemma_newline_free_concat(x + optional_member(c, data), "}"@);
}

/// A response is sent as exactly one line whenever the texts of the JSON
/// values it carries hold no line feed, as serde_json's compact text never does.
pub proof fn lemma_response_is_one_line(
    resp: Response,
    id: Seq<char>,
    result: Option<Seq<char>>,
    data: Option<Seq<char>>,
)
    requires
        newline_free(id),
        newline_free_opt(result),
        newline_free_opt(data),
    ensures
        one_line(response_text(resp, id, result, data)),
{
    let error = match resp.error {
        Some(e) => Some(error_object(e.code, e.message@, data)),
        None => None,
    };
    if let Some(e) = resp.error {
        lemma_error_object_newline_free(e.code, e.message@, data);
    }
    let a = "{\"jsonrpc\":"@;
    let r = ",\"result\":"@;
    let er = ",\"error\":"@;
    let d = ",\"id\":"@;
    reveal_strlit("{\"jsonrpc\":");
    reveal_strlit(",\"result\":");
    reveal_strlit(",\"error\":");
    reveal_strlit(",\"id\":");
    reveal_strlit("}\n");
    reveal_strlit("}");
    lemma_json_string_newline_free(resp.jsonrpc@);
    lemma_member_newline_free(r, result);
    lemma_member_newline_free(er, error);
    lemma_newline_free_concat(a, json_string(resp.jsonrpc@));
    let x1 = a + json_string(resp.jsonrpc@);
    lemma_newline_free_concat(x1, optional_member(r, result));
    let x2 = x1 + optional_member(r, result);
    lemma_newline_free_concat(x2, optional_member(er, error));
    let x3 = x2 + optional_member(er, error);
    lemma_newline_free_concat(x3, d);
    lemma_newline_free_concat(x3 + d, id);
    let body = x3 + d + id + "}"@;
    lemma_newline_free_concat(x3 + d + id, "}"@);
    assert("}\n"@ == "}"@ + seq!['\n']);
    assert(response_text(resp, id, result, data) == body + seq!['\n']);
    assert((body + seq!['\n']).drop_last() == body);
}

/// A request is sent as exactly one line whenever the texts of its
/// parameters and identifier hold no line feed.
pub proof fn lemma_request_is_one_line(
    jsonrpc: Seq<char>,
    method: Seq<char>,
    params: Seq<char>,
    id: Option<Seq<char>>,
)
    requires
        newline_free(params),
        newline_free_opt(id),
    ensures
        one_line(request_line(jsonrpc, method, params, id)),
{
    let a = "{\"jsonrpc\":"@;
    let m = ",\"method\":"@;
    let p = ",\"params\":"@;
    let k = ",\"id\":"@;
    reveal_strlit("{\"jsonrpc\":");
    reveal_strlit(",\"method\":");
    reveal_strlit(",\"params\":");
    reveal_strlit(",\"id\":");
    reveal_strlit("}\n");
    reveal_strlit("}");
    lemma_json_string_newline_free(jsonrpc);
    lemma_json_string_newline_free(method);
    lemma_member_newline_free(k, id);
    lemma_newline_free_concat(a, json_string(jsonrpc));
    let x1 = a + json_string(jsonrpc);
    lemma_newline_free_concat(x1, m);
    lemma_newline_free_concat(x1 + m, json_string(method));
    let x2 = x1 + m + json_string(method);
    lemma_newline_free_concat(x2, p);
    lemma_newline_free_concat(x2 + p, params);
    lemma_newline_free_concat(x2 + p + params, optional_member(k, id));
    let body = x2 + p + params + optional_member(k, id) + "}"@;
    lemma_newline_free_concat(x2 + p + params + optional_member(k, id), "}"@);
    assert("}\n"@ == "}"@ + seq!['\n']);
    assert(request_line(jsonrpc, method, params, id) == body + seq!['\n']);
    assert((body + seq!['\n']).drop_last() == body);
}

/// Writes an optional value's text, or nothing when it is absent.
fn optional_text(v: &Option<serde_json::Value>) -> (r: Option<String>)
    ensures
        r is Some <==> v is Some,
        r matches Some(t) ==> newline_free(t@),
{
    match v {
        Some(x) => Some(value_text(x)),
        None => None,
    }
}

fn append_member(s: &mut String, key: &str, value: &Option<String>)
    ensures
        final(s)@ == old(s)@ + optional_member(
            key@,
            match value {
                Some(t) => Some(t@),
                None => None,
            },
        ),
{
    if let Some(t) = value {
        s.append(key);
        s.append(t.as_str());
    }
}

/// The view of an optional text.
pub open spec fn text_of(t: Option<String>) -> Option<Seq<char>> {
    match t {
        Some(x) => Some(x@),
        None => None,
    }
}

/// Writes an error object, given the text of its optional data.
pub fn encode_error_object(e: &RpcError, data: &Option<String>) -> (r: String)
    ensures
        r@ == error_object(e.code, e.message@, text_of(*data)),
{
    let mut s = String::from_str("{\"code\":");
    s.append(decimal_text(e.code).as_str());
    s.append(",\"message\":");
    s.append(quote(e.message.as_str()).as_str());
    append_member(&mut s, ",\"data\":", data);
    s.append("}");
    s
}

/// Encodes a response as one line: the version tag, the result or the error
/// object, and the identifier, in that order, then a newline.
pub fn encode_response(resp: &Response) -> (line: String)
    ensures
        exists|id: Seq<char>, result: Option<Seq<char>>, data: Option<Seq<char>>|
            (result is Some <==> resp.result is Some) && (data is Some <==> (resp.error matches Some(
                e,
            ) && e.data is Some)) && newline_free(id) && newline_free_opt(result)
                && newline_free_opt(data) && line@ == #[trigger] response_text(
                *resp,
                id,
                result,
                data,
            ),
        one_line(line@),
{
    let id = value_text(&resp.id);
    let result = optional_text(&resp.result);
    let data: Option<String> = match &resp.error {
        Some(e) => optional_text(&e.data),
        None => None,
    };
    let error = match &resp.error {
        Some(e) => Some(encode_error_object(e, &data)),
        None => None,
    };
    let mut s = String::from_str("{\"jsonrpc\":");
    s.append(quote(resp.jsonrpc.as_str()).as_str());
    append_member(&mut s, ",\"result\":", &result);
    append_member(&mut s, ",\"error\":", &error);
    s.append(",\"id\":");
    s.append(id.as_str());
    s.append("}\n");
    assert(s@ == response_text(*resp, id@, text_of(result), text_of(data)));
    proof {
        lemma_response_is_one_line(*resp, id@, text_of(result), text_of(data));
    }
    s
}

/// Encodes a request (or, without identifier, a notification) as one line.
pub fn encode_request(req: &Request) -> (line: String)
    ensures
        exists|params: Seq<char>, id: Option<Seq<char>>|
            (id is Some <==> req.id is Some) && newline_free(params) && newline_free_opt(id)
                && line@ == #[trigger] request_line(
                req.jsonrpc@,
                req.method@,
                params,
                id,
            ),
        one_line(line@),
{
    let params = value_text(&req.params);
    let id = optional_text(&req.id);
    let mut s = String::from_str("{\"jsonrpc\":");
    s.append(quote(req.jsonrpc.as_str()).as_str());
    s.append(",\"method\":");
    s.append(quote(req.method.as_str()).as_str());
    s.append(",\"params\":");
    s.append(params.as_str());
    append_member(&mut s, ",\"id\":", &id);
    s.append("}\n");
    assert(s@ == request_line(req.jsonrpc@, req.method@, params@, text_of(id)));
    proof {
        lemma_request_is_one_line(req.jsonrpc@, req.method@, params@, text_of(id));
    }
    s
}

} // verus!
