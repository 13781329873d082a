//! Requests of the management platform interface (MPI) that a client sends to the platform
//! daemon, framed as JSON, and what the daemon's replies mean.
use vstd::prelude::*;

use serde_json::Error as JsonError;

verus! {

/// The socket that the platform daemon listens on.
pub const SOCKET: &'static str = "/run/osconfig/mpid.sock";

/// A hexadecimal digit, in lower case.
pub open spec fn hex_digit(d: int) -> char {
    seq!['0', '1', '2', '3', '4', '5', '6', '7', '8', '9', 'a', 'b', 'c', 'd', 'e', 'f'][d]
}

/// How a character stands in a JSON string as `serde_json` writes it: a quote and a
/// backslash after a backslash; backspace, tab, line feed, form feed and carriage return as
/// `\b`, `\t`, `\n`, `\f` and `\r`; any other control character below U+0020 as `\u00`
/// and two lower-case hex digits; every other character as itself.
pub open spec fn escaped(c: char) -> Seq<char> {
    let v = c as u32;
    if c == '"' {
        seq!['\\', '"']
    } else if c == '\\' {
        seq!['\\', '\\']
    } else if v == 0x08 {
        seq!['\\', 'b']
    } else if v == 0x09 {
        seq!['\\', 't']
    } else if v == 0x0A {
        seq!['\\', 'n']
    } else if v == 0x0C {
        seq!['\\', 'f']
    } else if v == 0x0D {
        seq!['\\', 'r']
    } else if v < 0x20 {
        seq!['\\', 'u', '0', '0', hex_digit(v as int / 16), hex_digit(v as int % 16)]
    } else {
        seq![c]
    }
}

/// The characters of a string, each as it stands in a JSON string.
pub open spec fn escaped_all(s: Seq<char>) -> Seq<char>
    decreases s.len(),
{
    if s.len() == 0 {
        Seq::empty()
    } else {
        escaped_all(s.drop_last()) + escaped(s.last())
    }
}

/// The JSON text of a string as `serde_json::to_string` writes it: the escaped characters
/// between double quotes.
pub open spec fn json_string(s: Seq<char>) -> Seq<char> {
    seq!['"'] + escaped_all(s) + seq!['"']
}

/// The string that a JSON text denotes, as `serde_json::from_str::<String>` reads it; `None`
/// where the text is not a JSON string.
pub uninterp spec fn json_string_value(text: Seq<char>) -> Option<Seq<char>>;

/// Writes a string as JSON with `serde_json::to_string`. Its documentation says it fails only
/// where a `Serialize` impl fails or a map has keys that are not strings, so on a string it
/// gives a text; its escape table (`ESCAPE` in `ser.rs`) makes that text `json_string`.
#[verifier::external_body]
fn quote(s: &str) -> (r: String)
    ensures
        r@ == json_string(s@),
{
    match serde_json::to_string(s) {
        Ok(text) => text,
        Err(_) => String::new(),
    }
}

/// Reads a JSON string with `serde_json::from_str::<String>`: it succeeds exactly where
/// `json_string_value` gives a string, and gives that string.
#[verifier::external_body]
fn parse_string(text: &str) -> (r: Result<String, JsonError>)
    ensures
        r is Ok <==> json_string_value(text@) is Some,
        r matches Ok(s) ==> json_string_value(text@) == Some(s@),
{
    serde_json::from_str::<String>(text)
}

/// The digit character of a number below ten.
pub open spec fn digit(d: nat) -> char {
    seq!['0', '1', '2', '3', '4', '5', '6', '7', '8', '9'][d as int]
}

/// The decimal digits of a number, most significant first, without leading zeros.
pub open spec fn decimal(n: nat) -> Seq<char>
    decreases n,
{
    if n < 10 {
        seq![digit(n)]
    } else {
        decimal(n / 10).push(digit(n % 10))
    }
}

fn digit_text(d: u128) -> (r: &'static str)
    requires
        d < 10,
    ensures
        r@ == seq![digit(d as nat)],
{
    proof {
        reveal_strlit("0");
        reveal_strlit("1");
        reveal_strlit("2");
        reveal_strlit("3");
        reveal_strlit("4");
        reveal_strlit("5");
        reveal_strlit("6");
        reveal_strlit("7");
        reveal_strlit("8");
        reveal_strlit("9");
    }
    if d == 0 {
        "0"
    } else if d == 1 {
        "1"
    } else if d == 2 {
        "2"
    } else if d == 3 {
        "3"
    } else if d == 4 {
        "4"
    } else if d == 5 {
        "5"
    } else if d == 6 {
        "6"
    } else if d == 7 {
        "7"
    } else if d == 8 {
        "8"
    } else {
        "9"
    }
}

/// The decimal text of a number.
pub fn decimal_text(n: u128) -> (r: String)
    ensures
        r@ == decimal(n as nat),
    decreases n,
{
    if n < 10 {
        digit_text(n).to_owned()
    } else {
        let mut r = decimal_text(n / 10);
        r.append(digit_text(n % 10));
        r
    }
}

/// A request to the platform daemon.
#[derive(Debug)]
pub enum Request {
    /// Opens a session for a client.
    Open { client_name: String, max_payload_size: u64 },
    /// Closes a session.
    Close { session: String },
    /// Reads an object of a component.
    Get { session: String, component: String, object: String },
    /// Reads every reported object.
    GetReported { session: String },
    /// Writes an object of a component; `payload` is the JSON text of the value.
    SetObject { session: String, component: String, object: String, payload: String },
}

/// The path that a request is posted to.
pub open spec fn path_of(r: Request) -> Seq<char> {
    match r {
        Request::Open { .. } => "/MpiOpen"@,
        Request::Close { .. } => "/MpiClose"@,
        Request::Get { .. } => "/MpiGet"@,
        Request::GetReported { .. } => "/MpiGetReported"@,
        Request::SetObject { .. } => "/MpiSet"@,
    }
}

/// A member of a JSON object: the name in quotes, a colon and the value's text.
pub open spec fn member(name: Seq<char>, value: Seq<char>) -> Seq<char> {
    seq!['"'] + name + seq!['"', ':'] + value
}

/// The members of a JSON object, separated by commas.
pub open spec fn joined(members: Seq<Seq<char>>) -> Seq<char>
    decreases members.len(),
{
    if members.len() == 0 {
        Seq::empty()
    } else if members.len() == 1 {
        members[0]
    } else {
        joined(members.drop_last()) + seq![','] + members.last()
    }
}

/// A JSON object of the given members, in order, without white space.
pub open spec fn object_text(members: Seq<Seq<char>>) -> Seq<char> {
    seq!['{'] + joined(members) + seq!['}']
}

/// The JSON body of a request: its fields, named as the interface names them, in order.
pub open spec fn body_of(r: Request) -> Seq<char> {
    match r {
        Request::Open { client_name, max_payload_size } => object_text(
            seq![
                member("ClientName"@, json_string(client_name@)),
                member("MaxPayloadSizeBytes"@, decimal(max_payload_size as nat)),
            ],
        ),
        Request::Close { session } => object_text(seq![member("ClientSession"@, json_string(session@))]),
        Request::Get { session, component, object } => object_text(
            seq![
                member("ClientSession"@, json_string(session@)),
                member("ComponentName"@, json_string(component@)),
                member("ObjectName"@, json_string(object@)),
            ],
        ),
        Request::GetReported { session } => object_text(seq![member("ClientSession"@, json_string(session@))]),
        Request::SetObject { session, component, object, payload } => object_text(
            seq![
                member("ClientSession"@, json_string(session@)),
                member("ComponentName"@, json_string(component@)),
                member("ObjectName"@, json_string(object@)),
                member("Payload"@, payload@),
            ],
        ),
    }
}

/// Appends a member to the text of an object being written, after a comma unless it is the
/// first.
fn append_member(text: &mut String, first: bool, name: &str, value: &str)
    ensures
        final(text)@ == old(text)@ + (if first {
            Seq::<char>::empty()
        } else {
            seq![',']
        }) + member(name@, value@),
{
    proof {
        reveal_strlit(",");
        reveal_strlit("\"");
        reveal_strlit("\":");
    }
    if !first {
        text.append(",");
    }
    text.append("\"");
    text.append(name);
    text.append("\":");
    text.append(value);
    assert(text@ =~= old(text)@ + (if first {
        Seq::<char>::empty()
    } else {
        seq![',']
    }) + member(name@, value@));
}

impl Request {
    /// The path that this request is posted to.
    pub fn path(&self) -> (r: &'static str)
        ensures
            r@ == path_of(*self),
    {
        match self {
            Request::Open { .. } => "/MpiOpen",
            Request::Close { .. } => "/MpiClose",
            Request::Get { .. } => "/MpiGet",
            Request::GetReported { .. } => "/MpiGetReported",
            Request::SetObject { .. } => "/MpiSet",
        }
    }

    /// The JSON body of this request.
    pub fn body(&self) -> (r: String)
        ensures
            r@ == body_of(*self),
    {
        proof {
            reveal_strlit("{");
            reveal_strlit("}");
            reveal_with_fuel(joined, 5);
        }
        let mut text = "{".to_owned();
        match self {
            Request::Open { client_name, max_payload_size } => {
                let name = quote(client_name.as_str());
                let size = decimal_text(*max_payload_size as u128);
                append_member(&mut text, true, "ClientName", name.as_str());
                append_member(&mut text, false, "MaxPayloadSizeBytes", size.as_str());
                text.append("}");
                let ghost ms = seq![member("ClientName"@, name@), member("MaxPayloadSizeBytes"@, size@)];
                assert(ms.drop_last() =~= seq![ms[0]]);
                assert(text@ =~= object_text(ms));
            },
            Request::Close { session } | Request::GetReported { session } => {
                let s = quote(session.as_str());
                append_member(&mut text, true, "ClientSession", s.as_str());
                text.append("}");
                let ghost ms = seq![member("ClientSession"@, s@)];
                assert(text@ =~= object_text(ms));
            },
            Request::Get { session, component, object } => {
                let s = quote(session.as_str());
                let c = quote(component.as_str());
                let o = quote(object.as_str());
                append_member(&mut text, true, "ClientSession", s.as_str());
                append_member(&mut text, false, "ComponentName", c.as_str());
                append_member(&mut text, false, "ObjectName", o.as_str());
                text.append("}");
                let ghost ms = seq![
                    member("ClientSession"@, s@),
                    member("ComponentName"@, c@),
                    member("ObjectName"@, o@),
                ];
                assert(ms.drop_last().drop_last() =~= seq![ms[0]]);
                assert(ms.drop_last() =~= seq![ms[0], ms[1]]);
                assert(text@ =~= object_text(ms));
            },
            Request::SetObject { session, component, object, payload } => {
                let s = quote(session.as_str());
                let c = quote(component.as_str());
                let o = quote(object.as_str());
                append_member(&mut text, true, "ClientSession", s.as_str());
                append_member(&mut text, false, "ComponentName", c.as_str());
                append_member(&mut text, false, "ObjectName", o.as_str());
                append_member(&mut text, false, "Payload", payload.as_str());
                text.append("}");
                let ghost ms = seq![
                    member("ClientSession"@, s@),
                    member("ComponentName"@, c@),
                    member("ObjectName"@, o@),
                    member("Payload"@, payload@),
                ];
                assert(ms.drop_last().drop_last().drop_last() =~= seq![ms[0]]);
                assert(ms.drop_last().drop_last() =~= seq![ms[0], ms[1]]);
                assert(ms.drop_last() =~= seq![ms[0], ms[1], ms[2]]);
                assert(text@ =~= object_text(ms));
            },
        }
        text
    }
}

/// What a reply of the daemon means: with status 200 its body; otherwise the status, which
/// the client reports as the error.
pub fn reply(status: u16, body: String) -> (r: Result<String, u16>)
    ensures
        status == 200 ==> r == Ok::<String, u16>(body),
        status != 200 ==> r == Err::<String, u16>(status),
{
    if status == 200 {
        Ok(body)
    } else {
        Err(status)
    }
}

/// The session that the reply to an open request names: the body is the session as a JSON
/// string.
pub fn session_of(body: &str) -> (r: Result<String, JsonError>)
    ensures
        r is Ok <==> json_string_value(body@) is Some,
        r matches Ok(s) ==> json_string_value(body@) == Some(s@),
{
    parse_string(body)
}

} // verus!
