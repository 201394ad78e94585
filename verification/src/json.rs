//! JSON text: string literals as `serde_json` writes them, JSON-RPC message
//! texts, and a plain model of JSON values.
use vstd::prelude::*;
use crate::client_id::hex_char;

verus! {

/// The escape sequence that `serde_json` writes for `c` inside a string
/// literal: `\"`, `\\`, the short forms `\b \t \n \f \r`, `\u00xx` with
/// lowercase hex digits for the other characters below U+0020, and the
/// character itself otherwise.
pub open spec fn json_escape_char(c: char) -> Seq<char> {
    if c == '"' {
        seq!['\\', '"']
    } else if c == '\\' {
        seq!['\\', '\\']
    } else if c == '\x08' {
        seq!['\\', 'b']
    } else if c == '\t' {
        seq!['\\', 't']
    } else if c == '\n' {
        seq!['\\', 'n']
    } else if c == '\x0c' {
        seq!['\\', 'f']
    } else if c == '\r' {
        seq!['\\', 'r']
    } else if (c as u32) < 0x20 {
        seq!['\\', 'u', '0', '0', hex_char((c as u32 / 16) as nat), hex_char((c as u32 % 16) as nat)]
    } else {
        seq![c]
    }
}

/// The escaped contents of a JSON string literal for `s`.
pub open spec fn json_escape(s: Seq<char>) -> Seq<char>
    decreases s.len(),
{
    if s.len() == 0 {
        Seq::empty()
    } else {
        json_escape_char(s[0]) + json_escape(s.drop_first())
    }
}

/// The JSON string literal for `s`, quotes included.
pub open spec fn json_string_literal(s: Seq<char>) -> Seq<char> {
    seq!['"'] + json_escape(s) + seq!['"']
}

/// Whether `c` is written unchanged inside a JSON string literal.
pub open spec fn json_plain_char(c: char) -> bool {
    c != '"' && c != '\\' && (c as u32) >= 0x20
}

/// A string with no character that JSON escapes is its own escaped form.
pub proof fn lemma_json_escape_plain(s: Seq<char>)
    requires
        forall|i: int| 0 <= i < s.len() ==> json_plain_char(#[trigger] s[i]),
    ensures
        json_escape(s) == s,
    decreases s.len(),
{
    if s.len() > 0 {
        assert(json_plain_char(s[0]));
        let t = s.drop_first();
        assert forall|i: int| 0 <= i < t.len() implies json_plain_char(#[trigger] t[i]) by {
            assert(t[i] == s[i + 1]);
        }
        lemma_json_escape_plain(t);
        assert(seq![s[0]] + t =~= s);
    }
}

/// The escaped form of a string holds no newline or carriage return.
pub proof fn lemma_json_escape_no_line_break(s: Seq<char>)
    ensures
        forall|i: int| 0 <= i < json_escape(s).len() ==> json_escape(s)[i] != '\n' && json_escape(s)[i] != '\r',
    decreases s.len(),
{
    if s.len() > 0 {
        let t = s.drop_first();
        lemma_json_escape_no_line_break(t);
        let c = s[0];
        let e = json_escape_char(c);
        assert forall|i: int| 0 <= i < e.len() implies e[i] != '\n' && e[i] != '\r' by {
            if (c as u32) < 0x20 && c != '"' && c != '\\' && c != '\x08' && c != '\t' && c != '\n'
                && c != '\x0c' && c != '\r' {
                let d1 = (c as u32 / 16) as nat;
                let d2 = (c as u32 % 16) as nat;
                assert(hex_char(d1) != '\n' && hex_char(d1) != '\r');
                assert(hex_char(d2) != '\n' && hex_char(d2) != '\r');
            }
        }
        let all = json_escape(s);
        assert(all =~= e + json_escape(t));
        assert forall|i: int| 0 <= i < all.len() implies all[i] != '\n' && all[i] != '\r' by {
            if i < e.len() {
                assert(all[i] == e[i]);
            } else {
                assert(all[i] == json_escape(t)[i - e.len()]);
            }
        }
    }
}

/// Writes `s` as a JSON string literal with `serde_json::to_string`.
/// The claim, from the escape table and `write_char_escape` in serde_json's
/// `ser.rs`: the result is `"`, each character escaped as
/// `json_escape_char` says, then `"`; and an object of one member whose
/// value is that literal is read back by `serde_json` with that string as
/// the member's value.
#[verifier::external_body]
pub(crate) fn json_quote(s: &str) -> (r: String)
    ensures
        r@ == json_string_literal(s@),
        forall|k: Seq<char>| #[trigger] json_string_member(
            seq!['{'] + json_string_literal(k) + seq![':'] + r@ + seq!['}'],
            k,
        ) == Some(s@),
{
    serde_json::to_string(s).unwrap_or_default()
}

/// Whether `serde_json` deserializes the text as a `jsonrpc_core::Request`.
pub uninterp spec fn parses_as_rpc_request(text: Seq<char>) -> bool;

/// Whether `serde_json` deserializes the text as a `jsonrpc_core::Response`.
pub uninterp spec fn parses_as_rpc_response(text: Seq<char>) -> bool;

/// Whether the text is a JSON-RPC message: a request or a response.
pub open spec fn is_rpc_message_text(text: Seq<char>) -> bool {
    parses_as_rpc_request(text) || parses_as_rpc_response(text)
}

/// Tries `serde_json::from_str::<jsonrpc_core::Request>` on the text and
/// tells whether it succeeded; named by `parses_as_rpc_request`.
#[verifier::external_body]
fn rpc_request_parses(text: &str) -> (b: bool)
    ensures
        b == parses_as_rpc_request(text@),
{
    serde_json::from_str::<jsonrpc_core::Request>(text).is_ok()
}

/// Tries `serde_json::from_str::<jsonrpc_core::Response>` on the text and
/// tells whether it succeeded; named by `parses_as_rpc_response`.
#[verifier::external_body]
fn rpc_response_parses(text: &str) -> (b: bool)
    ensures
        b == parses_as_rpc_response(text@),
{
    serde_json::from_str::<jsonrpc_core::Response>(text).is_ok()
}

/// A JSON-RPC 2.0 message (a request or a response), held as its JSON text.
#[derive(Debug, Clone, PartialEq, Eq)]
pub struct JsonRpcMessage {
    pub text: String,
}

impl View for JsonRpcMessage {
    type V = Seq<char>;

    open spec fn view(&self) -> Seq<char> {
        self.text@
    }
}

impl JsonRpcMessage {
    /// Parses JSON text as a JSON-RPC message, trying a request first and then
    /// a response; `None` when the text is neither.
    pub fn from_text(text: &str) -> (r: Option<JsonRpcMessage>)
        ensures
            r is Some <==> is_rpc_message_text(text@),
            r matches Some(m) ==> m@ == text@,
    {
        if rpc_request_parses(text) || rpc_response_parses(text) {
            Some(JsonRpcMessage { text: text.to_owned() })
        } else {
            None
        }
    }
}

/// The string member named `key` of the JSON object that a text is, as
/// `serde_json` reads it into a `serde_json::Value` and `Value::get` and
/// `Value::as_str` find it; `None` when the text is not JSON, not an
/// object, or has no string member of that name.
pub uninterp spec fn json_string_member(text: Seq<char>, key: Seq<char>) -> Option<Seq<char>>;

/// Reads the string member `key` of a JSON object text with
/// `serde_json::from_str::<serde_json::Value>`, `Value::get` and
/// `Value::as_str`; named by `json_string_member`.
/// Not stated: how serde_json parses (its grammar, duplicate keys).
#[verifier::external_body]
pub(crate) fn string_member(text: &str, key: &str) -> (r: Option<String>)
    ensures
        match r {
            Some(s) => json_string_member(text@, key@) == Some(s@),
            None => json_string_member(text@, key@) is None,
        },
{
    match serde_json::from_str::<serde_json::Value>(text) {
        Ok(v) => v.get(key).and_then(|m| m.as_str()).map(|m| m.to_string()),
        Err(_) => None,
    }
}

/// What `serde_json::to_string` writes for the JSON-RPC message that the
/// text parses to (as a `jsonrpc_core::Response`, else as a
/// `jsonrpc_core::Request`); the text itself when it is neither. A response
/// is tried first: `jsonrpc_core`'s `Call::Invalid` takes any object, so a
/// response read as a request would lose its result.
pub uninterp spec fn rpc_serialized(text: Seq<char>) -> Seq<char>;

/// Re-writes a JSON-RPC message text as `serde_json::to_string` writes the
/// parsed `jsonrpc_core` message; named by `rpc_serialized`. What is claimed
/// besides: the compact form has no newline, does not end in a carriage
/// return, and parses again as a JSON-RPC message.
#[verifier::external_body]
pub(crate) fn rpc_serialize(text: &str) -> (r: String)
    ensures
        r@ == rpc_serialized(text@),
        is_rpc_message_text(text@) ==> is_rpc_message_text(r@)
            && (forall|i: int| 0 <= i < r@.len() ==> r@[i] != '\n')
            && (r@.len() == 0 || r@.last() != '\r'),
{
    match serde_json::from_str::<jsonrpc_core::Response>(text) {
        Ok(m) => serde_json::to_string(&m).unwrap_or_default(),
        Err(_) => match serde_json::from_str::<jsonrpc_core::Request>(text) {
            Ok(m) => serde_json::to_string(&m).unwrap_or_default(),
            Err(_) => text.to_string(),
        },
    }
}

/// What `serde_json::to_string_pretty` writes for the JSON value that the
/// text parses to; `None` when the text is not JSON.
pub uninterp spec fn json_pretty(text: Seq<char>) -> Option<Seq<char>>;

/// Re-renders JSON text with `serde_json::to_string_pretty` after parsing it
/// as a `serde_json::Value`; named by `json_pretty`.
#[verifier::external_body]
pub(crate) fn pretty_json(text: &str) -> (r: Option<String>)
    ensures
        r matches Some(s) ==> json_pretty(text@) == Some(s@),
        r is None ==> json_pretty(text@) is None,
{
    match serde_json::from_str::<serde_json::Value>(text) {
        Ok(v) => serde_json::to_string_pretty(&v).ok(),
        Err(_) => None,
    }
}

/// A JSON value as plain data. Numbers keep their JSON text; objects keep
/// their members in order.
#[derive(Debug)]
pub enum JsonValue {
    Null,
    Bool(bool),
    Number(String),
    Str(String),
    Array(Vec<JsonValue>),
    Object(Vec<(String, JsonValue)>),
}

} // verus!
