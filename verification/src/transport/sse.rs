//! Server-Sent Events framing for the SSE transport: event encoding and
//! decoding, splitting a received stream into events, the client's handling
//! of events, the server's request routing and its registry of clients.
use vstd::prelude::*;
use crate::client_id::{uuid_text, uuid_parse, ClientId};
use crate::transport::ClientSenders;
use crate::json::{
    is_rpc_message_text, json_escape, json_plain_char, json_quote, json_string_literal, json_string_member,
    lemma_json_escape_no_line_break, lemma_json_escape_plain, rpc_serialize, rpc_serialized, string_member,
    JsonRpcMessage,
};
use crate::text::{
    append_chars, append_range, append_str, from_chars, has_prefix, prefix_at, str_eq, to_chars,
};

verus! {

/// Shutdown notification sent by a server to its clients.
#[derive(Debug, Clone, PartialEq, Eq)]
pub struct Shutdown {
    /// Reason for shutdown
    pub reason: String,
}

/// Metadata for the SSE transport: the client a message is for.
#[derive(Debug, Clone, Copy, PartialEq, Eq)]
pub struct SseMetadata {
    pub client_id: ClientId,
}

/// A message received from a client, with the client's identifier.
#[derive(Debug, Clone)]
pub struct SseMessage {
    pub message: JsonRpcMessage,
    pub client_id: ClientId,
}

/// An SSE event: a JSON-RPC message, the endpoint a client posts to, or a
/// shutdown notice.
///
/// ```text
/// event: message
/// data: {"jsonrpc": "2.0", ...}
///
/// event: endpoint
/// data: "http://..."
///
/// event: shutdown
/// data: {"reason": "Server is shutting down"}
/// ```
#[derive(Debug, Clone)]
pub enum SseEvent {
    Message(JsonRpcMessage),
    Endpoint(String),
    Shutdown(Shutdown),
}

/// The abstract content of an SSE event.
pub enum SseEventView {
    Message(Seq<char>),
    Endpoint(Seq<char>),
    Shutdown(Seq<char>),
}

impl View for SseEvent {
    type V = SseEventView;

    open spec fn view(&self) -> SseEventView {
        match self {
            SseEvent::Message(m) => SseEventView::Message(m@),
            SseEvent::Endpoint(e) => SseEventView::Endpoint(e@),
            SseEvent::Shutdown(s) => SseEventView::Shutdown(s.reason@),
        }
    }
}

/// Errors of the SSE transport.
#[derive(Debug, Clone, PartialEq, Eq)]
pub enum SseError {
    HttpError(u16),
    ChannelError(String),
    ClientNotFound,
    Connection(String),
    Other(String),
    /// The data of a `message` event is not a JSON-RPC message.
    InvalidMessage,
    /// The data of a `shutdown` event is not a shutdown notice.
    InvalidShutdown,
}

pub open spec fn message_type() -> Seq<char> {
    seq!['m', 'e', 's', 's', 'a', 'g', 'e']
}

pub open spec fn endpoint_type() -> Seq<char> {
    seq!['e', 'n', 'd', 'p', 'o', 'i', 'n', 't']
}

pub open spec fn shutdown_type() -> Seq<char> {
    seq!['s', 'h', 'u', 't', 'd', 'o', 'w', 'n']
}

pub open spec fn event_prefix() -> Seq<char> {
    seq!['e', 'v', 'e', 'n', 't', ':', ' ']
}

pub open spec fn data_prefix() -> Seq<char> {
    seq!['d', 'a', 't', 'a', ':', ' ']
}

/// The event type written on the `event:` line of `e`.
pub open spec fn event_type_of(e: SseEventView) -> Seq<char> {
    match e {
        SseEventView::Message(_) => message_type(),
        SseEventView::Endpoint(_) => endpoint_type(),
        SseEventView::Shutdown(_) => shutdown_type(),
    }
}

/// The key of a shutdown notice's reason.
pub open spec fn reason_key() -> Seq<char> {
    seq!['r', 'e', 'a', 's', 'o', 'n']
}

/// The JSON written on the `data:` line of `e`: the message as
/// `serde_json` writes it, the endpoint as a JSON string, or the shutdown
/// notice as `{"reason":...}`.
pub open spec fn event_data_of(e: SseEventView) -> Seq<char> {
    match e {
        SseEventView::Message(m) => rpc_serialized(m),
        SseEventView::Endpoint(u) => json_string_literal(u),
        SseEventView::Shutdown(r) => seq!['{', '"', 'r', 'e', 'a', 's', 'o', 'n', '"', ':']
            + json_string_literal(r) + seq!['}'],
    }
}

/// The text of one SSE event with the given type and data.
pub open spec fn sse_frame(event_type: Seq<char>, data: Seq<char>) -> Seq<char> {
    event_prefix() + event_type + seq!['\n'] + data_prefix() + data + seq!['\n', '\n']
}

/// The fields read so far: the last `event:` value and the last `data:` value.
pub type SseFields = (Option<Seq<char>>, Option<Seq<char>>);

/// The fields after reading one line: a line starting `data: ` sets the
/// data, otherwise a line starting `event: ` sets the event type.
pub open spec fn apply_line(f: SseFields, line: Seq<char>) -> SseFields {
    if has_prefix(line, data_prefix()) {
        (f.0, Some(line.subrange(6, line.len() as int)))
    } else if has_prefix(line, event_prefix()) {
        (Some(line.subrange(7, line.len() as int)), f.1)
    } else {
        f
    }
}

/// A line without the carriage return that ends it, if any.
pub open spec fn strip_cr(line: Seq<char>) -> Seq<char> {
    if line.len() > 0 && line.last() == '\r' {
        line.drop_last()
    } else {
        line
    }
}

/// Reads the rest `s` of an event text whose current line so far is `cur`,
/// line by line as `str::lines` splits it: at `\n` (a `\r` just before it is
/// dropped); the last line needs no `\n`.
pub open spec fn sse_scan(s: Seq<char>, cur: Seq<char>, f: SseFields) -> SseFields
    decreases s.len(),
{
    if s.len() == 0 {
        apply_line(f, cur)
    } else if s[0] == '\n' {
        sse_scan(s.drop_first(), Seq::empty(), apply_line(f, strip_cr(cur)))
    } else {
        sse_scan(s.drop_first(), cur.push(s[0]), f)
    }
}

/// The event type and data of an event text.
pub open spec fn sse_fields(s: Seq<char>) -> SseFields {
    sse_scan(s, Seq::empty(), (None, None))
}

/// Trims every leading and trailing `"`, as `str::trim_matches('"')` does.
pub open spec fn trim_quotes(s: Seq<char>) -> Seq<char>
    decreases s.len(),
{
    if s.len() > 0 && s[0] == '"' {
        trim_quotes(s.drop_first())
    } else if s.len() > 0 && s.last() == '"' {
        trim_quotes(s.drop_last())
    } else {
        s
    }
}

/// The decoded event of an event text: `Ok(None)` when the event type or
/// the data is missing or the type is unknown.
pub open spec fn decode_event(s: Seq<char>) -> Result<Option<SseEventView>, SseError> {
    let f = sse_fields(s);
    match (f.0, f.1) {
        (Some(t), Some(d)) => if t == message_type() {
            if is_rpc_message_text(d) {
                Ok(Some(SseEventView::Message(d)))
            } else {
                Err(SseError::InvalidMessage)
            }
        } else if t == endpoint_type() {
            Ok(Some(SseEventView::Endpoint(trim_quotes(d))))
        } else if t == shutdown_type() {
            match json_string_member(d, reason_key()) {
                Some(r) => Ok(Some(SseEventView::Shutdown(r))),
                None => Err(SseError::InvalidShutdown),
            }
        } else {
            Ok(None)
        },
        _ => Ok(None),
    }
}

fn trim_quotes_exec(v: &Vec<char>) -> (r: Vec<char>)
    ensures
        r@ == trim_quotes(v@),
{
    let mut lo: usize = 0;
    let mut hi: usize = v.len();
    assert(v@.subrange(0, v.len() as int) == v@);
    while lo < hi && v[lo] == '"'
        invariant
            lo <= hi <= v.len(),
            hi == v.len(),
            trim_quotes(v@.subrange(lo as int, hi as int)) == trim_quotes(v@),
        decreases hi - lo,
    {
        assert(v@.subrange(lo as int, hi as int).drop_first() == v@.subrange(lo + 1, hi as int));
        lo = lo + 1;
    }
    while lo < hi && v[hi - 1] == '"'
        invariant
            lo <= hi <= v.len(),
            lo == hi || v@[lo as int] != '"',
            trim_quotes(v@.subrange(lo as int, hi as int)) == trim_quotes(v@),
        decreases hi - lo,
    {
        assert(v@.subrange(lo as int, hi as int).drop_last() == v@.subrange(lo as int, hi - 1));
        hi = hi - 1;
    }
    let mut r: Vec<char> = Vec::new();
    append_range(&mut r, v, lo, hi);
    assert(r@ == v@.subrange(lo as int, hi as int));
    r
}

impl SseEvent {
    /// The event type of this event.
    pub fn event_type(&self) -> (t: &'static str)
        ensures
            t@ == event_type_of(self@),
    {
        proof {
            reveal_strlit("message");
            reveal_strlit("endpoint");
            reveal_strlit("shutdown");
        }
        match self {
            SseEvent::Message(_) => "message",
            SseEvent::Endpoint(_) => "endpoint",
            SseEvent::Shutdown(_) => "shutdown",
        }
    }

    /// The JSON data of this event.
    pub fn data(&self) -> (d: String)
        ensures
            d@ == event_data_of(self@),
            data_reads_back(self@),
    {
        match self {
            SseEvent::Message(m) => rpc_serialize(m.text.as_str()),
            SseEvent::Endpoint(u) => json_quote(u.as_str()),
            SseEvent::Shutdown(s) => {
                let mut out: Vec<char> = vec!['{', '"', 'r', 'e', 'a', 's', 'o', 'n', '"', ':'];
                let q = json_quote(s.reason.as_str());
                append_str(&mut out, q.as_str());
                out.push('}');
                assert(out@ =~= event_data_of(self@));
                proof {
                    let k = reason_key();
                    lemma_json_escape_plain(k);
                    assert(json_string_literal(k) =~= seq!['"', 'r', 'e', 'a', 's', 'o', 'n', '"']);
                    assert(seq!['{'] + json_string_literal(k) + seq![':'] + q@ + seq!['}'] =~= out@);
                    assert(json_string_member(seq!['{'] + json_string_literal(k) + seq![':'] + q@ + seq!['}'], k)
                        == Some(s.reason@));
                }
                from_chars(&out)
            },
        }
    }

    /// The event as SSE text: `event: <type>`, `data: <json>` and an empty
    /// line. What a client decodes from it is the event again (a message as
    /// `serde_json` rewrites it), for every message, every shutdown notice
    /// and every endpoint whose URL holds no character that JSON escapes.
    pub fn to_sse_string(&self) -> (s: String)
        ensures
            s@ == sse_frame(event_type_of(self@), event_data_of(self@)),
            round_trips(self@) ==> decode_event(s@) == Ok::<Option<SseEventView>, SseError>(Some(sent_view(self@))),
    {
        let mut out: Vec<char> = vec!['e', 'v', 'e', 'n', 't', ':', ' '];
        append_str(&mut out, self.event_type());
        out.push('\n');
        let d = self.data();
        let p: Vec<char> = vec!['d', 'a', 't', 'a', ':', ' '];
        append_chars(&mut out, &p);
        append_str(&mut out, d.as_str());
        out.push('\n');
        out.push('\n');
        assert(out@ =~= sse_frame(event_type_of(self@), event_data_of(self@)));
        proof {
            if round_trips(self@) {
                lemma_event_round_trip(self@);
            }
        }
        from_chars(&out)
    }

    /// Parses an SSE event text. `Ok(None)` when it lacks an `event:` or a
    /// `data:` line or names an unknown type; an error when the data of a
    /// message or shutdown event does not parse.
    pub fn from_sse_string(event_str: &str) -> (r: Result<Option<SseEvent>, SseError>)
        ensures
            match (r, decode_event(event_str@)) {
                (Ok(Some(e)), Ok(Some(v))) => e@ == v,
                (Ok(None), Ok(None)) => true,
                (Err(e1), Err(e2)) => e1 == e2,
                _ => false,
            },
    {
        let (event_type, data) = parse_sse_fields(event_str);
        match (event_type, data) {
            (Some(t), Some(d)) => {
                let mt: Vec<char> = vec!['m', 'e', 's', 's', 'a', 'g', 'e'];
                let et: Vec<char> = vec!['e', 'n', 'd', 'p', 'o', 'i', 'n', 't'];
                let st: Vec<char> = vec!['s', 'h', 'u', 't', 'd', 'o', 'w', 'n'];
                let ds = from_chars(&d);
                if crate::text::chars_eq(&t, &mt) {
                    match JsonRpcMessage::from_text(ds.as_str()) {
                        Some(m) => Ok(Some(SseEvent::Message(m))),
                        None => Err(SseError::InvalidMessage),
                    }
                } else if crate::text::chars_eq(&t, &et) {
                    let u = trim_quotes_exec(&d);
                    Ok(Some(SseEvent::Endpoint(from_chars(&u))))
                } else if crate::text::chars_eq(&t, &st) {
                    let key: Vec<char> = vec!['r', 'e', 'a', 's', 'o', 'n'];
                    let key_text = from_chars(&key);
                    match string_member(ds.as_str(), key_text.as_str()) {
                        Some(reason) => Ok(Some(SseEvent::Shutdown(Shutdown { reason }))),
                        None => Err(SseError::InvalidShutdown),
                    }
                } else {
                    Ok(None)
                }
            },
            _ => Ok(None),
        }
    }
}

fn apply_line_exec(ev: &mut Option<Vec<char>>, data: &mut Option<Vec<char>>, line: &Vec<char>)
    ensures
        (match *final(ev) { Some(v) => Some(v@), None => None::<Seq<char>> },
         match *final(data) { Some(v) => Some(v@), None => None::<Seq<char>> })
        == apply_line(
            (match *old(ev) { Some(v) => Some(v@), None => None::<Seq<char>> },
             match *old(data) { Some(v) => Some(v@), None => None::<Seq<char>> }),
            line@,
        ),
{
    let dp: Vec<char> = vec!['d', 'a', 't', 'a', ':', ' '];
    let ep: Vec<char> = vec!['e', 'v', 'e', 'n', 't', ':', ' '];
    assert(line@.subrange(0, line.len() as int) == line@);
    if prefix_at(line, 0, &dp) {
        assert(dp@ == data_prefix());
        *data = Some(crate::text::slice_chars(line, 6, line.len()));
    } else if prefix_at(line, 0, &ep) {
        assert(dp@ == data_prefix());
        assert(ep@ == event_prefix());
        *ev = Some(crate::text::slice_chars(line, 7, line.len()));
    } else {
        assert(dp@ == data_prefix());
        assert(ep@ == event_prefix());
    }
}

/// The last `event:` and `data:` values of an SSE event text.
pub fn parse_sse_fields(s: &str) -> (r: (Option<Vec<char>>, Option<Vec<char>>))
    ensures
        (match r.0 { Some(v) => Some(v@), None => None::<Seq<char>> },
         match r.1 { Some(v) => Some(v@), None => None::<Seq<char>> }) == sse_fields(s@),
{
    let cs = to_chars(s);
    let mut ev: Option<Vec<char>> = None;
    let mut data: Option<Vec<char>> = None;
    let mut cur: Vec<char> = Vec::new();
    let mut i: usize = 0;
    assert(cs@.subrange(0, cs.len() as int) == cs@);
    while i < cs.len()
        invariant
            i <= cs.len(),
            sse_scan(cs@.subrange(i as int, cs.len() as int), cur@,
                (match ev { Some(v) => Some(v@), None => None::<Seq<char>> },
                 match data { Some(v) => Some(v@), None => None::<Seq<char>> }))
                == sse_fields(cs@),
        decreases cs.len() - i,
    {
        let ghost rest = cs@.subrange(i as int, cs.len() as int);
        assert(rest.drop_first() == cs@.subrange(i + 1, cs.len() as int));
        if cs[i] == '\n' {
            if cur.len() > 0 && cur[cur.len() - 1] == '\r' {
                cur.pop();
            }
            apply_line_exec(&mut ev, &mut data, &cur);
            cur = Vec::new();
        } else {
            cur.push(cs[i]);
        }
        i = i + 1;
    }
    apply_line_exec(&mut ev, &mut data, &cur);
    (ev, data)
}

/// Whether `s` has two consecutive newlines starting at `i`.
pub open spec fn blank_at(s: Seq<char>, i: int) -> bool {
    0 <= i && i + 1 < s.len() && s[i] == '\n' && s[i + 1] == '\n'
}

/// Whether `s` holds two consecutive newlines.
pub open spec fn has_blank(s: Seq<char>) -> bool {
    exists|i: int| blank_at(s, i)
}

/// Whether `e` is one complete event as a stream delimits it: it ends with
/// two newlines, and holds no earlier pair of consecutive newlines.
pub open spec fn complete_event(e: Seq<char>) -> bool {
    e.len() >= 2 && blank_at(e, e.len() - 2)
        && forall|i: int| 0 <= i < e.len() - 2 ==> !blank_at(e, i)
}

/// The concatenation of the texts.
pub open spec fn concat(parts: Seq<Seq<char>>) -> Seq<char>
    decreases parts.len(),
{
    if parts.len() == 0 {
        Seq::empty()
    } else {
        concat(parts.drop_last()) + parts.last()
    }
}

/// Splits the complete events off the front of a received text buffer: each
/// event ends at the first pair of newlines; what follows the last one is
/// left over.
pub fn split_events(buffer: &str) -> (r: (Vec<String>, String))
    ensures
        concat(r.0@.map_values(|e: String| e@)) + r.1@ == buffer@,
        forall|k: int| 0 <= k < r.0.len() ==> complete_event(#[trigger] r.0@[k]@),
        !has_blank(r.1@),
{
    let cs = to_chars(buffer);
    let mut events: Vec<String> = Vec::new();
    let mut start: usize = 0;
    let mut i: usize = 0;
    while cs.len() >= 2 && i < cs.len() - 1
        invariant
            start <= i <= cs.len(),
            concat(events@.map_values(|e: String| e@)) == cs@.subrange(0, start as int),
            forall|k: int| 0 <= k < events.len() ==> complete_event(#[trigger] events@[k]@),
            forall|j: int| start <= j < i ==> !blank_at(cs@, j),
        decreases cs.len() - i,
    {
        if cs[i] == '\n' && cs[i + 1] == '\n' {
            let ev = crate::text::slice_chars(&cs, start, i + 2);
            let e = from_chars(&ev);
            let ghost old_events = events@;
            events.push(e);
            proof {
                let ev_s = cs@.subrange(start as int, i + 2);
                assert(blank_at(ev_s, ev_s.len() - 2));
                assert forall|j: int| 0 <= j < ev_s.len() - 2 implies !blank_at(ev_s, j) by {
                    assert(!blank_at(cs@, start + j));
                }
                assert(events@.map_values(|e: String| e@).drop_last()
                    == old_events.map_values(|e: String| e@));
                assert(cs@.subrange(0, i + 2) == cs@.subrange(0, start as int) + ev_s);
            }
            start = i + 2;
            i = i + 2;
        } else {
            i = i + 1;
        }
    }
    let rest = crate::text::slice_chars(&cs, start, cs.len());
    proof {
        assert forall|j: int| !blank_at(rest@, j) by {
            if blank_at(rest@, j) {
                assert(blank_at(cs@, start + j));
            }
        }
        assert(cs@.subrange(0, start as int) + rest@ =~= cs@);
    }
    (events, from_chars(&rest))
}

/// The first event text of an SSE frame round-trips through the line reader:
/// for a type and data without newlines and not ending in a carriage return,
/// the fields read back are that type and that data.
pub proof fn lemma_frame_fields(t: Seq<char>, d: Seq<char>)
    requires
        forall|i: int| 0 <= i < t.len() ==> t[i] != '\n',
        forall|i: int| 0 <= i < d.len() ==> d[i] != '\n',
        t.len() == 0 || t.last() != '\r',
        d.len() == 0 || d.last() != '\r',
    ensures
        sse_fields(sse_frame(t, d)) == (Some(t), Some(d)),
{
    let l1 = event_prefix() + t;
    let l2 = data_prefix() + d;
    let s = sse_frame(t, d);
    assert(s =~= l1 + (seq!['\n'] + (l2 + (seq!['\n'] + seq!['\n']))));
    lemma_scan_line(l1, seq!['\n'] + (l2 + (seq!['\n'] + seq!['\n'])), Seq::empty(), (None, None));
    assert(Seq::<char>::empty() + l1 =~= l1);
    let r1 = seq!['\n'] + (l2 + (seq!['\n'] + seq!['\n']));
    assert(r1[0] == '\n');
    assert(r1.drop_first() =~= l2 + (seq!['\n'] + seq!['\n']));
    assert(strip_cr(l1) == l1) by {
        if t.len() > 0 {
            assert(l1.last() == t.last());
        }
    }
    assert(!has_prefix(l1, data_prefix())) by {
        assert(l1[0] == 'e');
    }
    assert(has_prefix(l1, event_prefix())) by {
        assert(l1.subrange(0, 7) =~= event_prefix());
    }
    assert(l1.subrange(7, l1.len() as int) =~= t);
    let f1: SseFields = (Some(t), None);
    lemma_scan_line(l2, seq!['\n'] + seq!['\n'], Seq::empty(), f1);
    assert(Seq::<char>::empty() + l2 =~= l2);
    let r2 = seq!['\n'] + seq!['\n'];
    assert(r2.drop_first() =~= seq!['\n']);
    assert(strip_cr(l2) == l2) by {
        if d.len() > 0 {
            assert(l2.last() == d.last());
        }
    }
    assert(has_prefix(l2, data_prefix())) by {
        assert(l2.subrange(0, 6) =~= data_prefix());
    }
    assert(l2.subrange(6, l2.len() as int) =~= d);
    let f2: SseFields = (Some(t), Some(d));
    let r3 = seq!['\n'];
    assert(r3.drop_first() =~= Seq::<char>::empty());
    assert(!has_prefix(Seq::<char>::empty(), data_prefix()));
    assert(!has_prefix(Seq::<char>::empty(), event_prefix()));
    assert(sse_scan(r3, Seq::empty(), f2) == sse_scan(Seq::<char>::empty(), Seq::empty(), f2));
}

/// Scanning characters without a newline only extends the current line.
pub proof fn lemma_scan_line(line: Seq<char>, rest: Seq<char>, cur: Seq<char>, f: SseFields)
    requires
        forall|i: int| 0 <= i < line.len() ==> line[i] != '\n',
    ensures
        sse_scan(line + rest, cur, f) == sse_scan(rest, cur + line, f),
    decreases line.len(),
{
    if line.len() == 0 {
        assert(line + rest =~= rest);
        assert(cur + line =~= cur);
    } else {
        let s = line + rest;
        assert(s[0] == line[0]);
        assert(s.drop_first() =~= line.drop_first() + rest);
        let l2 = line.drop_first();
        assert forall|i: int| 0 <= i < l2.len() implies l2[i] != '\n' by {
            assert(l2[i] == line[i + 1]);
        }
        lemma_scan_line(l2, rest, cur.push(line[0]), f);
        assert(cur.push(line[0]) + l2 =~= cur + line);
    }
}


proof fn lemma_trim_quoted(u: Seq<char>)
    requires
        forall|i: int| 0 <= i < u.len() ==> u[i] != '"',
    ensures
        trim_quotes(seq!['"'] + u + seq!['"']) == u,
{
    let q = seq!['"'] + u + seq!['"'];
    let q1 = u + seq!['"'];
    assert(q[0] == '"');
    assert(q.drop_first() =~= q1);
    assert(trim_quotes(q) == trim_quotes(q1));
    if u.len() == 0 {
        assert(q1 =~= seq!['"']);
        assert(q1.drop_first() =~= u);
        assert(trim_quotes(q1) == trim_quotes(u));
    } else {
        assert(q1[0] == u[0]);
        assert(q1.last() == '"');
        assert(q1.drop_last() =~= u);
        assert(trim_quotes(q1) == trim_quotes(u));
        assert(u.last() == u[u.len() - 1]);
        assert(trim_quotes(u) == u);
    }
}

/// Whether an event is read back as it was sent: every message that is a
/// JSON-RPC message, every shutdown notice, and an endpoint whose URL holds
/// no character that JSON escapes.
pub open spec fn round_trips(e: SseEventView) -> bool {
    match e {
        SseEventView::Message(m) => is_rpc_message_text(m),
        SseEventView::Endpoint(u) => forall|i: int| 0 <= i < u.len() ==> json_plain_char(#[trigger] u[i]),
        SseEventView::Shutdown(_) => true,
    }
}

/// The event a client reads back: a message as `serde_json` writes it, any
/// other event unchanged.
pub open spec fn sent_view(e: SseEventView) -> SseEventView {
    match e {
        SseEventView::Message(m) => SseEventView::Message(rpc_serialized(m)),
        _ => e,
    }
}

/// What the data of an event is known to be read back as: a message's
/// rewritten text is a JSON-RPC message on one line, and the reason of a
/// shutdown notice is read back from it.
pub open spec fn data_reads_back(e: SseEventView) -> bool {
    match e {
        SseEventView::Message(m) => is_rpc_message_text(m) ==> {
            let d = rpc_serialized(m);
            &&& is_rpc_message_text(d)
            &&& forall|i: int| 0 <= i < d.len() ==> d[i] != '\n'
            &&& d.len() == 0 || d.last() != '\r'
        },
        SseEventView::Endpoint(_) => true,
        SseEventView::Shutdown(r) => json_string_member(event_data_of(e), reason_key()) == Some(r),
    }
}

/// What a client decodes from an event a server encodes is that event (a
/// message as `serde_json` rewrites it).
pub proof fn lemma_event_round_trip(e: SseEventView)
    requires
        round_trips(e),
        data_reads_back(e),
    ensures
        decode_event(sse_frame(event_type_of(e), event_data_of(e))) == Ok::<Option<SseEventView>, SseError>(
            Some(sent_view(e)),
        ),
{
    let t = event_type_of(e);
    let d = event_data_of(e);
    assert forall|i: int| 0 <= i < t.len() implies t[i] != '\n' by {}
    match e {
        SseEventView::Message(m) => {
            assert(t == message_type());
            lemma_frame_fields(t, d);
        },
        SseEventView::Endpoint(u) => {
            lemma_json_escape_plain(u);
            assert(d =~= seq!['"'] + u + seq!['"']);
            assert forall|i: int| 0 <= i < d.len() implies d[i] != '\n' by {
                if 0 < i < d.len() - 1 {
                    assert(d[i] == u[i - 1]);
                    assert(json_plain_char(u[i - 1]));
                }
            }
            assert forall|i: int| 0 <= i < u.len() implies u[i] != '"' by {
                assert(json_plain_char(u[i]));
            }
            assert(t == endpoint_type());
            lemma_frame_fields(t, d);
            lemma_trim_quoted(u);
            assert(t != message_type());
        },
        SseEventView::Shutdown(r) => {
            let lit = json_string_literal(r);
            lemma_json_escape_no_line_break(r);
            let head = seq!['{', '"', 'r', 'e', 'a', 's', 'o', 'n', '"', ':'];
            assert(d =~= head + lit + seq!['}']);
            assert forall|i: int| 0 <= i < d.len() implies d[i] != '\n' by {
                if i < head.len() {
                    assert(d[i] == head[i]);
                } else if i < head.len() + lit.len() {
                    assert(d[i] == lit[i - head.len()]);
                    if 0 < i - head.len() < lit.len() - 1 {
                        assert(lit[i - head.len()] == json_escape(r)[i - head.len() - 1]);
                    }
                } else {
                    assert(d[i] == '}');
                }
            }
            assert(d.last() == '}');
            assert(t == shutdown_type());
            lemma_frame_fields(t, d);
            assert(t != message_type());
            assert(t != endpoint_type());
        },
    }
}

/// What a client does with a decoded event.
#[derive(Debug, Clone)]
pub enum SseClientAction {
    /// The endpoint to post messages to was set; `notify` is true the first
    /// time only, when the connection becomes ready.
    EndpointSet { notify: bool },
    /// Forward the message to the client's handler.
    Forward(JsonRpcMessage),
    /// The server shut down: stop reading events.
    Stop { reason: String },
}

/// The state of an SSE client connection: the endpoint it posts messages
/// to, once the server has sent it, and whether readiness was signalled.
#[derive(Debug, Clone)]
pub struct SseClientState {
    pub message_endpoint: Option<String>,
    pub endpoint_notified: bool,
}

impl SseClientState {
    /// A connection that has received nothing yet.
    pub fn new() -> (s: Self)
        ensures
            s.message_endpoint is None,
            !s.endpoint_notified,
    {
        SseClientState { message_endpoint: None, endpoint_notified: false }
    }

    /// Handles one decoded event: an endpoint event sets the message
    /// endpoint (signalling readiness the first time), a message is
    /// forwarded, and a shutdown stops the connection.
    pub fn on_event(&mut self, event: SseEvent) -> (a: SseClientAction)
        ensures
            match event {
                SseEvent::Endpoint(u) => {
                    &&& final(self).message_endpoint matches Some(e) && e@ == u@
                    &&& final(self).endpoint_notified
                    &&& a matches SseClientAction::EndpointSet { notify }
                    &&& notify == !old(self).endpoint_notified
                },
                SseEvent::Message(m) => {
                    &&& *final(self) == *old(self)
                    &&& a matches SseClientAction::Forward(f) && f@ == m@
                },
                SseEvent::Shutdown(s) => {
                    &&& *final(self) == *old(self)
                    &&& a matches SseClientAction::Stop { reason } && reason@ == s.reason@
                },
            },
    {
        match event {
            SseEvent::Endpoint(u) => {
                self.message_endpoint = Some(u);
                let notify = !self.endpoint_notified;
                self.endpoint_notified = true;
                SseClientAction::EndpointSet { notify }
            },
            SseEvent::Message(m) => SseClientAction::Forward(m),
            SseEvent::Shutdown(s) => SseClientAction::Stop { reason: s.reason },
        }
    }

    /// The URL to post a message to, or an error before the server has sent
    /// its endpoint.
    pub fn message_url(&self) -> (r: Result<String, SseError>)
        ensures
            match self.message_endpoint {
                Some(e) => r matches Ok(u) && u@ == e@,
                None => r matches Err(SseError::Other(m))
                    && m@ == "No endpoint URL available yet. Wait for the SSE connection to establish."@,
            },
    {
        match &self.message_endpoint {
            Some(e) => Ok(e.clone()),
            None => Err(SseError::Other(
                "No endpoint URL available yet. Wait for the SSE connection to establish.".to_owned(),
            )),
        }
    }
}

/// HTTP methods that the SSE server tells apart.
#[derive(Debug, Clone, Copy, PartialEq, Eq, Structural)]
pub enum HttpMethod {
    Get,
    Post,
    Other,
}

/// Where the SSE server sends an HTTP request.
#[derive(Debug, Clone, Copy, PartialEq, Eq, Structural)]
pub enum SseRoute {
    /// `GET /`: a new client opens its event stream.
    Connect,
    /// `POST /sse/<client id>`: a message from that client.
    ClientMessage(ClientId),
    /// `POST /sse/<text>` where the text is not a UUID: 400.
    BadRequest,
    /// Anything else: 404.
    NotFound,
}

pub open spec fn sse_post_prefix() -> Seq<char> {
    seq!['/', 's', 's', 'e', '/']
}

/// The route of a request with this method and path.
pub open spec fn spec_route(method: HttpMethod, path: Seq<char>) -> SseRoute {
    if method == HttpMethod::Get {
        if path == seq!['/'] { SseRoute::Connect } else { SseRoute::NotFound }
    } else if method == HttpMethod::Post {
        if has_prefix(path, sse_post_prefix()) {
            match uuid_parse(path.subrange(5, path.len() as int)) {
                Some(v) => SseRoute::ClientMessage(ClientId(v)),
                None => SseRoute::BadRequest,
            }
        } else {
            SseRoute::NotFound
        }
    } else {
        SseRoute::NotFound
    }
}

/// Routes an HTTP request received by the SSE server.
pub fn route_request(method: HttpMethod, path: &str) -> (r: SseRoute)
    ensures
        r == spec_route(method, path@),
{
    let pc = to_chars(path);
    match method {
        HttpMethod::Get => {
            let root: Vec<char> = vec!['/'];
            if crate::text::chars_eq(&pc, &root) {
                assert(root@ =~= seq!['/']);
                SseRoute::Connect
            } else {
                assert(root@ =~= seq!['/']);
                SseRoute::NotFound
            }
        },
        HttpMethod::Post => {
            let pre: Vec<char> = vec!['/', 's', 's', 'e', '/'];
            assert(pc@.subrange(0, pc.len() as int) == pc@);
            if prefix_at(&pc, 0, &pre) {
                let rest = crate::text::slice_chars(&pc, 5, pc.len());
                let rs = from_chars(&rest);
                match ClientId::parse_str(rs.as_str()) {
                    Some(id) => SseRoute::ClientMessage(id),
                    None => SseRoute::BadRequest,
                }
            } else {
                SseRoute::NotFound
            }
        },
        HttpMethod::Other => SseRoute::NotFound,
    }
}

/// The SSE server's answer to a request other than a new connection: its
/// HTTP status and the client message it forwards, if any.
#[derive(Debug, Clone)]
pub struct SseReply {
    pub status: u16,
    pub forward: Option<SseMessage>,
}

/// Answers a request with this method, path and body: a new connection is
/// accepted (its event stream is the caller's part); a client's POST is
/// answered 200 and its body forwarded with the client's id when it is a
/// JSON-RPC message; a POST to `/sse/` with a bad id is answered 400, and
/// anything else 404.
pub fn answer_request(method: HttpMethod, path: &str, body: &str) -> (r: SseReply)
    ensures
        match spec_route(method, path@) {
            SseRoute::Connect => r.status == 200 && r.forward is None,
            SseRoute::ClientMessage(id) => r.status == 200 && if is_rpc_message_text(body@) {
                r.forward matches Some(m) && m.client_id == id && m.message@ == body@
            } else {
                r.forward is None
            },
            SseRoute::BadRequest => r.status == 400 && r.forward is None,
            SseRoute::NotFound => r.status == 404 && r.forward is None,
        },
{
    match route_request(method, path) {
        SseRoute::Connect => SseReply { status: 200, forward: None },
        SseRoute::ClientMessage(client_id) => match JsonRpcMessage::from_text(body) {
            Some(message) => SseReply { status: 200, forward: Some(SseMessage { message, client_id }) },
            None => SseReply { status: 200, forward: None },
        },
        SseRoute::BadRequest => SseReply { status: 400, forward: None },
        SseRoute::NotFound => SseReply { status: 404, forward: None },
    }
}

/// The URL a client posts its messages to: `http://<endpoint>/sse/<client id>`.
pub fn client_endpoint_url(endpoint: &str, client_id: ClientId) -> (u: String)
    ensures
        u@ == seq!['h', 't', 't', 'p', ':', '/', '/'] + endpoint@ + sse_post_prefix()
            + uuid_text(client_id.0),
{
    let mut out: Vec<char> = vec!['h', 't', 't', 'p', ':', '/', '/'];
    append_str(&mut out, endpoint);
    let pre: Vec<char> = vec!['/', 's', 's', 'e', '/'];
    append_chars(&mut out, &pre);
    let id = client_id.to_string();
    append_str(&mut out, id.as_str());
    assert(out@ =~= seq!['h', 't', 't', 'p', ':', '/', '/'] + endpoint@ + sse_post_prefix()
        + uuid_text(client_id.0));
    from_chars(&out)
}

/// The first event a newly connected client receives: where to post.
pub fn endpoint_event(endpoint: &str, client_id: ClientId) -> (e: SseEvent)
    ensures
        e matches SseEvent::Endpoint(u) && u@ == seq!['h', 't', 't', 'p', ':', '/', '/'] + endpoint@
            + sse_post_prefix() + uuid_text(client_id.0),
{
    SseEvent::Endpoint(client_endpoint_url(endpoint, client_id))
}

/// The event every client receives when the server closes.
pub fn shutdown_event() -> (e: SseEvent)
    ensures
        e matches SseEvent::Shutdown(s) && s.reason@ == "Server is shutting down"@,
{
    SseEvent::Shutdown(Shutdown { reason: "Server is shutting down".to_owned() })
}

/// The sender of the client a server-side message is for, or
/// `ClientNotFound` when that client is not connected.
pub fn sender_for<S>(clients: &ClientSenders<S>, client_id: ClientId) -> (r: Result<&S, SseError>)
    requires
        clients.wf(),
    ensures
        match r {
            Ok(s) => clients.clients().contains_key(client_id) && *s == clients.clients()[client_id],
            Err(e) => !clients.clients().contains_key(client_id) && e == SseError::ClientNotFound,
        },
{
    match clients.get(client_id) {
        Some(s) => Ok(s),
        None => Err(SseError::ClientNotFound),
    }
}

/// Reads the client a server-side send is for from the message metadata;
/// without it the send fails.
pub fn metadata_client(metadata: Option<SseMetadata>) -> (r: Result<ClientId, SseError>)
    ensures
        match metadata {
            Some(m) => r == Ok::<ClientId, SseError>(m.client_id),
            None => r matches Err(SseError::Other(msg)) && msg@ == "Invalid metadata type provided"@,
        },
{
    match metadata {
        Some(m) => Ok(m.client_id),
        None => Err(SseError::Other("Invalid metadata type provided".to_owned())),
    }
}

} // verus!
