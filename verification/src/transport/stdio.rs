//! The stdio transport's framing: one JSON-RPC message per line.
use vstd::prelude::*;
use crate::json::{is_rpc_message_text, JsonRpcMessage};
use crate::text::{append_str, from_chars, to_chars};
use crate::transport::sse::strip_cr;

verus! {

/// Errors of the stdio transport.
#[derive(Debug, Clone, PartialEq, Eq)]
pub enum StdioError {
    /// A received line is not a JSON-RPC message; reading stops.
    InvalidMessage,
}

/// The text written for one message: its JSON and a newline.
pub fn frame_message(message: &JsonRpcMessage) -> (s: String)
    ensures
        s@ == message@.push('\n'),
{
    let mut out: Vec<char> = Vec::new();
    append_str(&mut out, message.text.as_str());
    out.push('\n');
    assert(out@ =~= message@.push('\n'));
    from_chars(&out)
}

/// Decodes one received line as a JSON-RPC message.
pub fn decode_line(line: &str) -> (r: Result<JsonRpcMessage, StdioError>)
    ensures
        r is Ok <==> is_rpc_message_text(line@),
        r matches Ok(m) ==> m@ == line@,
        r matches Err(e) ==> e == StdioError::InvalidMessage,
{
    match JsonRpcMessage::from_text(line) {
        Some(m) => Ok(m),
        None => Err(StdioError::InvalidMessage),
    }
}

/// The complete lines of `s` and what follows the last newline, where the
/// line read so far is `cur`. Lines end at `\n`, and a `\r` just before the
/// `\n` is dropped, as `lines()` of an async reader does.
pub open spec fn scan_lines(s: Seq<char>, cur: Seq<char>) -> (Seq<Seq<char>>, Seq<char>)
    decreases s.len(),
{
    if s.len() == 0 {
        (Seq::empty(), cur)
    } else if s[0] == '\n' {
        let rest = scan_lines(s.drop_first(), Seq::empty());
        (seq![strip_cr(cur)] + rest.0, rest.1)
    } else {
        scan_lines(s.drop_first(), cur.push(s[0]))
    }
}

/// The complete lines of a received buffer and the incomplete rest.
pub open spec fn buffer_lines(s: Seq<char>) -> (Seq<Seq<char>>, Seq<char>) {
    scan_lines(s, Seq::empty())
}

/// The text of messages written one per line.
pub open spec fn framed(ms: Seq<Seq<char>>) -> Seq<char>
    decreases ms.len(),
{
    if ms.len() == 0 {
        Seq::empty()
    } else {
        ms[0].push('\n') + framed(ms.drop_first())
    }
}

/// Splits a received buffer into its complete lines and the rest after the
/// last newline, which stays buffered until more arrives.
pub fn split_lines(buffer: &str) -> (r: (Vec<String>, String))
    ensures
        r.0@.map_values(|l: String| l@) == buffer_lines(buffer@).0,
        r.1@ == buffer_lines(buffer@).1,
{
    let cs = to_chars(buffer);
    let mut lines: Vec<String> = Vec::new();
    let mut cur: Vec<char> = Vec::new();
    let mut i: usize = 0;
    assert(cs@.subrange(0, cs.len() as int) == cs@);
    while i < cs.len()
        invariant
            i <= cs.len(),
            ({
                let rest = scan_lines(cs@.subrange(i as int, cs.len() as int), cur@);
                &&& lines@.map_values(|l: String| l@) + rest.0 == buffer_lines(cs@).0
                &&& rest.1 == buffer_lines(cs@).1
            }),
        decreases cs.len() - i,
    {
        let ghost s = cs@.subrange(i as int, cs.len() as int);
        assert(s.drop_first() == cs@.subrange(i + 1, cs.len() as int));
        if cs[i] == '\n' {
            if cur.len() > 0 && cur[cur.len() - 1] == '\r' {
                cur.pop();
            }
            let ghost old_lines = lines@.map_values(|l: String| l@);
            let l = from_chars(&cur);
            lines.push(l);
            proof {
                let rest2 = scan_lines(s.drop_first(), Seq::empty());
                assert(lines@.map_values(|l: String| l@) =~= old_lines.push(cur@));
                assert(old_lines.push(cur@) + rest2.0 =~= old_lines + (seq![cur@] + rest2.0));
            }
            cur = Vec::new();
        } else {
            cur.push(cs[i]);
        }
        i = i + 1;
    }
    proof {
        assert(cs@.subrange(cs.len() as int, cs.len() as int) =~= Seq::<char>::empty());
        assert(lines@.map_values(|l: String| l@) + Seq::<Seq<char>>::empty()
            =~= lines@.map_values(|l: String| l@));
    }
    (lines, from_chars(&cur))
}

/// Characters without a newline only extend the current line.
proof fn lemma_scan_plain(line: Seq<char>, rest: Seq<char>, cur: Seq<char>)
    requires
        forall|i: int| 0 <= i < line.len() ==> line[i] != '\n',
    ensures
        scan_lines(line + rest, cur) == scan_lines(rest, cur + line),
    decreases line.len(),
{
    if line.len() == 0 {
        assert(line + rest =~= rest);
        assert(cur + line =~= cur);
    } else {
        let s = line + rest;
        assert(s[0] == line[0]);
        assert(s.drop_first() =~= line.drop_first() + rest);
        let l2 = line.drop_first();
        assert forall|i: int| 0 <= i < l2.len() implies l2[i] != '\n' by {
            assert(l2[i] == line[i + 1]);
        }
        lemma_scan_plain(l2, rest, cur.push(line[0]));
        assert(cur.push(line[0]) + l2 =~= cur + line);
    }
}

/// What a reader splits out of what a writer framed is the messages written,
/// in order, with nothing left over: for message texts holding no newline
/// and not ending in a carriage return.
pub proof fn lemma_lines_round_trip(ms: Seq<Seq<char>>)
    requires
        forall|k: int, i: int| 0 <= k < ms.len() && 0 <= i < ms[k].len() ==> #[trigger] ms[k][i] != '\n',
        forall|k: int| 0 <= k < ms.len() && ms[k].len() > 0 ==> #[trigger] ms[k].last() != '\r',
    ensures
        buffer_lines(framed(ms)) == (ms, Seq::<char>::empty()),
    decreases ms.len(),
{
    if ms.len() == 0 {
        assert(framed(ms) =~= Seq::<char>::empty());
        assert(ms =~= Seq::<Seq<char>>::empty());
    } else {
        let m = ms[0];
        let tail = ms.drop_first();
        assert forall|k: int, i: int| 0 <= k < tail.len() && 0 <= i < tail[k].len()
            implies #[trigger] tail[k][i] != '\n' by {
            assert(tail[k] == ms[k + 1]);
        }
        assert forall|k: int| 0 <= k < tail.len() && tail[k].len() > 0
            implies #[trigger] tail[k].last() != '\r' by {
            assert(tail[k] == ms[k + 1]);
        }
        lemma_lines_round_trip(tail);
        let rest = framed(tail);
        assert(framed(ms) == m.push('\n') + rest);
        assert(m.push('\n') + rest =~= m + (seq!['\n'] + rest));
        assert forall|i: int| 0 <= i < m.len() implies m[i] != '\n' by {
            assert(ms[0][i] != '\n');
        }
        lemma_scan_plain(m, seq!['\n'] + rest, Seq::empty());
        assert(Seq::<char>::empty() + m =~= m);
        let s2 = seq!['\n'] + rest;
        assert(s2[0] == '\n');
        assert(s2.drop_first() =~= rest);
        assert(strip_cr(m) == m) by {
            if m.len() > 0 {
                assert(ms[0].last() != '\r');
            }
        }
        assert(seq![m] + ms.drop_first() =~= ms);
    }
}

} // verus!
