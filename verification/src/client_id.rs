//! Identifiers of connected clients, as UUIDs.
use vstd::prelude::*;
use crate::text::{append_range, digit_char, from_chars};

verus! {

/// A client connected to a server transport, identified by a UUID held as
/// its 128-bit value.
#[derive(Debug, Clone, Copy, PartialEq, Eq, Structural, Hash)]
pub struct ClientId(pub u128);

/// The lowercase hexadecimal digit for `d`.
pub open spec fn hex_char(d: nat) -> char {
    if d < 10 { digit_char(d) }
    else if d == 10 { 'a' }
    else if d == 11 { 'b' }
    else if d == 12 { 'c' }
    else if d == 13 { 'd' }
    else if d == 14 { 'e' }
    else { 'f' }
}

/// The `n` least significant hexadecimal digits of `v`, most significant first.
pub open spec fn hex_digits(v: nat, n: nat) -> Seq<char>
    decreases n,
{
    if n == 0 {
        Seq::empty()
    } else {
        hex_digits(v / 16, (n - 1) as nat).push(hex_char(v % 16))
    }
}

/// The hyphenated lowercase text of a UUID: its 32 hexadecimal digits in
/// groups of 8, 4, 4, 4 and 12, separated by `-`.
pub open spec fn uuid_text(v: u128) -> Seq<char> {
    let h = hex_digits(v as nat, 32);
    h.subrange(0, 8) + seq!['-'] + h.subrange(8, 12) + seq!['-'] + h.subrange(12, 16)
        + seq!['-'] + h.subrange(16, 20) + seq!['-'] + h.subrange(20, 32)
}

proof fn lemma_hex_digits_len(v: nat, n: nat)
    ensures
        hex_digits(v, n).len() == n,
    decreases n,
{
    if n > 0 {
        lemma_hex_digits_len(v / 16, (n - 1) as nat);
    }
}

fn hex_of(d: u128) -> (c: char)
    requires
        d < 16,
    ensures
        c == hex_char(d as nat),
{
    if d == 0 { '0' }
    else if d == 1 { '1' }
    else if d == 2 { '2' }
    else if d == 3 { '3' }
    else if d == 4 { '4' }
    else if d == 5 { '5' }
    else if d == 6 { '6' }
    else if d == 7 { '7' }
    else if d == 8 { '8' }
    else if d == 9 { '9' }
    else if d == 10 { 'a' }
    else if d == 11 { 'b' }
    else if d == 12 { 'c' }
    else if d == 13 { 'd' }
    else if d == 14 { 'e' }
    else { 'f' }
}

fn push_hex(out: &mut Vec<char>, v: u128, n: u32)
    ensures
        final(out)@ == old(out)@ + hex_digits(v as nat, n as nat),
    decreases n,
{
    if n > 0 {
        push_hex(out, v / 16, n - 1);
        out.push(hex_of(v % 16));
        assert(out@ =~= old(out)@ + hex_digits(v as nat, n as nat));
    } else {
        assert(out@ =~= old(out)@ + hex_digits(v as nat, n as nat));
    }
}

/// A version 4, RFC 4122 variant UUID: its version nibble is 4 and its two
/// variant bits are `10`.
pub open spec fn is_v4_uuid(v: u128) -> bool {
    &&& (v >> 76u128) & 0xfu128 == 4
    &&& (v >> 62u128) & 0x3u128 == 2
}

/// A fresh random UUID value, from `uuid::Uuid::new_v4`, which masks the
/// version and variant bits into random bits; only those bits are stated.
#[verifier::external_body]
fn random_uuid() -> (v: u128)
    ensures
        is_v4_uuid(v),
{
    uuid::Uuid::new_v4().as_u128()
}

/// What `uuid::Uuid::parse_str` gives for a text: the UUID's value, or
/// `None` where the text is not a UUID in one of the formats that the crate
/// accepts.
pub uninterp spec fn uuid_parse(s: Seq<char>) -> Option<u128>;

/// Parses a UUID with `uuid::Uuid::parse_str`. The result is named by
/// `uuid_parse` of the text; beyond that only this is claimed: the
/// hyphenated lowercase text of a UUID (what `Uuid`'s `Display` writes)
/// parses back to that UUID.
#[verifier::external_body]
fn parse_uuid(s: &str) -> (r: Option<u128>)
    ensures
        r == uuid_parse(s@),
        forall|v: u128| s@ == uuid_text(v) ==> r == Some(v),
{
    match uuid::Uuid::parse_str(s) {
        Ok(u) => Some(u.as_u128()),
        Err(_) => None,
    }
}

impl ClientId {
    /// A new client identifier from a random version 4 UUID.
    pub fn new() -> (id: ClientId)
        ensures
            is_v4_uuid(id.0),
    {
        ClientId(random_uuid())
    }

    /// The hyphenated lowercase text of the identifier, 36 characters long.
    pub fn to_string(&self) -> (s: String)
        ensures
            s@ == uuid_text(self.0),
            s@.len() == 36,
    {
        let mut h: Vec<char> = Vec::new();
        push_hex(&mut h, self.0, 32);
        proof {
            lemma_hex_digits_len(self.0 as nat, 32);
        }
        let mut out: Vec<char> = Vec::new();
        append_range(&mut out, &h, 0, 8);
        out.push('-');
        append_range(&mut out, &h, 8, 12);
        out.push('-');
        append_range(&mut out, &h, 12, 16);
        out.push('-');
        append_range(&mut out, &h, 16, 20);
        out.push('-');
        append_range(&mut out, &h, 20, 32);
        assert(out@ =~= uuid_text(self.0));
        from_chars(&out)
    }

    /// Parses a client identifier from a UUID text, as `uuid::Uuid::parse_str` does.
    pub fn parse_str(s: &str) -> (r: Option<ClientId>)
        ensures
            r == (match uuid_parse(s@) {
                Some(v) => Some(ClientId(v)),
                None => None::<ClientId>,
            }),
            forall|id: ClientId| s@ == uuid_text(id.0) ==> r == Some(id),
    {
        match parse_uuid(s) {
            Some(v) => Some(ClientId(v)),
            None => None,
        }
    }
}

} // verus!
