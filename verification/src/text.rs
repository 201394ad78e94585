//! Character-sequence helpers shared by the protocol code.
use vstd::prelude::*;

verus! {

/// The characters of a string slice, in order.
pub fn to_chars(s: &str) -> (r: Vec<char>)
    ensures
        r@ == s@,
{
    let mut v: Vec<char> = Vec::new();
    for c in it: s.chars()
        invariant
            v@ == it.seq().take(it.index() as int),
    {
        v.push(c);
    }
    v
}

/// Appends a character to a string with `String::push`.
#[verifier::external_body]
fn push_char(s: &mut String, c: char)
    ensures
        final(s)@ == old(s)@.push(c),
{
    s.push(c);
}

/// A string made of the given characters, in order.
pub fn from_chars(v: &Vec<char>) -> (r: String)
    ensures
        r@ == v@,
{
    let mut s = String::new();
    let mut i: usize = 0;
    while i < v.len()
        invariant
            i <= v.len(),
            s@ == v@.subrange(0, i as int),
        decreases v.len() - i,
    {
        push_char(&mut s, v[i]);
        assert(s@ =~= v@.subrange(0, i + 1));
        i = i + 1;
    }
    assert(v@.subrange(0, v.len() as int) =~= v@);
    s
}

/// Whether a character is an ASCII digit.
pub open spec fn is_digit(c: char) -> bool {
    '0' <= c <= '9'
}

/// The value of a run of ASCII digits.
pub open spec fn digits_value(d: Seq<char>) -> nat
    decreases d.len(),
{
    if d.len() == 0 {
        0
    } else {
        digits_value(d.drop_last()) * 10 + ((d.last() as nat) - ('0' as nat)) as nat
    }
}

/// The value of digits only grows as digits are added.
pub proof fn lemma_digits_grow(d: Seq<char>, k: int)
    requires
        0 <= k < d.len(),
        forall|j: int| 0 <= j < d.len() ==> is_digit(#[trigger] d[j]),
    ensures
        digits_value(d) >= digits_value(d.subrange(0, k + 1)),
    decreases d.len(),
{
    if k + 1 < d.len() {
        let init = d.drop_last();
        assert forall|j: int| 0 <= j < init.len() implies is_digit(#[trigger] init[j]) by {
            assert(init[j] == d[j]);
        }
        lemma_digits_grow(init, k);
        assert(init.subrange(0, k + 1) =~= d.subrange(0, k + 1));
        assert(digits_value(d) == digits_value(init) * 10 + ((d.last() as nat) - ('0' as nat)) as nat);
        assert(digits_value(init) * 10 >= digits_value(init)) by (nonlinear_arith);
    } else {
        assert(d.subrange(0, k + 1) =~= d);
    }
}

/// A number's text without its leading `+`, if it has one.
pub open spec fn unsigned_digits(s: Seq<char>) -> Seq<char> {
    if s.len() > 0 && s[0] == '+' {
        s.drop_first()
    } else {
        s
    }
}

/// The value `str::parse::<usize>` reads from a text: an optional `+`,
/// then one or more ASCII digits whose value fits in a `usize`.
pub open spec fn usize_text_value(s: Seq<char>) -> Option<usize> {
    let d = unsigned_digits(s);
    if d.len() == 0 || exists|i: int| 0 <= i < d.len() && !is_digit(#[trigger] d[i]) {
        None
    } else if digits_value(d) > usize::MAX {
        None
    } else {
        Some(digits_value(d) as usize)
    }
}

/// Reads a `usize` from a text as `str::parse::<usize>` does.
pub fn parse_usize(s: &str) -> (r: Option<usize>)
    ensures
        r == usize_text_value(s@),
{
    let cs = to_chars(s);
    let start: usize = if cs.len() > 0 && cs[0] == '+' { 1 } else { 0 };
    let ghost d = cs@.subrange(start as int, cs.len() as int);
    assert(d =~= unsigned_digits(s@));
    if start == cs.len() {
        return None;
    }
    let mut k: usize = start;
    while k < cs.len()
        invariant
            start <= k <= cs.len(),
            cs@ == s@,
            d == cs@.subrange(start as int, cs.len() as int),
            d == unsigned_digits(s@),
            forall|j: int| start <= j < k ==> is_digit(#[trigger] cs@[j]),
        decreases cs.len() - k,
    {
        if !('0' <= cs[k] && cs[k] <= '9') {
            assert(!is_digit(d[k - start]));
            return None;
        }
        k = k + 1;
    }
    assert forall|i: int| 0 <= i < d.len() implies is_digit(#[trigger] d[i]) by {
        assert(d[i] == cs@[start + i]);
    }
    let mut v: usize = 0;
    let mut k: usize = start;
    assert(cs@.subrange(start as int, start as int) =~= Seq::<char>::empty());
    while k < cs.len()
        invariant
            start <= k <= cs.len(),
            cs@ == s@,
            d == cs@.subrange(start as int, cs.len() as int),
            d == unsigned_digits(s@),
            forall|j: int| 0 <= j < d.len() ==> is_digit(#[trigger] d[j]),
            v == digits_value(cs@.subrange(start as int, k as int)),
        decreases cs.len() - k,
    {
        let ghost pre = cs@.subrange(start as int, k as int);
        assert(cs@.subrange(start as int, k + 1).drop_last() =~= pre);
        assert(d[k - start] == cs@[k as int]);
        let c = cs[k];
        let dig: usize = (c as u32 - '0' as u32) as usize;
        assert(dig == (cs@[k as int] as nat) - ('0' as nat));
        if v > (usize::MAX - dig) / 10 {
            proof {
                lemma_digits_grow(d, (k - start) as int);
                assert(d.subrange(0, (k - start) + 1) =~= cs@.subrange(start as int, k + 1));
                assert(v * 10 + dig > usize::MAX) by (nonlinear_arith)
                    requires
                        v > (usize::MAX - dig) / 10,
                        dig <= 9,
                ;
            }
            return None;
        }
        assert(v * 10 + dig <= usize::MAX) by (nonlinear_arith)
            requires
                v <= (usize::MAX - dig) / 10,
                dig <= 9,
        ;
        v = v * 10 + dig;
        k = k + 1;
    }
    Some(v)
}

/// Whether `p` is a prefix of `s`.
pub open spec fn has_prefix(s: Seq<char>, p: Seq<char>) -> bool {
    p.len() <= s.len() && s.subrange(0, p.len() as int) == p
}

/// Whether `p` is a suffix of `s`.
pub open spec fn has_suffix(s: Seq<char>, p: Seq<char>) -> bool {
    p.len() <= s.len() && s.subrange(s.len() - p.len(), s.len() as int) == p
}

/// Whether `c` occurs in `s`.
pub open spec fn has_char(s: Seq<char>, c: char) -> bool {
    exists|i: int| 0 <= i < s.len() && s[i] == c
}

/// Appends the characters of `s` to `out`.
pub fn append_str(out: &mut Vec<char>, s: &str)
    ensures
        final(out)@ == old(out)@ + s@,
{
    let cs = to_chars(s);
    append_chars(out, &cs);
}

/// Appends the characters of `v` to `out`.
pub fn append_chars(out: &mut Vec<char>, v: &Vec<char>)
    ensures
        final(out)@ == old(out)@ + v@,
{
    let ghost start = out@;
    let mut i: usize = 0;
    while i < v.len()
        invariant
            i <= v.len(),
            out@ == start + v@.subrange(0, i as int),
        decreases v.len() - i,
    {
        out.push(v[i]);
        i = i + 1;
        assert(v@.subrange(0, i as int) == v@.subrange(0, i - 1) + seq![v@[i - 1]]);
    }
    assert(v@.subrange(0, v.len() as int) == v@);
}

/// Appends `v[from..to]` to `out`.
pub fn append_range(out: &mut Vec<char>, v: &Vec<char>, from: usize, to: usize)
    requires
        from <= to <= v.len(),
    ensures
        final(out)@ == old(out)@ + v@.subrange(from as int, to as int),
{
    let ghost start = out@;
    let mut i: usize = from;
    while i < to
        invariant
            from <= i <= to <= v.len(),
            out@ == start + v@.subrange(from as int, i as int),
        decreases to - i,
    {
        out.push(v[i]);
        i = i + 1;
        assert(v@.subrange(from as int, i as int) == v@.subrange(from as int, i - 1) + seq![v@[i - 1]]);
    }
}

/// The characters of `v[from..to]` as a new vector.
pub fn slice_chars(v: &Vec<char>, from: usize, to: usize) -> (r: Vec<char>)
    requires
        from <= to <= v.len(),
    ensures
        r@ == v@.subrange(from as int, to as int),
{
    let mut r: Vec<char> = Vec::new();
    append_range(&mut r, v, from, to);
    r
}

/// Whether `v[at..]` starts with `p`.
pub fn prefix_at(v: &Vec<char>, at: usize, p: &Vec<char>) -> (b: bool)
    requires
        at <= v.len(),
    ensures
        b == has_prefix(v@.subrange(at as int, v.len() as int), p@),
{
    if p.len() > v.len() - at {
        return false;
    }
    let mut i: usize = 0;
    while i < p.len()
        invariant
            i <= p.len(),
            at + p.len() <= v.len(),
            forall|j: int| 0 <= j < i ==> v@[at + j] == p@[j],
        decreases p.len() - i,
    {
        if v[at + i] != p[i] {
            assert(v@.subrange(at as int, v.len() as int).subrange(0, p.len() as int)[i as int] != p@[i as int]);
            return false;
        }
        i = i + 1;
    }
    assert(v@.subrange(at as int, v.len() as int).subrange(0, p.len() as int) =~= p@);
    true
}

/// Whether `v` starts with the characters of `p`.
pub fn starts_with(v: &Vec<char>, p: &str) -> (b: bool)
    ensures
        b == has_prefix(v@, p@),
{
    let pc = to_chars(p);
    assert(v@.subrange(0, v.len() as int) == v@);
    prefix_at(v, 0, &pc)
}

/// Whether `v` ends with the characters of `p`.
pub fn ends_with(v: &Vec<char>, p: &str) -> (b: bool)
    ensures
        b == has_suffix(v@, p@),
{
    let pc = to_chars(p);
    if pc.len() > v.len() {
        return false;
    }
    let at = v.len() - pc.len();
    let r = prefix_at(v, at, &pc);
    assert(v@.subrange(at as int, v.len() as int).subrange(0, pc.len() as int)
        == v@.subrange(at as int, v.len() as int));
    r
}

/// Whether two character sequences are equal.
pub fn chars_eq(a: &Vec<char>, b: &Vec<char>) -> (r: bool)
    ensures
        r == (a@ == b@),
{
    if a.len() != b.len() {
        return false;
    }
    let mut i: usize = 0;
    while i < a.len()
        invariant
            i <= a.len(),
            a.len() == b.len(),
            forall|j: int| 0 <= j < i ==> a@[j] == b@[j],
        decreases a.len() - i,
    {
        if a[i] != b[i] {
            return false;
        }
        i = i + 1;
    }
    assert(a@ =~= b@);
    true
}

/// Whether the characters of `a` equal those of `b`.
pub fn str_eq(a: &str, b: &str) -> (r: bool)
    ensures
        r == (a@ == b@),
{
    let ac = to_chars(a);
    let bc = to_chars(b);
    chars_eq(&ac, &bc)
}

/// Whether `c` occurs in `v`.
pub fn contains_char(v: &Vec<char>, c: char) -> (r: bool)
    ensures
        r == has_char(v@, c),
{
    let mut i: usize = 0;
    while i < v.len()
        invariant
            i <= v.len(),
            forall|j: int| 0 <= j < i ==> v@[j] != c,
        decreases v.len() - i,
    {
        if v[i] == c {
            return true;
        }
        i = i + 1;
    }
    false
}

/// The decimal digit for `d`.
pub open spec fn digit_char(d: nat) -> char {
    if d == 0 { '0' }
    else if d == 1 { '1' }
    else if d == 2 { '2' }
    else if d == 3 { '3' }
    else if d == 4 { '4' }
    else if d == 5 { '5' }
    else if d == 6 { '6' }
    else if d == 7 { '7' }
    else if d == 8 { '8' }
    else { '9' }
}

/// The decimal representation of `n`, without leading zeros.
pub open spec fn decimal(n: nat) -> Seq<char>
    decreases n,
{
    if n < 10 {
        seq![digit_char(n)]
    } else {
        decimal(n / 10).push(digit_char(n % 10))
    }
}

/// The decimal representation of a signed integer, with a leading `-` when negative.
pub open spec fn signed_decimal(n: int) -> Seq<char> {
    if n < 0 {
        seq!['-'] + decimal((-n) as nat)
    } else {
        decimal(n as nat)
    }
}

fn digit_of(d: u64) -> (c: char)
    requires
        d < 10,
    ensures
        c == digit_char(d as nat),
{
    if d == 0 { '0' }
    else if d == 1 { '1' }
    else if d == 2 { '2' }
    else if d == 3 { '3' }
    else if d == 4 { '4' }
    else if d == 5 { '5' }
    else if d == 6 { '6' }
    else if d == 7 { '7' }
    else if d == 8 { '8' }
    else { '9' }
}

/// Appends the decimal representation of `n` to `out`.
pub fn push_decimal(out: &mut Vec<char>, n: u64)
    ensures
        final(out)@ == old(out)@ + decimal(n as nat),
    decreases n,
{
    if n >= 10 {
        push_decimal(out, n / 10);
    }
    out.push(digit_of(n % 10));
    assert(out@ =~= old(out)@ + decimal(n as nat));
}

/// Appends the decimal representation of the signed `n` to `out`.
pub fn push_signed_decimal(out: &mut Vec<char>, n: i64)
    ensures
        final(out)@ == old(out)@ + signed_decimal(n as int),
{
    if n < 0 {
        out.push('-');
        let m: u64 = if n == i64::MIN { 9223372036854775808u64 } else { (-n) as u64 };
        push_decimal(out, m);
        assert(out@ =~= old(out)@ + signed_decimal(n as int));
    } else {
        push_decimal(out, n as u64);
    }
}

/// `s` with every non-overlapping occurrence of the non-empty `p`, scanning
/// from the left, replaced by `r`.
pub open spec fn replace_all(s: Seq<char>, p: Seq<char>, r: Seq<char>) -> Seq<char>
    decreases s.len(),
{
    if s.len() == 0 || p.len() == 0 {
        s
    } else if has_prefix(s, p) {
        r + replace_all(s.subrange(p.len() as int, s.len() as int), p, r)
    } else {
        seq![s[0]] + replace_all(s.subrange(1, s.len() as int), p, r)
    }
}

/// Replaces every occurrence of the non-empty `p` in `s` by `r`, as `str::replace` does.
pub fn replace(s: &str, p: &str, r: &str) -> (out: String)
    requires
        p@.len() > 0,
    ensures
        out@ == replace_all(s@, p@, r@),
{
    let sc = to_chars(s);
    let pc = to_chars(p);
    let rc = to_chars(r);
    let mut out: Vec<char> = Vec::new();
    let mut i: usize = 0;
    assert(sc@.subrange(0, sc.len() as int) == sc@);
    assert(out@ + sc@ =~= sc@);
    while i < sc.len()
        invariant
            i <= sc.len(),
            pc@ == p@,
            rc@ == r@,
            pc@.len() > 0,
            out@ + replace_all(sc@.subrange(i as int, sc.len() as int), pc@, rc@)
                == replace_all(sc@, pc@, rc@),
        decreases sc.len() - i,
    {
        let ghost rest = sc@.subrange(i as int, sc.len() as int);
        if prefix_at(&sc, i, &pc) {
            append_chars(&mut out, &rc);
            assert(rest.subrange(pc@.len() as int, rest.len() as int)
                == sc@.subrange(i + pc@.len(), sc.len() as int));
            i = i + pc.len();
        } else {
            out.push(sc[i]);
            assert(rest.subrange(1, rest.len() as int) == sc@.subrange(i + 1, sc.len() as int));
            i = i + 1;
        }
    }
    assert(sc@.subrange(sc.len() as int, sc.len() as int) =~= Seq::<char>::empty());
    assert(sc@.subrange(0, sc.len() as int) == sc@);
    from_chars(&out)
}

/// The sequences of `parts` joined with `sep` between consecutive ones.
pub open spec fn join(parts: Seq<Seq<char>>, sep: Seq<char>) -> Seq<char>
    decreases parts.len(),
{
    if parts.len() == 0 {
        Seq::empty()
    } else if parts.len() == 1 {
        parts[0]
    } else {
        join(parts.drop_last(), sep) + sep + parts.last()
    }
}

} // verus!
